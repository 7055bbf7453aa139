use setlist_backend::exchange::Reply;
use setlist_backend::protocol::{
    command_url_of, parse_ext_state_reply, read_project_list, ExtStateReply, ReaperCommand,
    ReaperError,
};
use setlist_backend::decimal::parse_transport_position;
use setlist_backend::paths::strip_root;
use setlist_backend::script_check::{decide_nonce, ScriptCheck};
use setlist_backend::exchange::CallValue;
use setlist_backend::workflow::{Exchange, Output, ReaperClient, Step};
use setlist_backend::Settings;

fn settings() -> Settings {
    Settings {
        folder_path: "C:\\Music".to_string(),
        reaper_url: "http://localhost:8080".to_string(),
        reaper_username: None,
        reaper_password: None,
        set_root_script_action_id: None,
        load_project_script_action_id: Some("_RS123".to_string()),
        list_projects_script_action_id: Some("_RS456".to_string()),
    }
}

fn ok(body: &str) -> Reply {
    Reply::Answered { status: 200, body: body.to_string() }
}

/// Drives `x` with `replies`, returning the URLs sent and the final step.
fn drive(x: &Exchange, replies: Vec<Reply>) -> (Vec<String>, Step) {
    let mut sent = Vec::new();
    let mut given = Vec::new();
    let mut rest = replies.into_iter();
    loop {
        match x.step(&given) {
            Step::Send(u) => {
                sent.push(u);
                given.push(rest.next().expect("a reply for every request"));
            }
            done => return (sent, done),
        }
    }
}

fn drive_check(c: &ScriptCheck, replies: Vec<Reply>) -> (Vec<String>, Step) {
    let mut sent = Vec::new();
    let mut given = Vec::new();
    let mut rest = replies.into_iter();
    loop {
        match c.step(&given) {
            Step::Send(u) => {
                sent.push(u);
                given.push(rest.next().expect("a reply for every request"));
            }
            done => return (sent, done),
        }
    }
}

#[test]
fn command_codes() {
    assert_eq!(ReaperCommand::GoToEnd.to_command_string(), "40043");
    assert_eq!(ReaperCommand::GoToStart.to_command_string(), "40042");
    assert_eq!(ReaperCommand::GetTransport.to_command_string(), "TRANSPORT");
    assert_eq!(ReaperCommand::NewTab.to_command_string(), "40859");
    assert_eq!(ReaperCommand::CloseAllTabs.to_command_string(), "40860");
    assert_eq!(ReaperCommand::RunAction("_RS1".to_string()).to_command_string(), "_RS1");
    assert_eq!(
        command_url_of("http://h:8080", &ReaperCommand::GoToEnd),
        "http://h:8080/_/40043"
    );
}

#[test]
fn ext_state_reply_with_value() {
    let r = parse_ext_state_reply("EXTSTATE\tWebAppControl\tfoo\tbar\n", "WebAppControl", "foo");
    assert_eq!(r.value(), Some("bar".to_string()));
}

#[test]
fn ext_state_reply_value_alone_is_empty() {
    let r = parse_ext_state_reply("VALUE\n", "WebAppControl", "foo");
    assert!(matches!(r, ExtStateReply::Empty));
    assert_eq!(r.value(), Some(String::new()));
}

#[test]
fn ext_state_reply_value_with_text_is_none() {
    assert_eq!(parse_ext_state_reply("VALUE\tx\n", "WebAppControl", "foo").value(), None);
    assert_eq!(
        parse_ext_state_reply("VALUE\t\n", "WebAppControl", "foo").value(),
        Some(String::new())
    );
}

#[test]
fn ext_state_reply_empty_body_is_none() {
    assert_eq!(parse_ext_state_reply("", "WebAppControl", "foo").value(), None);
}

#[test]
fn ext_state_reply_other_key_is_none() {
    let r = parse_ext_state_reply("EXTSTATE\tWebAppControl\tother\tbar\n", "WebAppControl", "foo");
    assert_eq!(r.value(), None);
}

#[test]
fn transport_position_third_field() {
    let t = parse_transport_position("TYPE\tX\t12.5\t...").unwrap();
    assert_eq!(t.secs, 12);
    assert_eq!(t.nanos, 500_000_000);
}

#[test]
fn transport_position_forms() {
    let t = parse_transport_position("1\t0\t.25\t0").unwrap();
    assert_eq!((t.secs, t.nanos), (0, 250_000_000));
    let t = parse_transport_position("1\t0\t7\t0").unwrap();
    assert_eq!((t.secs, t.nanos), (7, 0));
    let t = parse_transport_position("1\t0\t3.1234567891\t0").unwrap();
    assert_eq!((t.secs, t.nanos), (3, 123_456_789));
}

#[test]
fn transport_position_short_line_is_parse_error() {
    assert!(matches!(parse_transport_position("TYPE\tX"), Err(ReaperError::Parse(_))));
    assert!(matches!(parse_transport_position(""), Err(ReaperError::Parse(_))));
}

#[test]
fn transport_position_bad_number_is_parse_error() {
    assert!(matches!(parse_transport_position("A\tB\tabc\t"), Err(ReaperError::Parse(_))));
    assert!(matches!(parse_transport_position("A\tB\t.\t"), Err(ReaperError::Parse(_))));
    assert!(matches!(parse_transport_position("A\tB\t-1\t"), Err(ReaperError::Parse(_))));
    assert!(matches!(
        parse_transport_position("A\tB\t99999999999999999999\t"),
        Err(ReaperError::Parse(_))
    ));
}

#[test]
fn root_prefix_is_stripped() {
    assert_eq!(strip_root("C:\\Music", "C:\\Music\\song1.rpp"), "song1.rpp");
    assert_eq!(strip_root("C:/Music/", "C:\\Music\\sub\\a.rpp"), "sub\\a.rpp");
    assert_eq!(strip_root("C:\\Music", "C:\\Musicals\\a.rpp"), "C:\\Musicals\\a.rpp");
    assert_eq!(strip_root("", "a.rpp"), "a.rpp");
}

#[test]
fn project_list_edges() {
    assert_eq!(read_project_list(Some(String::new()), "C:\\Music").unwrap(), Vec::<String>::new());
    assert!(matches!(
        read_project_list(Some("ERROR: no folder".to_string()), "C:\\Music"),
        Err(ReaperError::Command(m)) if m == "ERROR: no folder"
    ));
    assert!(matches!(read_project_list(Some("ERROR".to_string()), "x"), Err(ReaperError::Command(_))));
    assert!(matches!(read_project_list(None, "x"), Err(ReaperError::Command(_))));
}

#[test]
fn project_list_entries() {
    let l = read_project_list(
        Some("C:\\Music\\song1.rpp, C:\\Music\\b\\song2.rpp,other.rpp".to_string()),
        "C:\\Music",
    )
    .unwrap();
    assert_eq!(l, vec!["song1.rpp", "b\\song2.rpp", "other.rpp"]);
}

#[test]
fn project_list_entries_trim_unicode_space() {
    let l = read_project_list(Some("\u{c}x,\u{a0}y\u{3000}".to_string()), "C:\\Music").unwrap();
    assert_eq!(l, vec!["x", "y"]);
}

#[test]
fn list_projects_in_root_workflow() {
    let s = settings();
    let x = ReaperClient::new(&s).list_projects_in_root().unwrap();
    let (sent, done) = drive(
        &x,
        vec![ok(""), ok(""), ok("EXTSTATE\tWebAppControl\tproject_file_list\tC:\\Music\\a.rpp\n")],
    );
    assert_eq!(sent.len(), 3);
    assert!(sent[0].starts_with("http://localhost:8080/_/SET/EXTSTATE/WebAppControl/project_root_folder/"));
    assert_eq!(sent[1], "http://localhost:8080/_/_RS456");
    assert!(matches!(done, Step::Finish(Ok(Output::Projects(l))) if l == vec!["a.rpp"]));
    let (sent, done) = drive(&x, vec![Reply::Answered { status: 500, body: String::new() }]);
    assert_eq!(sent.len(), 1);
    assert!(matches!(done, Step::Finish(Err(ReaperError::Command(_)))));
}

#[test]
fn list_projects_workflow() {
    let s = settings();
    let c = ReaperClient::new(&s);
    let x = c.list_projects().unwrap();
    let (sent, done) = drive(
        &x,
        vec![ok(""), ok("EXTSTATE\tWebAppControl\tproject_file_list\tC:\\Music\\song1.rpp\n")],
    );
    assert_eq!(sent[0], "http://localhost:8080/_/_RS456");
    assert_eq!(
        sent[1],
        "http://localhost:8080/_/GET/EXTSTATE/WebAppControl/project_file_list"
    );
    match done {
        Step::Finish(Ok(Output::Projects(l))) => assert_eq!(l, vec!["song1.rpp"]),
        _ => panic!("expected a project list"),
    }
}

#[test]
fn list_projects_empty_value() {
    let s = settings();
    let x = ReaperClient::new(&s).list_projects().unwrap();
    let (_, done) = drive(&x, vec![ok(""), ok("VALUE\n")]);
    assert!(matches!(done, Step::Finish(Ok(Output::Projects(l))) if l.is_empty()));
}

#[test]
fn list_projects_script_error() {
    let s = settings();
    let x = ReaperClient::new(&s).list_projects().unwrap();
    let (_, done) =
        drive(&x, vec![ok(""), ok("EXTSTATE\tWebAppControl\tproject_file_list\tERROR: denied\n")]);
    assert!(matches!(done, Step::Finish(Err(ReaperError::Command(_)))));
}

#[test]
fn list_projects_needs_action_id() {
    let mut s = settings();
    s.list_projects_script_action_id = None;
    assert!(matches!(ReaperClient::new(&s).list_projects(), Err(ReaperError::Config(_))));
}

#[test]
fn failed_status_stops_workflow() {
    let s = settings();
    let x = ReaperClient::new(&s).load_project_by_path("a.rpp").unwrap();
    let (sent, done) =
        drive(&x, vec![Reply::Answered { status: 404, body: String::new() }]);
    assert_eq!(sent.len(), 1);
    assert!(matches!(
        done,
        Step::Finish(Err(ReaperError::Command(m)))
            if m == "Setting ExtState WebAppControl/project_root_folder failed with status: 404"
    ));
}

#[test]
fn unreachable_is_http_error() {
    let s = settings();
    let x = ReaperClient::new(&s).go_to_start();
    let (sent, done) = drive(&x, vec![Reply::Unreachable("refused".to_string())]);
    assert_eq!(sent, vec!["http://localhost:8080/_/40042"]);
    assert!(matches!(done, Step::Finish(Err(ReaperError::Http(m))) if m == "refused"));
}

#[test]
fn load_project_workflow() {
    let s = settings();
    let x = ReaperClient::new(&s).load_project_by_path("song one.rpp").unwrap();
    let (sent, done) = drive(&x, vec![ok(""), ok(""), ok("")]);
    assert_eq!(sent.len(), 3);
    assert!(sent[0].starts_with("http://localhost:8080/_/SET/EXTSTATE/WebAppControl/project_root_folder/"));
    assert_eq!(
        sent[1],
        "http://localhost:8080/_/SET/EXTSTATE/WebAppControl/temp_load_project_path/song%20one.rpp"
    );
    assert_eq!(sent[2], "http://localhost:8080/_/_RS123");
    assert!(matches!(done, Step::Finish(Ok(Output::Done))));
}

#[test]
fn invalid_base_url_is_command_error() {
    let mut s = settings();
    s.reaper_url = "not a url".to_string();
    let x = ReaperClient::new(&s).set_project_root("x");
    let (sent, done) = drive(&x, vec![]);
    assert!(sent.is_empty());
    assert!(matches!(done, Step::Finish(Err(ReaperError::Command(_)))));
}

#[test]
fn empty_base_url_is_config_error() {
    let mut s = settings();
    s.reaper_url = String::new();
    let c = ReaperClient::new(&s);
    for x in [c.set_project_root("x"), c.go_to_end(), c.get_duration(), c.test_connectivity()] {
        let (sent, done) = drive(&x, vec![]);
        assert!(sent.is_empty());
        assert!(matches!(done, Step::Finish(Err(ReaperError::Config(_)))));
    }
    let check = c.check_load_project_script("N".to_string()).unwrap();
    let (sent, done) = drive_check(&check, vec![]);
    assert!(sent.is_empty());
    assert!(matches!(done, Step::Finish(Err(ReaperError::Config(_)))));
}

#[test]
fn get_duration_workflow() {
    let s = settings();
    let x = ReaperClient::new(&s).get_duration();
    let (sent, done) = drive(&x, vec![ok(""), ok("0\t0\t12.5\t0\t0\n")]);
    assert_eq!(sent, vec!["http://localhost:8080/_/40043", "http://localhost:8080/_/TRANSPORT"]);
    match done {
        Step::Finish(Ok(Output::Position(t))) => assert_eq!((t.secs, t.nanos), (12, 500_000_000)),
        _ => panic!("expected a position"),
    }
}

#[test]
fn get_duration_short_line() {
    let s = settings();
    let x = ReaperClient::new(&s).get_duration();
    let (_, done) = drive(&x, vec![ok(""), ok("0\t0")]);
    assert!(matches!(done, Step::Finish(Err(ReaperError::Parse(_)))));
}

#[test]
fn connectivity_gives_raw_status() {
    let s = settings();
    let x = ReaperClient::new(&s).test_connectivity();
    let (sent, done) = drive(&x, vec![Reply::Answered { status: 401, body: String::new() }]);
    assert_eq!(sent, vec!["http://localhost:8080/_/TRANSPORT"]);
    assert!(matches!(done, Step::Finish(Ok(Output::Status(401)))));
}

#[test]
fn get_ext_state_workflow() {
    let s = settings();
    let x = ReaperClient::new(&s).get_last_load_result();
    let (_, done) = drive(&x, vec![ok("EXTSTATE\tWebAppControl\tlast_load_result\tOK\n")]);
    assert!(matches!(done, Step::Finish(Ok(Output::Value(Some(v)))) if v == "OK"));
}

fn nonce_replies(out_body: &str) -> Vec<Reply> {
    vec![ok(""), ok(""), ok(""), ok(""), ok(""), ok(out_body), ok(""), ok(""), ok("")]
}

#[test]
fn nonce_check_passes() {
    let s = settings();
    let c = ReaperClient::new(&s).check_load_project_script("N1".to_string()).unwrap();
    let (sent, done) =
        drive_check(&c, nonce_replies("EXTSTATE\tWebAppControl\ttest_nonce_out\tN1_modified\n"));
    assert_eq!(sent.len(), 9);
    assert_eq!(sent[0], "http://localhost:8080/_/SET/EXTSTATE/WebAppControl/test_nonce_in/N1");
    assert_eq!(sent[1], "http://localhost:8080/_/SET/EXTSTATE/WebAppControl/dummy_mode/true");
    assert_eq!(sent[5], "http://localhost:8080/_/GET/EXTSTATE/WebAppControl/test_nonce_out");
    assert_eq!(sent[6], "http://localhost:8080/_/SET/EXTSTATE/WebAppControl/dummy_mode/false");
    assert!(matches!(done, Step::Finish(Ok(Output::Done))));
}

#[test]
fn nonce_check_mismatch() {
    let s = settings();
    let c = ReaperClient::new(&s).check_load_project_script("N1".to_string()).unwrap();
    let (_, done) =
        drive_check(&c, nonce_replies("EXTSTATE\tWebAppControl\ttest_nonce_out\tN1\n"));
    assert!(matches!(done, Step::Finish(Err(ReaperError::NonceMismatch))));
    let (_, done) = drive_check(&c, nonce_replies(""));
    assert!(matches!(done, Step::Finish(Err(ReaperError::NonceMismatch))));
}

#[test]
fn nonce_check_dummy_failure_cleans_up() {
    let s = settings();
    let c = ReaperClient::new(&s).check_list_projects_script("N2".to_string()).unwrap();
    let (sent, done) = drive_check(
        &c,
        vec![ok(""), Reply::Answered { status: 500, body: String::new() }, ok("")],
    );
    assert_eq!(sent.len(), 3);
    assert_eq!(sent[2], "http://localhost:8080/_/SET/EXTSTATE/WebAppControl/test_nonce_in/");
    assert!(matches!(done, Step::Finish(Err(ReaperError::Command(_)))));
}

#[test]
fn nonce_check_workflow_failure_still_resets() {
    let s = settings();
    let c = ReaperClient::new(&s).check_load_project_script("N3".to_string()).unwrap();
    let (sent, done) = drive_check(
        &c,
        vec![
            ok(""),
            ok(""),
            Reply::Unreachable("gone".to_string()),
            ok("EXTSTATE\tWebAppControl\ttest_nonce_out\tN3_modified\n"),
            ok(""),
            Reply::Unreachable("gone".to_string()),
            ok(""),
        ],
    );
    assert_eq!(sent.len(), 7);
    assert!(matches!(done, Step::Finish(Err(ReaperError::Http(_)))));
}

#[test]
fn decide_nonce_values() {
    let ok_run: Result<Output, ReaperError> = Ok(Output::Done);
    assert!(matches!(
        decide_nonce(Ok(Output::Done), Ok(CallValue::Stored(Some("abc_modified".to_string()))), "abc"),
        Ok(Output::Done)
    ));
    assert!(matches!(
        decide_nonce(ok_run, Ok(CallValue::Stored(None)), "abc"),
        Err(ReaperError::NonceMismatch)
    ));
    assert!(matches!(
        decide_nonce(Err(ReaperError::Parse("p".to_string())), Ok(CallValue::Stored(None)), "abc"),
        Err(ReaperError::Parse(_))
    ));
}

#[test]
fn failed_command_names_code_and_status() {
    let s = settings();
    let x = ReaperClient::new(&s).new_tab();
    let (_, done) = drive(&x, vec![Reply::Answered { status: 503, body: String::new() }]);
    assert!(matches!(
        done,
        Step::Finish(Err(ReaperError::Command(m))) if m == "Command '40859' failed with status: 503"
    ));
}
