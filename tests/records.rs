use setlist_backend::api::{connection_test_status, reaper_error_message, reaper_error_status, store_error_status};
use setlist_backend::models::fresh_id;
use setlist_backend::store::{Database, StoreError};
use setlist_backend::text::{decimal_text, split_text, text_eq, trim_text};
use setlist_backend::{NewSetList, NewSong, ReaperError, SetList, Settings, Song, Timestamp};

fn song(id: &str, name: &str) -> Song {
    Song { id: id.to_string(), name: name.to_string(), length: 200, relative_path: "a.rpp".to_string() }
}

#[test]
fn song_round_trip() {
    let mut db: Database<Song> = Database::new();
    db.save(song("s1", "Intro"));
    let got = db.get_by_id("s1").unwrap();
    assert_eq!(got.id, "s1");
    assert_eq!(got.name, "Intro");
    assert_eq!(got.length, 200);
    assert_eq!(got.relative_path, "a.rpp");
    let r = got.clone();
    db.delete(&r);
    assert_eq!(db.get_by_id("s1").err(), Some(StoreError::NotFound));
}

#[test]
fn save_overwrites_by_id() {
    let mut db: Database<Song> = Database::new();
    db.save(song("s1", "Old"));
    db.save(song("s2", "Other"));
    db.save(song("s1", "New"));
    assert_eq!(db.get_by_id("s1").unwrap().name, "New");
    assert_eq!(db.entries().len(), 2);
}

#[test]
fn delete_missing_is_noop() {
    let mut db: Database<Song> = Database::new();
    db.save(song("s1", "A"));
    db.delete(&song("zz", "B"));
    assert_eq!(db.entries().len(), 1);
    assert_eq!(db.get_by_id("s1").unwrap().name, "A");
}

#[test]
fn setlist_round_trip() {
    let mut db: Database<SetList> = Database::new();
    let s = SetList {
        id: "x".to_string(),
        venue: "Club".to_string(),
        date: Timestamp { secs: 1_700_000_000, nanos: 5 },
        songs: vec!["Intro".to_string(), "Outro".to_string()],
    };
    db.save(s);
    let got = db.get_by_id("x").unwrap();
    assert_eq!(got.venue, "Club");
    assert_eq!(got.date, Timestamp { secs: 1_700_000_000, nanos: 5 });
    assert_eq!(got.songs, vec!["Intro", "Outro"]);
    let g = got.clone();
    db.delete(&g);
    assert_eq!(db.get_by_id("x").err(), Some(StoreError::NotFound));
}

#[test]
fn concurrent_saves_can_lose_an_update() {
    // Two writers read the same stored mapping, each saves one song, the last write wins.
    let stored = vec![("s0".to_string(), song("s0", "Zero"))];
    let mut first = Database::from_entries(stored.clone());
    let mut second = Database::from_entries(stored);
    first.save(song("s1", "One"));
    second.save(song("s2", "Two"));
    let written_last = second;
    assert!(written_last.get_by_id("s2").is_ok());
    assert_eq!(written_last.get_by_id("s1").err(), Some(StoreError::NotFound));
    assert!(first.get_by_id("s1").is_ok());
}

#[test]
fn loaded_missing_file_is_empty() {
    let db: Database<Song> = Database::loaded(Err(StoreError::NotFound)).unwrap();
    assert!(db.entries().is_empty());
    let e = Database::<Song>::loaded(Err(StoreError::Parse("bad".to_string()))).err();
    assert_eq!(e, Some(StoreError::Parse("bad".to_string())));
}

#[test]
fn later_entry_wins() {
    let db = Database::from_entries(vec![
        ("k".to_string(), song("k", "first")),
        ("k".to_string(), song("k", "second")),
    ]);
    assert_eq!(db.get_by_id("k").unwrap().name, "second");
}

#[test]
fn new_song_gets_fresh_id() {
    let a = Song::from_new_song(NewSong { name: "A".to_string(), length: 3, relative_path: "a.rpp".to_string() });
    let b = Song::from_new_song(NewSong { name: "B".to_string(), length: 4, relative_path: "b.rpp".to_string() });
    assert_eq!(a.id.len(), 36);
    assert_ne!(a.id, b.id);
    assert_eq!(a.name, "A");
    assert_eq!(a.length, 3);
}

#[test]
fn new_setlist_gets_fresh_id() {
    let s = SetList::from_new_setlist(NewSetList {
        venue: "Hall".to_string(),
        date: Timestamp { secs: 0, nanos: 0 },
        songs: vec![],
    });
    assert_eq!(s.id.len(), 36);
    assert_eq!(fresh_id().len(), 36);
}

#[test]
fn error_statuses() {
    assert_eq!(reaper_error_status(&ReaperError::Http("x".to_string())), 500);
    assert_eq!(reaper_error_status(&ReaperError::Command("x".to_string())), 502);
    assert_eq!(reaper_error_status(&ReaperError::Parse("x".to_string())), 500);
    assert_eq!(reaper_error_status(&ReaperError::Config("x".to_string())), 412);
    assert_eq!(reaper_error_status(&ReaperError::NonceMismatch), 417);
    assert_eq!(store_error_status(&StoreError::NotFound), 404);
    assert_eq!(store_error_status(&StoreError::Io("disk".to_string())), 500);
    assert_eq!(
        reaper_error_message(&ReaperError::Command("boom".to_string())),
        "Reaper command error: boom"
    );
}

#[test]
fn connection_test_statuses() {
    assert_eq!(connection_test_status(&Ok(200)), 204);
    assert_eq!(connection_test_status(&Ok(401)), 401);
    assert_eq!(connection_test_status(&Ok(42)), 503);
    assert_eq!(connection_test_status(&Err(ReaperError::Http("down".to_string()))), 503);
}

fn full_settings() -> Settings {
    Settings {
        folder_path: "/music".to_string(),
        reaper_url: "http://r".to_string(),
        reaper_username: Some("u".to_string()),
        reaper_password: Some("p".to_string()),
        set_root_script_action_id: Some("1".to_string()),
        load_project_script_action_id: Some("2".to_string()),
        list_projects_script_action_id: Some("3".to_string()),
    }
}

#[test]
fn settings_update_keeps_unset_action_ids() {
    let old = full_settings();
    let mut new = Settings::default();
    new.reaper_url = "http://other".to_string();
    new.list_projects_script_action_id = Some("9".to_string());
    let m = old.merged_update(new);
    assert_eq!(m.reaper_url, "http://other");
    assert_eq!(m.folder_path, "");
    assert_eq!(m.reaper_username, None);
    assert_eq!(m.load_project_script_action_id, Some("2".to_string()));
    assert_eq!(m.list_projects_script_action_id, Some("9".to_string()));
    assert_eq!(m.set_root_script_action_id, Some("1".to_string()));
}

#[test]
fn settings_action_ids_replaced() {
    let s = full_settings().with_action_ids(None, Some("7".to_string()));
    assert_eq!(s.load_project_script_action_id, None);
    assert_eq!(s.list_projects_script_action_id, Some("7".to_string()));
    assert_eq!(s.folder_path, "/music");
}

#[test]
fn credentials_need_both() {
    assert_eq!(full_settings().credentials(), Some(("u".to_string(), "p".to_string())));
    let mut s = full_settings();
    s.reaper_password = None;
    assert_eq!(s.credentials(), None);
    let d = Settings::default();
    assert_eq!(d.reaper_url, "");
    assert_eq!(d.load_project_script_action_id, None);
}

#[test]
fn text_helpers() {
    assert_eq!(split_text("a,,b", ','), vec!["a", "", "b"]);
    assert_eq!(split_text("", ','), vec![""]);
    assert_eq!(trim_text("  x y \t\n"), "x y");
    assert!(text_eq("abc", "abc"));
    assert!(!text_eq("abc", "abd"));
}

#[test]
fn delete_by_id_reports_missing() {
    let mut db: Database<Song> = Database::new();
    db.save(song("s1", "A"));
    assert_eq!(db.delete_by_id("nope"), Err(StoreError::NotFound));
    assert_eq!(db.entries().len(), 1);
    assert_eq!(db.delete_by_id("s1"), Ok(()));
    assert_eq!(db.get_by_id("s1").err(), Some(StoreError::NotFound));
}

#[test]
fn decimal_digits() {
    assert_eq!(decimal_text(0), "0");
    assert_eq!(decimal_text(7), "7");
    assert_eq!(decimal_text(404), "404");
    assert_eq!(decimal_text(65535), "65535");
}
