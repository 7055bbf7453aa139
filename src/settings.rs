use vstd::prelude::*;

verus! {

/// How to reach Reaper, where the projects live, and which scripts to run.
#[derive(Debug, Clone)]
pub struct Settings {
    /// The root folder of the project files.
    pub folder_path: String,
    /// Reaper's web control surface, e.g. `http://localhost:8080`.
    pub reaper_url: String,
    pub reaper_username: Option<String>,
    pub reaper_password: Option<String>,
    pub set_root_script_action_id: Option<String>,
    pub load_project_script_action_id: Option<String>,
    pub list_projects_script_action_id: Option<String>,
}

impl Default for Settings {
    fn default() -> (r: Settings)
        ensures
            r.folder_path@ == Seq::<char>::empty(),
            r.reaper_url@ == Seq::<char>::empty(),
            r.reaper_username is None,
            r.reaper_password is None,
            r.set_root_script_action_id is None,
            r.load_project_script_action_id is None,
            r.list_projects_script_action_id is None,
    {
        Settings {
            folder_path: String::new(),
            reaper_url: String::new(),
            reaper_username: None,
            reaper_password: None,
            set_root_script_action_id: None,
            load_project_script_action_id: None,
            list_projects_script_action_id: None,
        }
    }
}

/// `new` when it is set, else `old`.
pub open spec fn keep_unless_set(old: Option<String>, new: Option<String>) -> Option<String> {
    if new is Some {
        new
    } else {
        old
    }
}

fn pick(old: &Option<String>, new: Option<String>) -> (r: Option<String>)
    ensures
        r == keep_unless_set(*old, new),
{
    match new {
        Some(v) => Some(v),
        None => old.clone(),
    }
}

impl Settings {
    /// The settings after an update with `new`: every field comes from `new`,
    /// but an action id that `new` leaves unset keeps its current value.
    pub fn merged_update(&self, new: Settings) -> (r: Settings)
        ensures
            r.folder_path == new.folder_path,
            r.reaper_url == new.reaper_url,
            r.reaper_username == new.reaper_username,
            r.reaper_password == new.reaper_password,
            r.set_root_script_action_id == keep_unless_set(
                self.set_root_script_action_id,
                new.set_root_script_action_id,
            ),
            r.load_project_script_action_id == keep_unless_set(
                self.load_project_script_action_id,
                new.load_project_script_action_id,
            ),
            r.list_projects_script_action_id == keep_unless_set(
                self.list_projects_script_action_id,
                new.list_projects_script_action_id,
            ),
    {
        Settings {
            set_root_script_action_id: pick(
                &self.set_root_script_action_id,
                new.set_root_script_action_id,
            ),
            load_project_script_action_id: pick(
                &self.load_project_script_action_id,
                new.load_project_script_action_id,
            ),
            list_projects_script_action_id: pick(
                &self.list_projects_script_action_id,
                new.list_projects_script_action_id,
            ),
            folder_path: new.folder_path,
            reaper_url: new.reaper_url,
            reaper_username: new.reaper_username,
            reaper_password: new.reaper_password,
        }
    }

    /// These settings with the two script action ids replaced, set or not.
    pub fn with_action_ids(self, load_project: Option<String>, list_projects: Option<String>) -> (r:
        Settings)
        ensures
            r.load_project_script_action_id == load_project,
            r.list_projects_script_action_id == list_projects,
            r.folder_path == self.folder_path,
            r.reaper_url == self.reaper_url,
            r.reaper_username == self.reaper_username,
            r.reaper_password == self.reaper_password,
            r.set_root_script_action_id == self.set_root_script_action_id,
    {
        Settings {
            load_project_script_action_id: load_project,
            list_projects_script_action_id: list_projects,
            ..self
        }
    }

    /// The user name and password for basic authentication, when both are set.
    pub fn credentials(&self) -> (r: Option<(String, String)>)
        ensures
            match (self.reaper_username, self.reaper_password) {
                (Some(u), Some(p)) => r == Some((u, p)),
                _ => r is None,
            },
    {
        match (&self.reaper_username, &self.reaper_password) {
            (Some(u), Some(p)) => Some((u.clone(), p.clone())),
            _ => None,
        }
    }
}

} // verus!
