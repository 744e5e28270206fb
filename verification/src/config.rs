//! The persisted configuration: environments, accounts and the active selection.

use vstd::prelude::*;

verus! {

/// An isolated Cursor environment that accounts belong to.
#[derive(Debug)]
pub struct Environment {
    pub id: String,
    pub name: String,
    pub created_at: String,
}

/// A saved account; its tokens live in a snapshot stored under `env_id`/`id`.
#[derive(Debug)]
pub struct Account {
    pub id: String,
    pub env_id: String,
    pub name: String,
    pub email: Option<String>,
    pub updated_at: String,
    pub pending_login: bool,
}

/// Which environment and account are in use.
#[derive(Debug)]
pub struct ActiveSelection {
    pub env_id: Option<String>,
    pub account_id: Option<String>,
}

/// The whole configuration file.
#[derive(Debug)]
pub struct AppConfig {
    pub environments: Vec<Environment>,
    pub accounts: Vec<Account>,
    pub active: ActiveSelection,
    pub cursor_app_path: String,
}

/// The text of an optional string.
pub open spec fn opt_view(o: Option<String>) -> Option<Seq<char>> {
    match o {
        Some(s) => Some(s@),
        None => None,
    }
}

/// A copy of an optional string.
pub fn clone_opt(o: &Option<String>) -> (r: Option<String>)
    ensures
        r == *o,
{
    match o {
        Some(s) => Some(s.clone()),
        None => None,
    }
}

impl Clone for Environment {
    fn clone(&self) -> (r: Self)
        ensures
            r == *self,
    {
        Environment { id: self.id.clone(), name: self.name.clone(), created_at: self.created_at.clone() }
    }
}

impl Clone for Account {
    fn clone(&self) -> (r: Self)
        ensures
            r == *self,
    {
        Account {
            id: self.id.clone(),
            env_id: self.env_id.clone(),
            name: self.name.clone(),
            email: clone_opt(&self.email),
            updated_at: self.updated_at.clone(),
            pending_login: self.pending_login,
        }
    }
}

impl Clone for ActiveSelection {
    fn clone(&self) -> (r: Self)
        ensures
            r == *self,
    {
        ActiveSelection { env_id: clone_opt(&self.env_id), account_id: clone_opt(&self.account_id) }
    }
}

impl Default for ActiveSelection {
    fn default() -> (r: Self)
        ensures
            r.env_id is None,
            r.account_id is None,
    {
        ActiveSelection { env_id: None, account_id: None }
    }
}

impl AppConfig {
    /// An empty configuration that launches Cursor from `cursor_app_path`.
    pub fn new(cursor_app_path: String) -> (r: AppConfig)
        ensures
            r.environments@.len() == 0,
            r.accounts@.len() == 0,
            r.active.env_id is None,
            r.active.account_id is None,
            r.cursor_app_path == cursor_app_path,
    {
        AppConfig {
            environments: Vec::new(),
            accounts: Vec::new(),
            active: ActiveSelection::default(),
            cursor_app_path,
        }
    }
}

} // verus!
