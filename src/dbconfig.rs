use vstd::prelude::*;

use crate::row::same_text;
use crate::text::{split_on, split_text, trim, trimmed};
use crate::views::views_of;

verus! {

/// The settings that a connection string gives; a setting it does not
/// name is `None`.
#[derive(Debug)]
pub struct ConnectionSettings {
    pub host: Option<String>,
    pub database: Option<String>,
    pub user: Option<String>,
    pub password: Option<String>,
}

pub struct ConnectionSettingsView {
    pub host: Option<Seq<char>>,
    pub database: Option<Seq<char>>,
    pub user: Option<Seq<char>>,
    pub password: Option<Seq<char>>,
}

pub open spec fn text_view(o: Option<String>) -> Option<Seq<char>> {
    match o {
        Some(s) => Some(s@),
        None => None,
    }
}

impl View for ConnectionSettings {
    type V = ConnectionSettingsView;

    open spec fn view(&self) -> ConnectionSettingsView {
        ConnectionSettingsView {
            host: text_view(self.host),
            database: text_view(self.database),
            user: text_view(self.user),
            password: text_view(self.password),
        }
    }
}

/// How to sign in to the database.
#[derive(Debug)]
pub enum Authentication {
    /// A database login.
    SqlServer { user: String, password: String },
    /// The identity of the running process.
    Integrated,
}

/// The key and value of one `key=value` segment, trimmed; text after a
/// second `=` is dropped. A segment without `=` sets nothing.
pub open spec fn setting_of(segment: Seq<char>) -> Option<(Seq<char>, Seq<char>)> {
    let parts = split_on(segment, '=');
    if parts.len() >= 2 {
        Some((trimmed(parts[0]), trimmed(parts[1])))
    } else {
        None
    }
}

/// Settings after one `key=value`; unknown keys change nothing.
pub open spec fn apply_setting(c: ConnectionSettingsView, key: Seq<char>, value: Seq<char>) -> ConnectionSettingsView {
    if key == "Data Source"@ {
        ConnectionSettingsView { host: Some(value), ..c }
    } else if key == "Initial Catalog"@ {
        ConnectionSettingsView { database: Some(value), ..c }
    } else if key == "User ID"@ {
        ConnectionSettingsView { user: Some(value), ..c }
    } else if key == "Password"@ {
        ConnectionSettingsView { password: Some(value), ..c }
    } else {
        c
    }
}

/// Settings of `;`-separated segments, applied in order: a later segment
/// wins over an earlier one of the same key.
pub open spec fn settings_of_segments(segments: Seq<Seq<char>>) -> ConnectionSettingsView
    decreases segments.len(),
{
    if segments.len() == 0 {
        ConnectionSettingsView { host: None, database: None, user: None, password: None }
    } else {
        let c = settings_of_segments(segments.drop_last());
        match setting_of(segments.last()) {
            Some((key, value)) => apply_setting(c, key, value),
            None => c,
        }
    }
}

pub open spec fn settings_of(connection: Seq<char>) -> ConnectionSettingsView {
    settings_of_segments(split_on(connection, ';'))
}

/// Reads a connection string of `key=value` segments separated by `;`.
pub fn get_database_config(connection: &str) -> (r: ConnectionSettings)
    ensures
        r@ == settings_of(connection@),
{
    let segments = split_text(connection, ';');
    let ghost segs = views_of(segments@);
    let mut settings = ConnectionSettings { host: None, database: None, user: None, password: None };
    let mut i: usize = 0;
    assert(segs.subrange(0, 0) =~= Seq::<Seq<char>>::empty());
    while i < segments.len()
        invariant
            segs == views_of(segments@),
            segs == split_on(connection@, ';'),
            i <= segments@.len(),
            settings@ == settings_of_segments(segs.subrange(0, i as int)),
        decreases segments@.len() - i,
    {
        let ghost prefix = segs.subrange(0, i as int + 1);
        assert(prefix.drop_last() =~= segs.subrange(0, i as int));
        assert(prefix.last() == segments@[i as int]@);
        let parts = split_text(segments[i].as_str(), '=');
        if parts.len() >= 2 {
            assert(views_of(parts@)[0] == parts@[0]@);
            assert(views_of(parts@)[1] == parts@[1]@);
            let key = trim(parts[0].as_str());
            let value = trim(parts[1].as_str());
            if same_text(key.as_str(), "Data Source") {
                settings.host = Some(value);
            } else if same_text(key.as_str(), "Initial Catalog") {
                settings.database = Some(value);
            } else if same_text(key.as_str(), "User ID") {
                settings.user = Some(value);
            } else if same_text(key.as_str(), "Password") {
                settings.password = Some(value);
            }
        }
        i += 1;
    }
    assert(segs.subrange(0, i as int) =~= segs);
    settings
}

impl ConnectionSettings {
    /// A database login where both user and password are given, the
    /// process identity otherwise.
    pub fn authentication(&self) -> (r: Authentication)
        ensures
            match (self.user, self.password) {
                (Some(u), Some(p)) => r matches Authentication::SqlServer { user, password }
                    && user@ == u@ && password@ == p@,
                _ => r is Integrated,
            },
    {
        match (&self.user, &self.password) {
            (Some(u), Some(p)) => Authentication::SqlServer { user: u.clone(), password: p.clone() },
            _ => Authentication::Integrated,
        }
    }
}

} // verus!
