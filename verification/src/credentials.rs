//! Account credentials for the platform API.
//!
//! Credential values must never be rendered in full in diagnostic output:
//! only a presence/absence indicator per field is ever shown, which the
//! contract of [`RedditCredentials::debug_string`] pins down exactly.

use vstd::prelude::*;
use vstd::string::StringExecFns;

use crate::configs::Config;
use crate::configs::user_agent_spec;

verus! {

/// Username and password for the platform account. Immutable once
/// constructed.
#[derive(Clone)]
pub struct RedditCredentials {
    pub username: String,
    pub password: String,
}

/// The indicator shown for one credential field in diagnostic output:
/// `[MISSING]` when the field is empty, `[omitted]` otherwise. The actual
/// value never appears.
pub open spec fn field_marker_spec(missing: bool) -> Seq<char> {
    if missing {
        "[MISSING]"@
    } else {
        "[omitted]"@
    }
}

/// The full diagnostic rendering of a credentials value. It is a function
/// of the two emptiness flags alone, so no credential value can leak
/// through it.
pub open spec fn credentials_debug_spec(username_missing: bool, password_missing: bool) -> Seq<
    char,
> {
    "RedditCredentials { username: \""@ + field_marker_spec(username_missing)
        + "\", password: \""@ + field_marker_spec(password_missing) + "\" }"@
}

impl RedditCredentials {
    /// Builds a credentials value from borrowed strings.
    pub fn new(username: &str, password: &str) -> (r: Self)
        ensures
            r.username@ == username@,
            r.password@ == password@,
    {
        Self { username: username.to_owned(), password: password.to_owned() }
    }

    /// Renders the user-agent string for this account under the given
    /// configuration.
    pub fn user_agent(&self, config: &Config) -> (r: String)
        ensures
            r@ == user_agent_spec(
                config.os_arch@,
                config.os_name@,
                config.app_version@,
                self.username@,
            ),
    {
        config.user_agent(self.username.as_str())
    }

    /// Diagnostic rendering: shows only whether each field is present.
    /// The result depends on nothing but the emptiness of the two fields,
    /// so neither the username nor the password can appear in it.
    pub fn debug_string(&self) -> (r: String)
        ensures
            r@ == credentials_debug_spec(self.username@.len() == 0, self.password@.len() == 0),
    {
        let mut s = "RedditCredentials { username: \"".to_owned();
        s.append(
            if self.username.as_str().is_empty() {
                "[MISSING]"
            } else {
                "[omitted]"
            },
        );
        s.append("\", password: \"");
        s.append(
            if self.password.as_str().is_empty() {
                "[MISSING]"
            } else {
                "[omitted]"
            },
        );
        s.append("\" }");
        proof {
            assert(s@ =~= credentials_debug_spec(
                self.username@.len() == 0,
                self.password@.len() == 0,
            ));
        }
        s
    }
}

} // verus!
