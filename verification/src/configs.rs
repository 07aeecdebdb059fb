//! Application configuration: platform client identity and paging limits.
//!
//! Loading these values from the process environment is the embedding
//! program's concern; this module only holds them and derives the
//! platform-mandated user-agent string from them.

use vstd::prelude::*;
use vstd::string::StringExecFns;

verus! {

/// Client identity and page size for the platform API.
#[derive(Debug, Clone)]
pub struct RedditConfig {
    pub client_id: String,
    pub client_secret: String,
    pub page_size: u32,
}

/// Full application configuration: platform settings plus the host and
/// application identifiers that make up the user-agent string.
#[derive(Debug, Clone)]
pub struct Config {
    pub reddit: RedditConfig,
    pub os_arch: String,
    pub os_name: String,
    pub app_version: String,
}

/// The fixed user-agent format:
/// `<arch>-<os>:upvoted_archiver:<version> (by /u/<username>)`.
pub open spec fn user_agent_spec(
    arch: Seq<char>,
    os: Seq<char>,
    version: Seq<char>,
    username: Seq<char>,
) -> Seq<char> {
    arch + "-"@ + os + ":upvoted_archiver:"@ + version + " (by /u/"@ + username + ")"@
}

impl Config {
    /// Renders the user-agent string for the given account name.
    pub fn user_agent(&self, reddit_username: &str) -> (r: String)
        ensures
            r@ == user_agent_spec(
                self.os_arch@,
                self.os_name@,
                self.app_version@,
                reddit_username@,
            ),
    {
        let mut s = self.os_arch.clone();
        s.append("-");
        s.append(self.os_name.as_str());
        s.append(":upvoted_archiver:");
        s.append(self.app_version.as_str());
        s.append(" (by /u/");
        s.append(reddit_username);
        s.append(")");
        proof {
            assert(s@ =~= user_agent_spec(
                self.os_arch@,
                self.os_name@,
                self.app_version@,
                reddit_username@,
            ));
        }
        s
    }
}

} // verus!
