//! Interpretation of automation-bridge queries. A query runs a script through
//! the platform's scripting interpreter; the platform layer hands back the
//! subprocess's exit status and its standard output decoded as text. The
//! functions here turn such an outcome into the field value it stands for.

use vstd::prelude::*;
use crate::text::trim_seq;
use crate::text::trim_ws;

verus! {

/// What one automation-bridge query came back with: whether the subprocess
/// exited successfully, and its standard output decoded as text (`None` when
/// the bytes were not valid text).
pub struct BridgeOutcome {
    pub exit_success: bool,
    pub stdout: Option<String>,
}

impl BridgeOutcome {
    /// The output text as a sequence of characters, if it was readable.
    pub open spec fn stdout_seq(self) -> Option<Seq<char>> {
        match self.stdout {
            Some(s) => Some(s@),
            None => None,
        }
    }
}

/// The fallback name reported when the foreground application cannot be
/// determined.
pub open spec fn unknown_app() -> Seq<char> {
    "Unknown"@
}

/// The foreground-application name that a bridge outcome yields: the trimmed
/// output when the query succeeded with readable, nonempty output; the
/// fallback name otherwise.
pub open spec fn app_name_of(success: bool, out: Option<Seq<char>>) -> Seq<char> {
    match out {
        Some(s) => if success && trim_seq(s).len() > 0 {
            trim_seq(s)
        } else {
            unknown_app()
        },
        None => unknown_app(),
    }
}

/// The active-tab URL that a bridge outcome yields: the trimmed output when
/// the query succeeded with readable output that is nonempty after trimming;
/// absent otherwise. An all-whitespace output counts as no URL, not as an
/// empty one.
pub open spec fn url_of(success: bool, out: Option<Seq<char>>) -> Option<Seq<char>> {
    match out {
        Some(s) => if success && trim_seq(s).len() > 0 {
            Some(trim_seq(s))
        } else {
            None
        },
        None => None,
    }
}

/// The script sent to the bridge to name the frontmost application process.
pub open spec fn foreground_script_seq() -> Seq<char> {
    r#"
        tell application "System Events"
            set frontApp to name of first application process whose frontmost is true
            return frontApp
        end tell
    "#@
}

/// The script text for the foreground-application query.
pub fn foreground_script() -> (r: &'static str)
    ensures
        r@ == foreground_script_seq(),
{
    r#"
        tell application "System Events"
            set frontApp to name of first application process whose frontmost is true
            return frontApp
        end tell
    "#
}

/// Turns the foreground-application query's outcome into the `app_name`
/// field value.
pub fn app_name_field(o: &BridgeOutcome) -> (r: String)
    ensures
        r@ == app_name_of(o.exit_success, o.stdout_seq()),
{
    match &o.stdout {
        Some(s) => {
            if o.exit_success {
                let t = trim_ws(s.as_str());
                if t.as_str().unicode_len() > 0 {
                    t
                } else {
                    String::from_str("Unknown")
                }
            } else {
                String::from_str("Unknown")
            }
        },
        None => String::from_str("Unknown"),
    }
}

/// Turns a browser URL query's outcome into the `url` field value.
pub fn url_field(o: &BridgeOutcome) -> (r: Option<String>)
    ensures
        match url_of(o.exit_success, o.stdout_seq()) {
            Some(u) => r matches Some(t) && t@ == u,
            None => r is None,
        },
{
    match &o.stdout {
        Some(s) => {
            if o.exit_success {
                let t = trim_ws(s.as_str());
                if t.as_str().unicode_len() > 0 {
                    Some(t)
                } else {
                    None
                }
            } else {
                None
            }
        },
        None => None,
    }
}

} // verus!
