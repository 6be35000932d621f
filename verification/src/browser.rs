//! The closed set of supported browsers: each carries the substring that
//! identifies it in a foreground-application name and the bridge script that
//! asks it for the URL of the active tab of its front window.

use vstd::prelude::*;
use crate::text::contains_seq;
use crate::text::contains_substr;

verus! {

/// A supported browser.
#[derive(Clone, Copy, Debug, PartialEq, Eq, Structural)]
pub enum Browser {
    Safari,
    Chrome,
}

impl Browser {
    /// The substring of a foreground-application name that identifies this
    /// browser. Substring (not exact) matching is deliberate: process names
    /// may carry version or channel suffixes.
    pub open spec fn marker_seq(self) -> Seq<char> {
        match self {
            Browser::Safari => "Safari"@,
            Browser::Chrome => "Chrome"@,
        }
    }

    /// The identifying substring of this browser.
    pub fn marker(self) -> (r: &'static str)
        ensures
            r@ == self.marker_seq(),
    {
        match self {
            Browser::Safari => "Safari",
            Browser::Chrome => "Chrome",
        }
    }

    /// `app_name` identifies this browser.
    pub open spec fn matches_name(self, app_name: Seq<char>) -> bool {
        contains_seq(app_name, self.marker_seq())
    }

    /// The script sent to the bridge to read this browser's active-tab URL,
    /// guarded on the browser having at least one open window.
    pub open spec fn script_seq(self) -> Seq<char> {
        match self {
            Browser::Safari => r#"
        tell application "Safari"
            if (count of windows) > 0 then
                return URL of current tab of front window
            end if
        end tell
    "#@,
            Browser::Chrome => r#"
        tell application "Google Chrome"
            if (count of windows) > 0 then
                return URL of active tab of front window
            end if
        end tell
    "#@,
        }
    }

    /// The script text for this browser's URL query.
    pub fn script(self) -> (r: &'static str)
        ensures
            r@ == self.script_seq(),
    {
        match self {
            Browser::Safari => r#"
        tell application "Safari"
            if (count of windows) > 0 then
                return URL of current tab of front window
            end if
        end tell
    "#,
            Browser::Chrome => r#"
        tell application "Google Chrome"
            if (count of windows) > 0 then
                return URL of active tab of front window
            end if
        end tell
    "#,
        }
    }
}

/// Which supported browser, if any, a foreground-application name
/// identifies. A name that identifies several is resolved in favour of the
/// first in the dispatch order, Safari before Chrome.
pub open spec fn detect_spec(app_name: Seq<char>) -> Option<Browser> {
    if Browser::Safari.matches_name(app_name) {
        Some(Browser::Safari)
    } else if Browser::Chrome.matches_name(app_name) {
        Some(Browser::Chrome)
    } else {
        None
    }
}

/// Decides which supported browser, if any, `app_name` identifies.
pub fn detect_browser(app_name: &str) -> (r: Option<Browser>)
    ensures
        r == detect_spec(app_name@),
{
    if contains_substr(app_name, Browser::Safari.marker()) {
        Some(Browser::Safari)
    } else if contains_substr(app_name, Browser::Chrome.marker()) {
        Some(Browser::Chrome)
    } else {
        None
    }
}

} // verus!
