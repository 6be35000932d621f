//! The context snapshot and its aggregator. One capture interprets three
//! observations — the clipboard read, the foreground-application query, and
//! (when that application is a supported browser) the browser's URL query —
//! and stamps the assembled record with the current UTC time.

use vstd::prelude::*;
use crate::bridge::BridgeOutcome;
use crate::bridge::app_name_field;
use crate::bridge::app_name_of;
use crate::bridge::url_field;
use crate::bridge::url_of;
use crate::browser::detect_browser;
use crate::browser::detect_spec;
use crate::text::contains_seq;
use crate::text::trim_seq;

verus! {

/// One snapshot of the desktop context. `clipboard` and `app_name` are always
/// present, if need be as the empty string or the fallback name; `url` is
/// present exactly when the foreground application was a supported browser
/// and its query returned a nonempty URL.
pub struct Context {
    pub clipboard: String,
    pub app_name: String,
    pub url: Option<String>,
    pub timestamp: String,
}

/// The characters of an optional text value.
pub open spec fn opt_seq(o: Option<String>) -> Option<Seq<char>> {
    match o {
        Some(s) => Some(s@),
        None => None,
    }
}

/// The `clipboard` field value that a clipboard read yields: the text that
/// was read, or the empty string when the clipboard was unreadable or held no
/// text.
pub open spec fn clipboard_of(read: Option<Seq<char>>) -> Seq<char> {
    match read {
        Some(t) => t,
        None => Seq::empty(),
    }
}

/// The `url` field value, given the foreground-application name and the URL
/// query's outcome (absent when no query was run): a name that identifies no
/// supported browser yields no URL, whatever outcome was handed in.
pub open spec fn url_result(app_name: Seq<char>, url_query: Option<BridgeOutcome>) -> Option<
    Seq<char>,
> {
    match detect_spec(app_name) {
        Some(_) => match url_query {
            Some(o) => url_of(o.exit_success, o.stdout_seq()),
            None => None,
        },
        None => None,
    }
}

/// Relies on chrono's `DateTime::<Utc>::to_rfc3339` over `Utc::now`: the
/// current UTC time printed in RFC 3339 form, which is never the empty
/// string.
#[verifier::external_body]
fn now_rfc3339() -> (r: String)
    ensures
        r@.len() > 0,
{
    chrono::Utc::now().to_rfc3339()
}

/// Turns the clipboard read into the `clipboard` field value.
pub fn clipboard_field(read: Option<String>) -> (r: String)
    ensures
        r@ == clipboard_of(opt_seq(read)),
{
    match read {
        Some(t) => t,
        None => String::new(),
    }
}

/// Assembles a snapshot from the three observations and the given timestamp.
pub fn assemble_at(
    clipboard_read: Option<String>,
    app_query: BridgeOutcome,
    url_query: Option<BridgeOutcome>,
    timestamp: String,
) -> (c: Context)
    ensures
        c.clipboard@ == clipboard_of(opt_seq(clipboard_read)),
        c.app_name@ == app_name_of(app_query.exit_success, app_query.stdout_seq()),
        opt_seq(c.url) == url_result(
            app_name_of(app_query.exit_success, app_query.stdout_seq()),
            url_query,
        ),
        c.timestamp@ == timestamp@,
{
    let clipboard = clipboard_field(clipboard_read);
    let app_name = app_name_field(&app_query);
    let url = match detect_browser(app_name.as_str()) {
        Some(_) => match url_query {
            Some(o) => url_field(&o),
            None => None,
        },
        None => None,
    };
    Context { clipboard, app_name, url, timestamp }
}

/// One capture: assembles the snapshot and stamps it with the current UTC
/// time in RFC 3339 form. The three observations already degrade to safe
/// defaults, so a capture always yields a full record.
pub fn capture(
    clipboard_read: Option<String>,
    app_query: BridgeOutcome,
    url_query: Option<BridgeOutcome>,
) -> (c: Context)
    ensures
        c.clipboard@ == clipboard_of(opt_seq(clipboard_read)),
        c.app_name@ == app_name_of(app_query.exit_success, app_query.stdout_seq()),
        opt_seq(c.url) == url_result(
            app_name_of(app_query.exit_success, app_query.stdout_seq()),
            url_query,
        ),
        c.timestamp@.len() > 0,
{
    let timestamp = now_rfc3339();
    assemble_at(clipboard_read, app_query, url_query, timestamp)
}

/// The foreground-application name of a snapshot is never the empty string:
/// it is either the trimmed, nonempty bridge output or the fallback name.
pub proof fn lemma_app_name_nonempty(success: bool, out: Option<Seq<char>>)
    ensures
        app_name_of(success, out).len() > 0,
{
    reveal_strlit("Unknown");
}

/// The URL query was run, succeeded, and its output is nonempty after
/// trimming.
pub open spec fn url_query_yields(url_query: Option<BridgeOutcome>) -> bool {
    match url_query {
        Some(o) => o.exit_success && match o.stdout_seq() {
            Some(s) => trim_seq(s).len() > 0,
            None => false,
        },
        None => false,
    }
}

/// A snapshot's URL is present exactly when the foreground-application name
/// identifies a supported browser and that browser's query succeeded with
/// output that is nonempty after trimming.
pub proof fn lemma_url_presence(app_name: Seq<char>, url_query: Option<BridgeOutcome>)
    ensures
        url_result(app_name, url_query) is Some <==> (detect_spec(app_name) is Some
            && url_query_yields(url_query)),
{
}

/// A foreground-application name that contains no supported browser's
/// identifying substring yields no URL, whatever the URL query came back
/// with.
pub proof fn lemma_non_browser_no_url(app_name: Seq<char>, url_query: Option<BridgeOutcome>)
    requires
        !contains_seq(app_name, "Safari"@),
        !contains_seq(app_name, "Chrome"@),
    ensures
        url_result(app_name, url_query) is None,
{
}

/// A URL query whose output is empty after trimming — a browser that
/// reported zero open windows, or nothing readable — yields no URL, whatever
/// the application name and the exit status.
pub proof fn lemma_empty_url_output_no_url(app_name: Seq<char>, o: BridgeOutcome)
    requires
        o.stdout_seq() matches Some(s) ==> trim_seq(s).len() == 0,
    ensures
        url_result(app_name, Some(o)) is None,
{
}

/// Two snapshots assembled from identical clipboard and foreground
/// observations agree on `clipboard` and `app_name`; only the URL may
/// legitimately differ, when the active tab changed between the captures.
pub proof fn lemma_repeat_capture_stable(
    c1: Context,
    c2: Context,
    clipboard_read: Option<String>,
    app_query: BridgeOutcome,
)
    requires
        c1.clipboard@ == clipboard_of(opt_seq(clipboard_read)),
        c1.app_name@ == app_name_of(app_query.exit_success, app_query.stdout_seq()),
        c2.clipboard@ == clipboard_of(opt_seq(clipboard_read)),
        c2.app_name@ == app_name_of(app_query.exit_success, app_query.stdout_seq()),
    ensures
        c1.clipboard@ == c2.clipboard@,
        c1.app_name@ == c2.app_name@,
{
}

} // verus!
