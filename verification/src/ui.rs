//! The browser view of the log: a fixed HTML template with the log text,
//! verbatim, inside its single `<pre>` element.

use vstd::prelude::*;
use crate::log::log_text;
use crate::log::RequestLog;

verus! {

/// Everything of the page that stands before the log text.
pub const UI_PREFIX: &'static str = r#"<!DOCTYPE html>
<html>
<head>
<title>Mock Service Request Log</title>
<style>
body { font-family: Arial, sans-serif; margin: 20px; }
pre { background-color: #f5f5f5; padding: 15px; border: 1px solid #ddd; white-space: pre-wrap; word-wrap: break-word; }
</style>
</head>
<body>
<h1>Mock Service Request Log</h1>
<p>This page displays all requests received by the mock service.</p>
<p><a href="/download">Download Request Log</a> <a href="/ui">Refresh</a></p>
<h2>Current Request Log:</h2>
<pre>"#;

/// Everything of the page that stands after the log text.
pub const UI_SUFFIX: &'static str = r#"</pre>
</body>
</html>
"#;

/// The full page for a given log state: the template, with the text of the
/// whole log between `<pre>` and `</pre>` and nothing else there.
pub open spec fn ui_page_text(records: Seq<Seq<char>>) -> Seq<char> {
    UI_PREFIX@ + log_text(records) + UI_SUFFIX@
}

/// Renders the current log as the HTML page of the browser UI.
pub fn render_ui(log: &RequestLog) -> (r: String)
    ensures
        r@ == ui_page_text(log@),
{
    let mut r = String::from_str(UI_PREFIX);
    let body = log.render_api();
    r.append(body.as_str());
    r.append(UI_SUFFIX);
    r
}

} // verus!
