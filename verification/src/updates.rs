//! Updates: the version-history window shown once per version, and the
//! steps of checking for, confirming and installing an update.
use vstd::prelude::*;
use crate::text::{chars_of, concat_text, same_text, trim, trim_bounds};

verus! {

/// The version history shown once after each new version.
pub const VERSION_HISTORY_HTML: &'static str = r##"<!doctype html>
<html lang="en">
<head>
  <meta charset="utf-8">
  <meta name="viewport" content="width=device-width, initial-scale=1">
  <title>Naphwiki Timeline version history</title>
  <style>
    :root { color-scheme: dark; font-family: "Segoe UI", sans-serif; }
    * { box-sizing: border-box; }
    html, body { min-height: 100%; margin: 0; background: #100d0a; color: #ded6ca; }
    body { overflow-y: auto; }
    header {
      position: sticky; top: 0; z-index: 2; padding: 22px 24px 18px;
      background: linear-gradient(180deg, rgba(34, 27, 20, 0.98), rgba(20, 16, 12, 0.96));
      border-bottom: 1px solid #5a4026; box-shadow: 0 8px 24px rgba(0, 0, 0, 0.28);
    }
    h1 { margin: 0; color: #f0a847; font-size: 1.4rem; }
    header p { margin: 7px 0 0; color: #a99f92; font-size: 0.86rem; }
    main { display: grid; gap: 14px; padding: 18px 24px 28px; }
    article {
      padding: 16px 18px; background: linear-gradient(180deg, #211a14, #17120e);
      border: 1px solid #46321f; border-radius: 8px; box-shadow: 0 8px 22px rgba(0, 0, 0, 0.2);
    }
    article.current { border-color: #b66c27; box-shadow: 0 0 0 1px rgba(240, 138, 44, 0.18); }
    h2 { display: flex; align-items: center; gap: 9px; margin: 0 0 10px; color: #f0bd72; font-size: 1.02rem; }
    .badge {
      padding: 3px 7px; border-radius: 999px; background: #7b351d; color: #ffd7aa;
      font-size: 0.65rem; font-weight: 700; letter-spacing: 0.04em; text-transform: uppercase;
    }
    ul { display: grid; gap: 7px; margin: 0; padding-left: 19px; }
    li { color: #c8c0b5; font-size: 0.86rem; line-height: 1.42; }
    ::-webkit-scrollbar { width: 10px; }
    ::-webkit-scrollbar-track { background: #100d0a; }
    ::-webkit-scrollbar-thumb { background: #694322; border: 2px solid #100d0a; border-radius: 999px; }
  </style>
</head>
<body>
  <header>
    <h1>Version history</h1>
    <p>Updates to Naphwiki Timeline, newest first.</p>
  </header>
  <main>
    <article class="current">
      <h2>Version 0.2.2 <span class="badge">Current</span></h2>
      <ul>
        <li>Allowed vertical timelines to shrink to a compact 20 px width.</li>
        <li>Added premium supporter and Close actions to the context menu.</li>
        <li>Improved compact vertical event labels and gradient direction.</li>
      </ul>
    </article>
    <article>
      <h2>Version 0.2.1</h2>
      <ul>
        <li>Restored the normal Windows shadow in transparent-surroundings mode.</li>
        <li>Replaced the single-version notification with this scrollable version history.</li>
      </ul>
    </article>
    <article>
      <h2>Version 0.2.0</h2>
      <ul>
        <li>Added premium appearance controls for bar opacity, vertical layout, default event colors, and edge-aligned current time.</li>
        <li>Added transparent surroundings and a switch for the Hot Purge animation.</li>
        <li>Made vertical events move upward, allowed 20 px compact layouts, and added live settings previews.</li>
      </ul>
    </article>
    <article>
      <h2>Version 0.1.6</h2>
      <ul><li>Added automatic window resizing when switching between horizontal and vertical timelines.</li></ul>
    </article>
    <article>
      <h2>Version 0.1.5</h2>
      <ul><li>Added the in-app timeline settings window and refreshed the timeline after settings or login changes.</li></ul>
    </article>
    <article>
      <h2>Version 0.1.4</h2>
      <ul><li>Added optional capture exclusion on supported Windows versions and reorganized the context menu.</li></ul>
    </article>
    <article>
      <h2>Version 0.1.3</h2>
      <ul><li>Changed the default target to L2.bin, added Windows startup support, and remembered the attached window position.</li></ul>
    </article>
    <article>
      <h2>Version 0.1.2</h2>
      <ul><li>Added window attachment, focus-aware topmost behavior, and automatic updates from GitHub releases.</li></ul>
    </article>
    <article>
      <h2>Version 0.1.1</h2>
      <ul><li>Added drag-anywhere movement, invisible resize handles, and improved account controls.</li></ul>
    </article>
    <article>
      <h2>Version 0.1.0</h2>
      <ul><li>Initial release of the Naphwiki Timeline Windows overlay.</li></ul>
    </article>
  </main>
</body>
</html>"##;

#[verifier::external_type_specification]
#[verifier::external_body]
pub struct ExJsonError(serde_json::Error);

/// A lower-case hexadecimal digit for `v < 16`.
pub open spec fn hex_digit(v: u32) -> char {
    if v < 10 {
        (0x30 + v) as char
    } else {
        (0x57 + v) as char
    }
}

/// How one character is written inside a JSON string literal: `"` and `\`
/// after a backslash; backspace, tab, line feed, form feed and carriage return
/// as `\b`, `\t`, `\n`, `\f`, `\r`; other characters below U+0020 as
/// `\u00` and two hexadecimal digits; everything else as it is.
pub open spec fn json_escaped_char(c: char) -> Seq<char> {
    let v = c as u32;
    if c == '"' {
        seq!['\\', '"']
    } else if c == '\\' {
        seq!['\\', '\\']
    } else if v == 0x08 {
        seq!['\\', 'b']
    } else if v == 0x09 {
        seq!['\\', 't']
    } else if v == 0x0a {
        seq!['\\', 'n']
    } else if v == 0x0c {
        seq!['\\', 'f']
    } else if v == 0x0d {
        seq!['\\', 'r']
    } else if v < 0x20 {
        seq!['\\', 'u', '0', '0', hex_digit(v / 16), hex_digit(v % 16)]
    } else {
        seq![c]
    }
}

/// Every character of `s` written as inside a JSON string literal.
pub open spec fn json_escaped(s: Seq<char>) -> Seq<char>
    decreases s.len(),
{
    if s.len() == 0 {
        Seq::empty()
    } else {
        json_escaped(s.drop_last()) + json_escaped_char(s.last())
    }
}

/// The JSON string literal of a text: the escaped text between double quotes.
pub open spec fn json_string_literal(s: Seq<char>) -> Seq<char> {
    seq!['"'] + json_escaped(s) + seq!['"']
}

/// `serde_json::to_string` on a string slice: its JSON string literal, as
/// `serde_json`'s escape table writes it. Writing a string into memory
/// cannot fail, so the result is `Ok`.
#[verifier::external_body]
fn json_string(s: &str) -> (r: Result<String, serde_json::Error>)
    ensures
        match r {
            Ok(j) => j@ == json_string_literal(s@),
            Err(_) => false,
        },
{
    serde_json::to_string(s)
}

/// The version history was already shown for `version` when the stored
/// version, trimmed, is `version`.
pub open spec fn version_already_seen_spec(last_seen: Option<Seq<char>>, version: Seq<char>) -> bool {
    match last_seen {
        Some(s) => trim(s) == version,
        None => false,
    }
}

pub fn version_already_seen(last_seen: Option<&str>, version: &str) -> (r: bool)
    ensures
        r == version_already_seen_spec(
            match last_seen {
                Some(s) => Some(s@),
                None => None,
            },
            version@,
        ),
{
    let seen = match last_seen {
        Some(s) => s,
        None => return false,
    };
    let chars = chars_of(seen);
    let (start, end) = trim_bounds(&chars);
    let version_chars = chars_of(version);
    if end - start != version_chars.len() {
        return false;
    }
    let mut i: usize = 0;
    while i < version_chars.len()
        invariant
            start <= end <= chars.len(),
            end - start == version_chars.len(),
            last_seen == Some(seen),
            chars@ == seen@,
            version_chars@ == version@,
            chars@.subrange(start as int, end as int) == trim(chars@),
            i <= version_chars.len(),
            forall|k: int| 0 <= k < i ==> #[trigger] version_chars@[k] == chars@[start + k],
        decreases version_chars.len() - i,
    {
        if chars[start + i] != version_chars[i] {
            assert(chars@.subrange(start as int, end as int)[i as int] != version_chars@[i as int]);
            return false;
        }
        i = i + 1;
    }
    assert(chars@.subrange(start as int, end as int) =~= version_chars@);
    true
}

/// The title of the version-history window.
pub open spec fn version_history_title_spec(version: Seq<char>) -> Seq<char> {
    "Naphwiki Timeline "@ + version + " - version history"@
}

pub fn version_history_title(version: &str) -> (r: String)
    ensures
        r@ == version_history_title_spec(version@),
{
    let mut r = concat_text("Naphwiki Timeline ", version);
    r.append(" - version history");
    r
}

/// The script that writes the document, given as a JSON string literal, into
/// the version-history window once its blank page has loaded.
pub open spec fn version_history_script_spec(document_json: Seq<char>) -> Seq<char> {
    "document.addEventListener('DOMContentLoaded',function(){document.open();document.write("@
        + document_json + ");document.close();},{once:true});"@
}

pub fn version_history_script(document_json: &str) -> (r: String)
    ensures
        r@ == version_history_script_spec(document_json@),
{
    let mut r = concat_text(
        "document.addEventListener('DOMContentLoaded',function(){document.open();document.write(",
        document_json,
    );
    r.append(");document.close();},{once:true});");
    r
}

/// The script that shows `VERSION_HISTORY_HTML` in the version-history window.
pub fn version_history_initialization_script() -> (r: Option<String>)
    ensures
        r matches Some(s) && s@ == version_history_script_spec(
            json_string_literal(VERSION_HISTORY_HTML@),
        ),
{
    match json_string(VERSION_HISTORY_HTML) {
        Ok(document) => Some(version_history_script(document.as_str())),
        Err(_) => None,
    }
}

/// The question asked before installing version `version`.
pub open spec fn update_available_message_spec(version: Seq<char>) -> Seq<char> {
    "Naphwiki Timeline "@ + version + " is available.\n\nDownload and install it now?"@
}

pub fn update_available_message(version: &str) -> (r: String)
    ensures
        r@ == update_available_message_spec(version@),
{
    let mut r = concat_text("Naphwiki Timeline ", version);
    r.append(" is available.\n\nDownload and install it now?");
    r
}

/// What happened in the update check.
pub enum UpdateEvent {
    /// The updater could not be set up, or the check failed.
    CheckFailed,
    /// No newer version is offered.
    NoUpdate,
    /// Version `0` is offered.
    UpdateFound(String),
    /// The user answered the question whether to install.
    Answered(bool),
    /// Downloading and installing finished, successfully or not.
    Installed(bool),
}

/// What to do next in the update check.
pub enum UpdateAction {
    /// The check is over.
    Stop,
    /// Ask the user, with this message, whether to install.
    AskToInstall(String),
    /// Download and install the update.
    Install,
    /// Tell the user that the update failed; the check is over.
    ReportFailure,
    /// Restart into the new version.
    Restart,
}

/// The update check: when a newer version is found the user is asked; when
/// they agree it is installed, and the overlay restarts; a failed install is
/// reported; everything else ends the check quietly.
pub fn next_update_action(event: UpdateEvent) -> (r: UpdateAction)
    ensures
        match event {
            UpdateEvent::CheckFailed => r is Stop,
            UpdateEvent::NoUpdate => r is Stop,
            UpdateEvent::UpdateFound(version) => r matches UpdateAction::AskToInstall(m) && m@
                == update_available_message_spec(version@),
            UpdateEvent::Answered(yes) => if yes {
                r is Install
            } else {
                r is Stop
            },
            UpdateEvent::Installed(ok) => if ok {
                r is Restart
            } else {
                r is ReportFailure
            },
        },
{
    match event {
        UpdateEvent::CheckFailed => UpdateAction::Stop,
        UpdateEvent::NoUpdate => UpdateAction::Stop,
        UpdateEvent::UpdateFound(version) => UpdateAction::AskToInstall(
            update_available_message(version.as_str()),
        ),
        UpdateEvent::Answered(yes) => if yes {
            UpdateAction::Install
        } else {
            UpdateAction::Stop
        },
        UpdateEvent::Installed(ok) => if ok {
            UpdateAction::Restart
        } else {
            UpdateAction::ReportFailure
        },
    }
}

} // verus!
