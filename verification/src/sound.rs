//! The custom notification sound: which files are accepted, which windows
//! may read or change it, and when a stored sound is still valid.
use vstd::prelude::*;
use crate::text::{
    ascii_fold, chars_of, string_of, eq_ignore_ascii_case, eq_ignore_ascii_case_spec, same_text, trim, trim_bounds,
    utf8_len_at_most,
};

verus! {

/// The largest sound file that is accepted (10 MB).
pub const MAX_SOUND_BYTES: u64 = 10485760;

/// The largest stored description of the sound that is read back.
pub const MAX_METADATA_BYTES: u64 = 4096;

/// The longest sound file name, in UTF-8 bytes.
pub const MAX_SOUND_NAME_BYTES: usize = 255;

/// The label of the timeline window.
pub const MAIN_WINDOW: &'static str = "main";

/// The label of the timeline settings window.
pub const SETTINGS_WINDOW: &'static str = "timeline-settings";

/// The stored sound as the timeline page sees it.
pub struct CustomNotificationSoundInfo {
    pub name: String,
    pub mime_type: String,
    pub size_bytes: u64,
}

/// The MIME type of a sound file with the given extension, compared without
/// regard to ASCII case.
pub open spec fn extension_mime_type(extension: Seq<char>) -> Option<Seq<char>> {
    if eq_ignore_ascii_case_spec(extension, "mp3"@) {
        Some("audio/mpeg"@)
    } else if eq_ignore_ascii_case_spec(extension, "wav"@) {
        Some("audio/wav"@)
    } else if eq_ignore_ascii_case_spec(extension, "ogg"@) || eq_ignore_ascii_case_spec(
        extension,
        "opus"@,
    ) {
        Some("audio/ogg"@)
    } else if eq_ignore_ascii_case_spec(extension, "m4a"@) {
        Some("audio/mp4"@)
    } else if eq_ignore_ascii_case_spec(extension, "aac"@) {
        Some("audio/aac"@)
    } else if eq_ignore_ascii_case_spec(extension, "flac"@) {
        Some("audio/flac"@)
    } else {
        None
    }
}

/// The MIME types of the accepted sound files.
pub open spec fn is_supported_mime_type(mime_type: Seq<char>) -> bool {
    mime_type == "audio/mpeg"@ || mime_type == "audio/wav"@ || mime_type == "audio/ogg"@
        || mime_type == "audio/mp4"@ || mime_type == "audio/aac"@ || mime_type == "audio/flac"@
}

/// The MIME type that belongs to a file extension, if the extension is one of
/// an accepted sound format.
pub fn sound_format_for_extension(extension: Option<&str>) -> (r: Option<&'static str>)
    ensures
        match r {
            Some(m) => extension is Some && extension_mime_type(extension.unwrap()@) == Some(m@),
            None => extension is None || extension_mime_type(extension.unwrap()@) is None,
        },
{
    let extension = match extension {
        Some(extension) => extension,
        None => return None,
    };
    if eq_ignore_ascii_case(extension, "mp3") {
        Some("audio/mpeg")
    } else if eq_ignore_ascii_case(extension, "wav") {
        Some("audio/wav")
    } else if eq_ignore_ascii_case(extension, "ogg") || eq_ignore_ascii_case(extension, "opus") {
        Some("audio/ogg")
    } else if eq_ignore_ascii_case(extension, "m4a") {
        Some("audio/mp4")
    } else if eq_ignore_ascii_case(extension, "aac") {
        Some("audio/aac")
    } else if eq_ignore_ascii_case(extension, "flac") {
        Some("audio/flac")
    } else {
        None
    }
}

/// The index of the last `.` of `s`, if it has one.
pub open spec fn last_dot(s: Seq<char>) -> Option<int>
    decreases s.len(),
{
    if s.len() == 0 {
        None
    } else if s.last() == '.' {
        Some(s.len() - 1)
    } else {
        last_dot(s.drop_last())
    }
}

/// The extension of a file name (what `std::path::Path::extension` gives for
/// a path whose file name it is): what follows its last `.`; none when the
/// name has no `.`, when its only `.` is its first character, or when it is `..`.
pub open spec fn file_name_extension(name: Seq<char>) -> Option<Seq<char>> {
    if name == ".."@ {
        None
    } else {
        match last_dot(name) {
            Some(k) => if k == 0 {
                None
            } else {
                Some(name.skip(k + 1))
            },
            None => None,
        }
    }
}

proof fn lemma_last_dot(s: Seq<char>, j: int)
    requires
        0 <= j <= s.len(),
        forall|k: int| j <= k < s.len() ==> #[trigger] s[k] != '.',
        j == 0 || s[j - 1] == '.',
    ensures
        last_dot(s) == (if j == 0 {
            None::<int>
        } else {
            Some(j - 1)
        }),
    decreases s.len(),
{
    if s.len() > j {
        let t = s.drop_last();
        assert(s[s.len() - 1] != '.');
        assert forall|k: int| j <= k < t.len() implies #[trigger] t[k] != '.' by {
            assert(t[k] == s[k]);
        }
        if j > 0 {
            assert(t[j - 1] == s[j - 1]);
        }
        lemma_last_dot(t, j);
    }
}

/// The extension of the file name `name`.
pub fn extension_of_file_name(name: &str) -> (r: Option<String>)
    ensures
        match r {
            Some(e) => file_name_extension(name@) == Some(e@),
            None => file_name_extension(name@) is None,
        },
{
    if same_text(name, "..") {
        return None;
    }
    let chars = chars_of(name);
    let n = chars.len();
    let mut j: usize = n;
    while j > 0 && chars[j - 1] != '.'
        invariant
            j <= n == chars.len(),
            forall|k: int| j <= k < n ==> #[trigger] chars@[k] != '.',
        decreases j,
    {
        j = j - 1;
    }
    proof {
        lemma_last_dot(chars@, j as int);
    }
    if j <= 1 {
        return None;
    }
    let e = string_of(&chars, j, n);
    assert(e@ =~= chars@.skip(j as int));
    Some(e)
}

/// The MIME type of a sound file, judged by the extension of its file name.
pub open spec fn sound_format_spec(file_name: Seq<char>) -> Option<Seq<char>> {
    match file_name_extension(file_name) {
        Some(e) => extension_mime_type(e),
        None => None,
    }
}

/// The MIME type of the sound file named `file_name` (the last component of
/// its path), judged by its extension.
pub fn sound_format(file_name: &str) -> (r: Option<&'static str>)
    ensures
        match r {
            Some(m) => sound_format_spec(file_name@) == Some(m@),
            None => sound_format_spec(file_name@) is None,
        },
{
    let extension = extension_of_file_name(file_name);
    match &extension {
        Some(e) => sound_format_for_extension(Some(e.as_str())),
        None => sound_format_for_extension(None),
    }
}

pub open spec fn read_access_denied_message() -> Seq<char> {
    "This window cannot access notification sounds."@
}

pub open spec fn write_access_denied_message() -> Seq<char> {
    "Notification sounds can only be changed from Timeline settings."@
}

/// The sound may be read from the timeline window and the settings window.
pub fn ensure_read_access(window_label: &str) -> (r: Result<(), String>)
    ensures
        match r {
            Ok(()) => window_label@ == MAIN_WINDOW@ || window_label@ == SETTINGS_WINDOW@,
            Err(message) => window_label@ != MAIN_WINDOW@ && window_label@ != SETTINGS_WINDOW@
                && message@ == read_access_denied_message(),
        },
{
    if same_text(window_label, MAIN_WINDOW) || same_text(window_label, SETTINGS_WINDOW) {
        Ok(())
    } else {
        Err(String::from_str("This window cannot access notification sounds."))
    }
}

/// The sound may be changed only from the settings window.
pub fn ensure_write_access(window_label: &str) -> (r: Result<(), String>)
    ensures
        match r {
            Ok(()) => window_label@ == SETTINGS_WINDOW@,
            Err(message) => window_label@ != SETTINGS_WINDOW@ && message@
                == write_access_denied_message(),
        },
{
    if same_text(window_label, SETTINGS_WINDOW) {
        Ok(())
    } else {
        Err(String::from_str("Notification sounds can only be changed from Timeline settings."))
    }
}

/// A stored sound is read back only when the sound and its description are
/// both non-empty and within their size limits.
pub open spec fn stored_sound_sizes_ok_spec(data_size: u64, metadata_size: u64) -> bool {
    0 < data_size <= MAX_SOUND_BYTES && 0 < metadata_size <= MAX_METADATA_BYTES
}

pub fn stored_sound_sizes_ok(data_size: u64, metadata_size: u64) -> (r: bool)
    ensures
        r == stored_sound_sizes_ok_spec(data_size, metadata_size),
{
    0 < data_size && data_size <= MAX_SOUND_BYTES && 0 < metadata_size && metadata_size
        <= MAX_METADATA_BYTES
}

/// A sound file name must hold a non-whitespace character and fit in
/// `MAX_SOUND_NAME_BYTES` bytes of UTF-8.
pub open spec fn is_valid_sound_name(name: Seq<char>) -> bool {
    trim(name).len() > 0 && vstd::utf8::encode_utf8(name).len() <= MAX_SOUND_NAME_BYTES
}

pub fn valid_sound_name(name: &str) -> (r: bool)
    ensures
        r == is_valid_sound_name(name@),
{
    let chars = chars_of(name);
    let (start, end) = trim_bounds(&chars);
    start != end && utf8_len_at_most(&chars, MAX_SOUND_NAME_BYTES)
}

pub fn supported_mime_type(mime_type: &str) -> (r: bool)
    ensures
        r == is_supported_mime_type(mime_type@),
{
    same_text(mime_type, "audio/mpeg") || same_text(mime_type, "audio/wav") || same_text(
        mime_type,
        "audio/ogg",
    ) || same_text(mime_type, "audio/mp4") || same_text(mime_type, "audio/aac") || same_text(
        mime_type,
        "audio/flac",
    )
}

/// The stored description of the sound, with the stored sound's actual size,
/// if its name is valid and its MIME type is one of the accepted ones.
pub fn validate_stored_sound(info: CustomNotificationSoundInfo, data_size: u64) -> (r: Option<
    CustomNotificationSoundInfo,
>)
    ensures
        match r {
            Some(v) => {
                &&& is_valid_sound_name(info.name@)
                &&& is_supported_mime_type(info.mime_type@)
                &&& v.name == info.name
                &&& v.mime_type == info.mime_type
                &&& v.size_bytes == data_size
            },
            None => !is_valid_sound_name(info.name@) || !is_supported_mime_type(info.mime_type@),
        },
{
    if !valid_sound_name(info.name.as_str()) || !supported_mime_type(info.mime_type.as_str()) {
        return None;
    }
    Some(CustomNotificationSoundInfo { size_bytes: data_size, ..info })
}

/// A picked sound file that passed the checks.
pub struct SelectedSound {
    pub name: String,
    pub mime_type: &'static str,
}

impl SelectedSound {
    /// The description of the sound once its `size_bytes` bytes were read.
    pub fn into_info(self, size_bytes: u64) -> (r: CustomNotificationSoundInfo)
        ensures
            r.name == self.name,
            r.mime_type@ == self.mime_type@,
            r.size_bytes == size_bytes,
    {
        CustomNotificationSoundInfo {
            name: self.name,
            mime_type: String::from_str(self.mime_type),
            size_bytes,
        }
    }
}

/// What the file system reports about a picked file.
#[derive(Clone, Copy)]
pub struct FileFacts {
    pub is_file: bool,
    pub len: u64,
}

pub open spec fn not_local_message() -> Seq<char> {
    "Only local audio files can be selected."@
}

pub open spec fn unsupported_format_message() -> Seq<char> {
    "Choose an MP3, WAV, OGG, OPUS, M4A, AAC, or FLAC file."@
}

pub open spec fn unreadable_message() -> Seq<char> {
    "The selected sound could not be read."@
}

pub open spec fn empty_or_invalid_message() -> Seq<char> {
    "The selected sound is empty or invalid."@
}

pub open spec fn too_large_message() -> Seq<char> {
    "The selected sound is larger than 10 MB."@
}

pub open spec fn invalid_name_message() -> Seq<char> {
    "The selected sound has an invalid file name."@
}

/// The checks on a picked sound file, in order: it must be a local file, of an
/// accepted format (`mime_type`, from `sound_format`), readable, a non-empty
/// regular file, at most `MAX_SOUND_BYTES` long, and have a valid name.
pub open spec fn check_selected_sound_spec(
    is_local: bool,
    mime_type: Option<Seq<char>>,
    facts: Option<FileFacts>,
    file_name: Option<Seq<char>>,
) -> Result<(Seq<char>, Seq<char>), Seq<char>> {
    if !is_local {
        Err(not_local_message())
    } else if mime_type is None {
        Err(unsupported_format_message())
    } else if facts is None {
        Err(unreadable_message())
    } else if !facts.unwrap().is_file || facts.unwrap().len == 0 {
        Err(empty_or_invalid_message())
    } else if facts.unwrap().len > MAX_SOUND_BYTES {
        Err(too_large_message())
    } else if file_name is None || !is_valid_sound_name(file_name.unwrap()) {
        Err(invalid_name_message())
    } else {
        Ok((file_name.unwrap(), mime_type.unwrap()))
    }
}

pub fn check_selected_sound(
    is_local: bool,
    mime_type: Option<&'static str>,
    facts: Option<FileFacts>,
    file_name: Option<&str>,
) -> (r: Result<SelectedSound, String>)
    ensures
        match (
            r,
            check_selected_sound_spec(
                is_local,
                match mime_type {
                    Some(m) => Some(m@),
                    None => None,
                },
                facts,
                match file_name {
                    Some(n) => Some(n@),
                    None => None,
                },
            ),
        ) {
            (Ok(s), Ok((name, mime))) => s.name@ == name && s.mime_type@ == mime,
            (Err(message), Err(expected)) => message@ == expected,
            _ => false,
        },
{
    if !is_local {
        return Err(String::from_str("Only local audio files can be selected."));
    }
    let mime_type = match mime_type {
        Some(m) => m,
        None => return Err(String::from_str("Choose an MP3, WAV, OGG, OPUS, M4A, AAC, or FLAC file.")),
    };
    let facts = match facts {
        Some(f) => f,
        None => return Err(String::from_str("The selected sound could not be read.")),
    };
    if !facts.is_file || facts.len == 0 {
        return Err(String::from_str("The selected sound is empty or invalid."));
    }
    if facts.len > MAX_SOUND_BYTES {
        return Err(String::from_str("The selected sound is larger than 10 MB."));
    }
    let name = match file_name {
        Some(n) => n,
        None => return Err(String::from_str("The selected sound has an invalid file name.")),
    };
    if !valid_sound_name(name) {
        return Err(String::from_str("The selected sound has an invalid file name."));
    }
    Ok(SelectedSound { name: String::from_str(name), mime_type })
}

pub open spec fn no_stored_sound_message() -> Seq<char> {
    "No valid custom notification sound is stored."@
}

/// The stored sound can be read only when a valid one is stored.
pub fn require_stored_sound(stored: &Option<CustomNotificationSoundInfo>) -> (r: Result<(), String>)
    ensures
        match r {
            Ok(()) => stored is Some,
            Err(message) => stored is None && message@ == no_stored_sound_message(),
        },
{
    match stored {
        Some(_) => Ok(()),
        None => Err(String::from_str("No valid custom notification sound is stored.")),
    }
}

/// What happened when a stored file was removed.
#[derive(Clone, Copy, PartialEq, Eq, Structural)]
pub enum RemovalOutcome {
    Removed,
    NotFound,
    Failed,
}

pub open spec fn removal_failed_message() -> Seq<char> {
    "The stored notification sound could not be removed."@
}

/// A file or value that was already gone counts as removed.
pub fn removal_tolerated(outcome: RemovalOutcome) -> (r: bool)
    ensures
        r == (outcome != RemovalOutcome::Failed),
{
    outcome != RemovalOutcome::Failed
}

/// Removing a file that is already gone counts as success.
pub fn remove_if_present(outcome: RemovalOutcome) -> (r: Result<(), String>)
    ensures
        match r {
            Ok(()) => outcome != RemovalOutcome::Failed,
            Err(message) => outcome == RemovalOutcome::Failed && message@
                == removal_failed_message(),
        },
{
    if removal_tolerated(outcome) {
        Ok(())
    } else {
        Err(String::from_str("The stored notification sound could not be removed."))
    }
}

proof fn lemma_eq_ignore_ascii_case_same(a: Seq<char>, b: Seq<char>, c: Seq<char>)
    requires
        eq_ignore_ascii_case_spec(a, b),
    ensures
        eq_ignore_ascii_case_spec(a, c) == eq_ignore_ascii_case_spec(b, c),
{
    if eq_ignore_ascii_case_spec(b, c) {
        assert forall|i: int| 0 <= i < a.len() implies ascii_fold(#[trigger] a[i] as u32) == ascii_fold(
            c[i] as u32,
        ) by {
            assert(ascii_fold(a[i] as u32) == ascii_fold(b[i] as u32));
            assert(ascii_fold(b[i] as u32) == ascii_fold(c[i] as u32));
        }
    }
    if eq_ignore_ascii_case_spec(a, c) {
        assert forall|i: int| 0 <= i < b.len() implies ascii_fold(#[trigger] b[i] as u32) == ascii_fold(
            c[i] as u32,
        ) by {
            assert(ascii_fold(a[i] as u32) == ascii_fold(b[i] as u32));
            assert(ascii_fold(a[i] as u32) == ascii_fold(c[i] as u32));
        }
    }
}

/// The sound format does not depend on the case of the extension's ASCII letters.
pub proof fn sound_format_ignores_case(a: Seq<char>, b: Seq<char>)
    requires
        eq_ignore_ascii_case_spec(a, b),
    ensures
        extension_mime_type(a) == extension_mime_type(b),
{
    lemma_eq_ignore_ascii_case_same(a, b, "mp3"@);
    lemma_eq_ignore_ascii_case_same(a, b, "wav"@);
    lemma_eq_ignore_ascii_case_same(a, b, "ogg"@);
    lemma_eq_ignore_ascii_case_same(a, b, "opus"@);
    lemma_eq_ignore_ascii_case_same(a, b, "m4a"@);
    lemma_eq_ignore_ascii_case_same(a, b, "aac"@);
    lemma_eq_ignore_ascii_case_same(a, b, "flac"@);
}

/// Every format that is accepted for a file extension is one whose stored
/// description is accepted when it is read back.
pub proof fn accepted_formats_are_stored_formats(extension: Seq<char>)
    ensures
        extension_mime_type(extension) matches Some(m) ==> is_supported_mime_type(m),
{
}

/// A window that may change the sound may also read it.
pub proof fn write_access_implies_read_access(window_label: Seq<char>)
    ensures
        window_label == SETTINGS_WINDOW@ ==> (window_label == MAIN_WINDOW@ || window_label
            == SETTINGS_WINDOW@),
{
}

/// A file name's extension holds no `.`; it is what follows a `.` that ends
/// the name, and that `.` is not the name's first character. A name without
/// a `.` after its first character has no extension.
pub proof fn extension_follows_the_last_dot(name: Seq<char>)
    ensures
        file_name_extension(name) matches Some(e) ==> {
            &&& !e.contains('.')
            &&& e.len() + 1 < name.len()
            &&& name[name.len() - e.len() - 1] == '.'
            &&& name.skip(name.len() - e.len()) == e
        },
        (forall|k: int| 0 < k < name.len() ==> #[trigger] name[k] != '.') ==> file_name_extension(
            name,
        ) is None,
{
    lemma_last_dot_props(name);
    if file_name_extension(name) is Some {
        let k = last_dot(name).unwrap();
        let e = name.skip(k + 1);
        assert(e.len() == name.len() - k - 1);
        assert forall|i: int| 0 <= i < e.len() implies e[i] != '.' by {
            assert(e[i] == name[k + 1 + i]);
        }
        assert(name.skip(name.len() - e.len()) =~= e);
    }
}

proof fn lemma_last_dot_props(s: Seq<char>)
    ensures
        last_dot(s) matches Some(k) ==> 0 <= k < s.len() && s[k] == '.' && forall|j: int|
            k < j < s.len() ==> #[trigger] s[j] != '.',
        last_dot(s) is None ==> forall|j: int| 0 <= j < s.len() ==> #[trigger] s[j] != '.',
    decreases s.len(),
{
    if s.len() > 0 && s.last() != '.' {
        let t = s.drop_last();
        lemma_last_dot_props(t);
        assert forall|j: int| 0 <= j < t.len() implies t[j] == s[j] by {}
    }
}

} // verus!
