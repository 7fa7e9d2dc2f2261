//! What the tracker learns about other windows: which windows may be followed,
//! the process behind a window, its executable's name, and the UTF-16 text
//! handed to native dialogs.
use vstd::prelude::*;
use crate::text::{chars_of, eq_ignore_ascii_case, eq_ignore_ascii_case_spec, push_char};

verus! {

/// A window's outer rectangle in screen coordinates.
#[derive(Clone, Copy)]
pub struct NativeRect {
    pub left: i32,
    pub top: i32,
    pub right: i32,
    pub bottom: i32,
}

/// A window that the overlay could follow.
pub struct WindowCandidate {
    pub handle: isize,
    pub process_id: u32,
    pub process_name: String,
}

/// A process id as the native query reports it: zero means "unknown".
pub fn nonzero_process_id(raw: u32) -> (r: Option<u32>)
    ensures
        r == (if raw == 0 { None::<u32> } else { Some(raw) }),
{
    if raw == 0 {
        None
    } else {
        Some(raw)
    }
}

/// A window may be followed when it exists, is visible, is not minimized, has
/// no owner window and belongs to a known process other than the overlay's own.
pub open spec fn selectable_window_spec(
    window_exists: bool,
    visible: bool,
    minimized: bool,
    owned: bool,
    process_id: Option<u32>,
    own_process_id: u32,
) -> bool {
    window_exists && visible && !minimized && !owned && process_id is Some && process_id.unwrap()
        != own_process_id
}

pub fn selectable_window(
    window_exists: bool,
    visible: bool,
    minimized: bool,
    owned: bool,
    process_id: Option<u32>,
    own_process_id: u32,
) -> (r: bool)
    ensures
        r == selectable_window_spec(window_exists, visible, minimized, owned, process_id, own_process_id),
{
    if !window_exists || !visible || minimized || owned {
        return false;
    }
    match process_id {
        Some(id) => id != own_process_id,
        None => false,
    }
}

pub open spec fn is_high_surrogate(u: u16) -> bool {
    0xd800 <= u && u <= 0xdbff
}

pub open spec fn is_low_surrogate(u: u16) -> bool {
    0xdc00 <= u && u <= 0xdfff
}

/// The code point that a surrogate pair stands for.
pub open spec fn surrogate_pair_value(high: u16, low: u16) -> u32 {
    (0x10000 + (high - 0xd800) * 0x400 + (low - 0xdc00)) as u32
}

/// UTF-16 decoding in which every unpaired surrogate becomes U+FFFD (what
/// `String::from_utf16_lossy` returns).
pub open spec fn decode_utf16_lossy(u: Seq<u16>) -> Seq<char>
    decreases u.len(),
{
    if u.len() == 0 {
        Seq::empty()
    } else if u.len() >= 2 && is_high_surrogate(u[0]) && is_low_surrogate(u[1]) {
        seq![surrogate_pair_value(u[0], u[1]) as char] + decode_utf16_lossy(u.skip(2))
    } else if is_high_surrogate(u[0]) || is_low_surrogate(u[0]) {
        seq!['\u{fffd}'] + decode_utf16_lossy(u.skip(1))
    } else {
        seq![(u[0] as u32) as char] + decode_utf16_lossy(u.skip(1))
    }
}

pub open spec fn is_path_separator(c: char) -> bool {
    c == '\\' || c == '/'
}

/// The text after the last `\` or `/` of `s` (all of `s` when it has none).
pub open spec fn last_path_component(s: Seq<char>) -> Seq<char>
    decreases s.len(),
{
    if s.len() == 0 {
        s
    } else if is_path_separator(s.last()) {
        Seq::empty()
    } else {
        last_path_component(s.drop_last()).push(s.last())
    }
}

/// The executable name in a process image path given as UTF-16: the last path
/// component of the decoded path, or nothing when that component is empty.
pub open spec fn process_name_spec(image_path: Seq<u16>) -> Option<Seq<char>> {
    let name = last_path_component(decode_utf16_lossy(image_path));
    if name.len() == 0 {
        None
    } else {
        Some(name)
    }
}

/// The character of a Unicode scalar value.
#[verifier::external_body]
fn char_from_u32(v: u32) -> (r: Option<char>)
    ensures
        r == (if v < 0xd800 || (0xe000 <= v && v <= 0x10ffff) {
            Some(v as char)
        } else {
            None::<char>
        }),
{
    char::from_u32(v)
}

pub fn decode_utf16_lossy_chars(units: &[u16]) -> (r: Vec<char>)
    ensures
        r@ == decode_utf16_lossy(units@),
{
    let n = units.len();
    let mut out: Vec<char> = Vec::new();
    let mut i: usize = 0;
    proof {
        assert(units@.skip(0) =~= units@);
    }
    while i < n
        invariant
            n == units@.len(),
            i <= n,
            decode_utf16_lossy(units@) == out@ + decode_utf16_lossy(units@.skip(i as int)),
        decreases n - i,
    {
        let ghost rest = units@.skip(i as int);
        let u = units[i];
        if i + 1 < n && 0xd800 <= u && u <= 0xdbff && 0xdc00 <= units[i + 1] && units[i + 1]
            <= 0xdfff {
            let v: u32 = 0x10000 + (u as u32 - 0xd800) * 0x400 + (units[i + 1] as u32 - 0xdc00);
            assert(rest[0] == u && rest[1] == units@[i + 1]);
            assert(rest.skip(2) =~= units@.skip(i + 2));
            let c = match char_from_u32(v) {
                Some(c) => c,
                None => {
                    assert(false);
                    '\u{fffd}'
                },
            };
            proof {
                assert(v == surrogate_pair_value(rest[0], rest[1]));
                assert(out@.push(c) + decode_utf16_lossy(rest.skip(2)) =~= out@ + (seq![c]
                    + decode_utf16_lossy(rest.skip(2))));
            }
            out.push(c);
            i = i + 2;
        } else {
            assert(rest[0] == u);
            assert(i + 1 < n ==> rest[1] == units@[i + 1]);
            assert(rest.skip(1) =~= units@.skip(i + 1));
            let c = if (0xd800 <= u && u <= 0xdfff) {
                '\u{fffd}'
            } else {
                match char_from_u32(u as u32) {
                    Some(c) => c,
                    None => {
                        assert(false);
                        '\u{fffd}'
                    },
                }
            };
            proof {
                assert(out@.push(c) + decode_utf16_lossy(rest.skip(1)) =~= out@ + (seq![c]
                    + decode_utf16_lossy(rest.skip(1))));
            }
            out.push(c);
            i = i + 1;
        }
    }
    proof {
        assert(out@ + decode_utf16_lossy(units@.skip(n as int)) =~= out@);
    }
    out
}

proof fn lemma_last_path_component(s: Seq<char>, j: int)
    requires
        0 <= j <= s.len(),
        forall|k: int| j <= k < s.len() ==> !is_path_separator(#[trigger] s[k]),
        j == 0 || is_path_separator(s[j - 1]),
    ensures
        last_path_component(s) == s.subrange(j, s.len() as int),
    decreases s.len(),
{
    if s.len() == j {
        if j > 0 {
            assert(is_path_separator(s.last()));
        }
        assert(s.subrange(j, s.len() as int) =~= Seq::<char>::empty());
    } else {
        let t = s.drop_last();
        assert(!is_path_separator(s[s.len() - 1]));
        assert forall|k: int| j <= k < t.len() implies !is_path_separator(#[trigger] t[k]) by {
            assert(t[k] == s[k]);
        }
        if j > 0 {
            assert(t[j - 1] == s[j - 1]);
        }
        lemma_last_path_component(t, j);
        assert(t.subrange(j, t.len() as int).push(s.last()) =~= s.subrange(j, s.len() as int));
    }
}

/// The executable name of a process, from its image path as the native query
/// returns it.
pub fn process_name(image_path: &[u16]) -> (r: Option<String>)
    ensures
        match r {
            Some(name) => process_name_spec(image_path@) == Some(name@),
            None => process_name_spec(image_path@) is None,
        },
{
    let chars = decode_utf16_lossy_chars(image_path);
    let n = chars.len();
    let mut j: usize = n;
    while j > 0 && !(chars[j - 1] == '\\' || chars[j - 1] == '/')
        invariant
            j <= n == chars.len(),
            forall|k: int| j <= k < n ==> !is_path_separator(#[trigger] chars@[k]),
        decreases j,
    {
        j = j - 1;
    }
    proof {
        lemma_last_path_component(chars@, j as int);
    }
    if j == n {
        return None;
    }
    let mut name = String::new();
    let mut k = j;
    while k < n
        invariant
            j <= k <= n == chars.len(),
            name@ == chars@.subrange(j as int, k as int),
        decreases n - k,
    {
        push_char(&mut name, chars[k]);
        k = k + 1;
        assert(name@ =~= chars@.subrange(j as int, k as int));
    }
    Some(name)
}

/// The window candidate for a window whose process id and image path were
/// queried: there is one only when both are known and the image path names an
/// executable.
pub fn candidate_for_window(handle: isize, process_id: Option<u32>, image_path: Option<&[u16]>) -> (r:
    Option<WindowCandidate>)
    ensures
        match r {
            Some(c) => {
                &&& c.handle == handle
                &&& process_id == Some(c.process_id)
                &&& image_path is Some
                &&& process_name_spec(image_path.unwrap()@) == Some(c.process_name@)
            },
            None => process_id is None || image_path is None || process_name_spec(
                image_path.unwrap()@,
            ) is None,
        },
{
    let process_id = match process_id {
        Some(id) => id,
        None => return None,
    };
    let image_path = match image_path {
        Some(path) => path,
        None => return None,
    };
    match process_name(image_path) {
        Some(process_name) => Some(WindowCandidate { handle, process_id, process_name }),
        None => None,
    }
}

/// The UTF-16 code units of one character.
pub open spec fn utf16_units(c: char) -> Seq<u16> {
    let v = c as u32;
    if v < 0x10000 {
        seq![v as u16]
    } else {
        seq![(0xd800 + (v - 0x10000) / 0x400) as u16, (0xdc00 + (v - 0x10000) % 0x400) as u16]
    }
}

/// UTF-16 encoding (what `str::encode_utf16` yields).
pub open spec fn encode_utf16(s: Seq<char>) -> Seq<u16>
    decreases s.len(),
{
    if s.len() == 0 {
        Seq::empty()
    } else {
        encode_utf16(s.drop_last()) + utf16_units(s.last())
    }
}

/// A NUL-terminated UTF-16 copy of `value`, as native text parameters take it.
pub fn wide_string(value: &str) -> (r: Vec<u16>)
    ensures
        r@ == encode_utf16(value@).push(0),
{
    let chars = chars_of(value);
    let mut r: Vec<u16> = Vec::new();
    let mut i: usize = 0;
    while i < chars.len()
        invariant
            i <= chars.len(),
            chars@ == value@,
            r@ == encode_utf16(chars@.take(i as int)),
        decreases chars.len() - i,
    {
        let c = chars[i];
        let v = c as u32;
        assert(chars@.take(i + 1).drop_last() =~= chars@.take(i as int));
        assert(chars@.take(i + 1).last() == c);
        if v < 0x10000 {
            r.push(v as u16);
        } else {
            let w = v - 0x10000;
            r.push((0xd800 + w / 0x400) as u16);
            r.push((0xdc00 + w % 0x400) as u16);
        }
        assert(r@ =~= encode_utf16(chars@.take(i + 1)));
        i = i + 1;
    }
    assert(chars@.take(chars.len() as int) =~= chars@);
    r.push(0);
    r
}

/// The first window (in the order given) whose executable name equals
/// `preferred_process`, ignoring ASCII case.
pub fn find_preferred_window(preferred_process: &str, windows: &Vec<WindowCandidate>) -> (r:
    Option<usize>)
    ensures
        match r {
            Some(i) => {
                &&& i < windows.len()
                &&& eq_ignore_ascii_case_spec(windows@[i as int].process_name@, preferred_process@)
                &&& forall|k: int|
                    0 <= k < i ==> !eq_ignore_ascii_case_spec(
                        #[trigger] windows@[k].process_name@,
                        preferred_process@,
                    )
            },
            None => forall|k: int|
                0 <= k < windows.len() ==> !eq_ignore_ascii_case_spec(
                    #[trigger] windows@[k].process_name@,
                    preferred_process@,
                ),
        },
{
    let mut i: usize = 0;
    while i < windows.len()
        invariant
            i <= windows.len(),
            forall|k: int|
                0 <= k < i ==> !eq_ignore_ascii_case_spec(
                    #[trigger] windows@[k].process_name@,
                    preferred_process@,
                ),
        decreases windows.len() - i,
    {
        if eq_ignore_ascii_case(windows[i].process_name.as_str(), preferred_process) {
            return Some(i);
        }
        i = i + 1;
    }
    None
}

proof fn lemma_last_path_component_props(s: Seq<char>)
    ensures
        last_path_component(s).len() <= s.len(),
        s.skip(s.len() - last_path_component(s).len()) == last_path_component(s),
        forall|i: int|
            0 <= i < last_path_component(s).len() ==> !is_path_separator(
                #[trigger] last_path_component(s)[i],
            ),
        last_path_component(s).len() < s.len() ==> is_path_separator(
            s[s.len() - last_path_component(s).len() - 1],
        ),
    decreases s.len(),
{
    if s.len() > 0 && !is_path_separator(s.last()) {
        let t = s.drop_last();
        lemma_last_path_component_props(t);
        let c = last_path_component(t);
        assert(s.skip(s.len() - c.push(s.last()).len()) =~= c.push(s.last()));
        assert forall|i: int| 0 <= i < c.push(s.last()).len() implies !is_path_separator(
            #[trigger] c.push(s.last())[i],
        ) by {
            if i < c.len() {
                assert(c.push(s.last())[i] == c[i]);
            }
        }
        if c.len() < t.len() {
            assert(s[s.len() - c.push(s.last()).len() - 1] == t[t.len() - c.len() - 1]);
        }
    } else if s.len() > 0 {
        assert(s.skip(s.len() as int) =~= Seq::<char>::empty());
    } else {
        assert(s.skip(0) =~= s);
    }
}

/// A process's executable name is the end of its decoded image path after
/// the last `\` or `/`: it holds no separator, and it is preceded by one
/// unless it is the whole path.
pub proof fn process_name_is_the_last_component(image_path: Seq<u16>)
    ensures
        process_name_spec(image_path) matches Some(name) ==> {
            let path = decode_utf16_lossy(image_path);
            &&& name.len() > 0
            &&& name.len() <= path.len()
            &&& path.skip(path.len() - name.len()) == name
            &&& forall|i: int| 0 <= i < name.len() ==> !is_path_separator(#[trigger] name[i])
            &&& name.len() < path.len() ==> is_path_separator(path[path.len() - name.len() - 1])
        },
{
    lemma_last_path_component_props(decode_utf16_lossy(image_path));
}

} // verus!
