//! The logged-in state reported by the timeline page and the account name
//! shown in the settings menu.
use vstd::prelude::*;
use crate::text::{
    chars_of, is_control_char, is_whitespace_char, no_control_chars, string_of, take_at_most, trim,
    trim_bounds, trim_end, trim_start, without_controls, without_controls_limited,
};

verus! {

/// The most characters of an account name that the menu shows.
pub const MAX_USERNAME_CHARS: usize = 64;

/// The authentication state that the page sends with a context-menu request.
pub struct AuthState {
    pub logged_in: bool,
    pub username: Option<String>,
}

impl Default for AuthState {
    /// The logged-out state, used when the page's message is missing, too
    /// large or malformed.
    fn default() -> (r: AuthState)
        ensures
            !r.logged_in,
            r.username is None,
    {
        AuthState { logged_in: false, username: None }
    }
}

/// The view of an optional string.
pub open spec fn opt_view(s: Option<String>) -> Option<Seq<char>> {
    match s {
        Some(t) => Some(t@),
        None => None,
    }
}

/// An account name as the menu shows it: control characters removed, at most
/// `MAX_USERNAME_CHARS` of the remaining characters kept, surrounding
/// whitespace trimmed; no name at all when nothing is left.
pub open spec fn normalized_username_spec(username: Option<Seq<char>>) -> Option<Seq<char>> {
    match username {
        None => None,
        Some(s) => {
            let clean = trim(take_at_most(without_controls(s), MAX_USERNAME_CHARS as nat));
            if clean.len() == 0 {
                None
            } else {
                Some(clean)
            }
        },
    }
}

pub fn normalized_username(username: Option<&str>) -> (r: Option<String>)
    ensures
        opt_view(r) == normalized_username_spec(
            match username {
                Some(s) => Some(s@),
                None => None,
            },
        ),
{
    let name = match username {
        Some(name) => name,
        None => return None,
    };
    let chars = chars_of(name);
    let kept = without_controls_limited(&chars, MAX_USERNAME_CHARS);
    let (start, end) = trim_bounds(&kept);
    if start == end {
        return None;
    }
    Some(string_of(&kept, start, end))
}

/// A name that `normalized_username` returns is never empty, holds no control
/// character, is at most `MAX_USERNAME_CHARS` long and has no whitespace at either end.
pub proof fn normalized_username_is_clean(username: Seq<char>)
    ensures
        normalized_username_spec(Some(username)) matches Some(n) ==> {
            &&& 0 < n.len() <= MAX_USERNAME_CHARS
            &&& no_control_chars(n)
            &&& !is_whitespace_char(n[0])
            &&& !is_whitespace_char(n.last())
        },
{
    let kept = take_at_most(without_controls(username), MAX_USERNAME_CHARS as nat);
    lemma_without_controls_clean(username);
    lemma_trim_is_slice(kept);
    let t = trim(kept);
    if t.len() > 0 {
        let (a, b) = choose|a: int, b: int| 0 <= a <= b <= kept.len() && t == kept.subrange(a, b);
        assert forall|i: int| 0 <= i < t.len() implies !is_control_char(#[trigger] t[i]) by {
            assert(t[i] == kept[a + i]);
            assert(kept[a + i] == without_controls(username)[a + i]);
        }
        lemma_trim_ends(kept);
    }
}

proof fn lemma_without_controls_clean(s: Seq<char>)
    ensures
        no_control_chars(without_controls(s)),
        without_controls(s).len() <= s.len(),
    decreases s.len(),
{
    if s.len() > 0 {
        lemma_without_controls_clean(s.drop_last());
    }
}

proof fn lemma_trim_start_is_suffix(s: Seq<char>)
    ensures
        exists|a: int| 0 <= a <= s.len() && trim_start(s) == #[trigger] s.skip(a),
    decreases s.len(),
{
    if s.len() > 0 && is_whitespace_char(s[0]) {
        lemma_trim_start_is_suffix(s.drop_first());
        let a = choose|a: int| 0 <= a <= s.drop_first().len() && trim_start(s.drop_first()) == #[trigger] s.drop_first().skip(a);
        assert(s.drop_first().skip(a) =~= s.skip(a + 1));
    } else {
        assert(s.skip(0) =~= s);
    }
}

proof fn lemma_trim_end_is_prefix(s: Seq<char>)
    ensures
        exists|b: int| 0 <= b <= s.len() && trim_end(s) == #[trigger] s.take(b),
    decreases s.len(),
{
    if s.len() > 0 && is_whitespace_char(s.last()) {
        lemma_trim_end_is_prefix(s.drop_last());
        let b = choose|b: int| 0 <= b <= s.drop_last().len() && trim_end(s.drop_last()) == #[trigger] s.drop_last().take(b);
        assert(s.drop_last().take(b) =~= s.take(b));
    } else {
        assert(s.take(s.len() as int) =~= s);
    }
}

proof fn lemma_trim_is_slice(s: Seq<char>)
    ensures
        exists|a: int, b: int| 0 <= a <= b <= s.len() && trim(s) == s.subrange(a, b),
{
    lemma_trim_start_is_suffix(s);
    let a = choose|a: int| 0 <= a <= s.len() && trim_start(s) == #[trigger] s.skip(a);
    lemma_trim_end_is_prefix(s.skip(a));
    let b = choose|b: int| 0 <= b <= s.skip(a).len() && trim_end(s.skip(a)) == #[trigger] s.skip(a).take(b);
    assert(s.skip(a).take(b) =~= s.subrange(a, a + b));
}

proof fn lemma_trim_start_first(s: Seq<char>)
    ensures
        trim_start(s).len() > 0 ==> !is_whitespace_char(trim_start(s)[0]),
    decreases s.len(),
{
    if s.len() > 0 && is_whitespace_char(s[0]) {
        lemma_trim_start_first(s.drop_first());
    }
}

proof fn lemma_trim_end_last(s: Seq<char>)
    ensures
        trim_end(s).len() > 0 ==> !is_whitespace_char(trim_end(s).last()),
    decreases s.len(),
{
    if s.len() > 0 && is_whitespace_char(s.last()) {
        lemma_trim_end_last(s.drop_last());
    }
}

proof fn lemma_trim_end_first(s: Seq<char>)
    requires
        trim_end(s).len() > 0,
    ensures
        trim_end(s)[0] == s[0],
    decreases s.len(),
{
    if s.len() > 0 && is_whitespace_char(s.last()) {
        lemma_trim_end_first(s.drop_last());
    }
}

proof fn lemma_trim_ends(s: Seq<char>)
    requires
        trim(s).len() > 0,
    ensures
        !is_whitespace_char(trim(s)[0]),
        !is_whitespace_char(trim(s).last()),
{
    let t = trim_start(s);
    lemma_trim_end_last(t);
    lemma_trim_end_first(t);
    lemma_trim_start_first(s);
}

/// The largest message from the page that is read.
pub const MAX_EVENT_PAYLOAD_BYTES: usize = 4096;

/// Messages from the page larger than `MAX_EVENT_PAYLOAD_BYTES` are ignored.
pub fn event_payload_accepted(len: usize) -> (r: bool)
    ensures
        r == (len <= MAX_EVENT_PAYLOAD_BYTES),
{
    len <= MAX_EVENT_PAYLOAD_BYTES
}

proof fn lemma_without_controls_identity(s: Seq<char>)
    requires
        no_control_chars(s),
    ensures
        without_controls(s) == s,
    decreases s.len(),
{
    if s.len() > 0 {
        let t = s.drop_last();
        assert forall|i: int| 0 <= i < t.len() implies !is_control_char(#[trigger] t[i]) by {
            assert(t[i] == s[i]);
        }
        lemma_without_controls_identity(t);
        assert(t.push(s.last()) =~= s);
    }
}

/// Normalizing a name that was already normalized changes nothing.
pub proof fn normalized_username_is_idempotent(username: Seq<char>)
    ensures
        normalized_username_spec(Some(username)) matches Some(n) ==> normalized_username_spec(
            Some(n),
        ) == Some(n),
{
    normalized_username_is_clean(username);
    if normalized_username_spec(Some(username)) is Some {
        let n = normalized_username_spec(Some(username)).unwrap();
        lemma_without_controls_identity(n);
        assert(take_at_most(without_controls(n), MAX_USERNAME_CHARS as nat) == n);
        assert(trim_start(n) == n);
        assert(trim_end(n) == n);
    }
}

/// A name that is already clean (no control characters, at most
/// `MAX_USERNAME_CHARS` long, no whitespace at either end, not empty) is shown
/// as it is.
pub proof fn clean_username_is_kept(username: Seq<char>)
    requires
        0 < username.len() <= MAX_USERNAME_CHARS,
        no_control_chars(username),
        !is_whitespace_char(username[0]),
        !is_whitespace_char(username.last()),
    ensures
        normalized_username_spec(Some(username)) == Some(username),
{
    lemma_without_controls_identity(username);
    assert(trim_start(username) == username);
    assert(trim_end(username) == username);
}

/// No name is shown when none was given, or when it holds nothing but
/// control characters and whitespace.
pub proof fn blank_username_is_omitted(username: Seq<char>)
    requires
        forall|i: int| 0 <= i < username.len() ==> is_control_char(#[trigger] username[i])
            || is_whitespace_char(username[i]),
    ensures
        normalized_username_spec(Some(username)) is None,
        normalized_username_spec(None) is None,
{
    lemma_without_controls_blank(username);
    let kept = take_at_most(without_controls(username), MAX_USERNAME_CHARS as nat);
    assert forall|i: int| 0 <= i < kept.len() implies is_whitespace_char(#[trigger] kept[i]) by {
        assert(kept[i] == without_controls(username)[i]);
    }
    lemma_trim_start_blank(kept);
    assert(trim_end(Seq::<char>::empty()) =~= Seq::<char>::empty());
}

proof fn lemma_without_controls_blank(s: Seq<char>)
    requires
        forall|i: int| 0 <= i < s.len() ==> is_control_char(#[trigger] s[i]) || is_whitespace_char(s[i]),
    ensures
        forall|i: int| 0 <= i < without_controls(s).len() ==> is_whitespace_char(
            #[trigger] without_controls(s)[i],
        ),
    decreases s.len(),
{
    if s.len() > 0 {
        let t = s.drop_last();
        assert forall|i: int| 0 <= i < t.len() implies is_control_char(#[trigger] t[i])
            || is_whitespace_char(t[i]) by {
            assert(t[i] == s[i]);
        }
        lemma_without_controls_blank(t);
        let w = without_controls(t);
        if !is_control_char(s.last()) {
            assert(is_whitespace_char(s.last()));
            assert forall|i: int| 0 <= i < w.push(s.last()).len() implies is_whitespace_char(
                #[trigger] w.push(s.last())[i],
            ) by {
                if i < w.len() {
                    assert(w.push(s.last())[i] == w[i]);
                }
            }
        }
    }
}

proof fn lemma_trim_start_blank(s: Seq<char>)
    requires
        forall|i: int| 0 <= i < s.len() ==> is_whitespace_char(#[trigger] s[i]),
    ensures
        trim_start(s) =~= Seq::<char>::empty(),
    decreases s.len(),
{
    if s.len() > 0 {
        let t = s.drop_first();
        assert forall|i: int| 0 <= i < t.len() implies is_whitespace_char(#[trigger] t[i]) by {
            assert(t[i] == s[i + 1]);
        }
        lemma_trim_start_blank(t);
    }
}

} // verus!
