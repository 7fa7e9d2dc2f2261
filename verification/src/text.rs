//! Character classes and the string operations that the rest of the library
//! is built from: control-character filtering, whitespace trimming, ASCII
//! case folding, UTF-16 encoding and lossy UTF-16 decoding.
use vstd::prelude::*;

verus! {

/// A character of Unicode's general category Cc (what `char::is_control` tests).
pub open spec fn is_control_char(c: char) -> bool {
    (c as u32) <= 0x1f || (0x7f <= (c as u32) && (c as u32) <= 0x9f)
}

/// A character with Unicode's White_Space property (what `char::is_whitespace` tests).
pub open spec fn is_whitespace_char(c: char) -> bool {
    let v = c as u32;
    (0x09 <= v && v <= 0x0d) || v == 0x20 || v == 0x85 || v == 0xa0 || v == 0x1680 || (0x2000
        <= v && v <= 0x200a) || v == 0x2028 || v == 0x2029 || v == 0x202f || v == 0x205f || v
        == 0x3000
}

pub fn is_control(c: char) -> (r: bool)
    ensures
        r == is_control_char(c),
{
    let v = c as u32;
    v <= 0x1f || (0x7f <= v && v <= 0x9f)
}

pub fn is_whitespace(c: char) -> (r: bool)
    ensures
        r == is_whitespace_char(c),
{
    let v = c as u32;
    (0x09 <= v && v <= 0x0d) || v == 0x20 || v == 0x85 || v == 0xa0 || v == 0x1680 || (0x2000 <= v
        && v <= 0x200a) || v == 0x2028 || v == 0x2029 || v == 0x202f || v == 0x205f || v == 0x3000
}

/// `s` without its leading whitespace.
pub open spec fn trim_start(s: Seq<char>) -> Seq<char>
    decreases s.len(),
{
    if s.len() > 0 && is_whitespace_char(s[0]) {
        trim_start(s.drop_first())
    } else {
        s
    }
}

/// `s` without its trailing whitespace.
pub open spec fn trim_end(s: Seq<char>) -> Seq<char>
    decreases s.len(),
{
    if s.len() > 0 && is_whitespace_char(s.last()) {
        trim_end(s.drop_last())
    } else {
        s
    }
}

/// `s` without leading and trailing whitespace (what `str::trim` returns).
pub open spec fn trim(s: Seq<char>) -> Seq<char> {
    trim_end(trim_start(s))
}

/// The characters of `s` that are not control characters, in order.
pub open spec fn without_controls(s: Seq<char>) -> Seq<char>
    decreases s.len(),
{
    if s.len() == 0 {
        Seq::empty()
    } else if is_control_char(s.last()) {
        without_controls(s.drop_last())
    } else {
        without_controls(s.drop_last()).push(s.last())
    }
}

/// The first `n` elements of `s`, or all of `s` when it is shorter.
pub open spec fn take_at_most<A>(s: Seq<A>, n: nat) -> Seq<A> {
    if s.len() <= n {
        s
    } else {
        s.take(n as int)
    }
}

pub open spec fn no_control_chars(s: Seq<char>) -> bool {
    forall|i: int| 0 <= i < s.len() ==> !is_control_char(#[trigger] s[i])
}

pub proof fn lemma_trim_start_skip(s: Seq<char>, i: int)
    requires
        0 <= i <= s.len(),
        forall|k: int| 0 <= k < i ==> is_whitespace_char(#[trigger] s[k]),
        i == s.len() || !is_whitespace_char(s[i]),
    ensures
        trim_start(s) == s.skip(i),
    decreases i,
{
    if i == 0 {
        assert(s.skip(0) =~= s);
    } else {
        let t = s.drop_first();
        assert forall|k: int| 0 <= k < i - 1 implies is_whitespace_char(#[trigger] t[k]) by {
            assert(t[k] == s[k + 1]);
        }
        if i < s.len() {
            assert(t[i - 1] == s[i]);
        }
        lemma_trim_start_skip(t, i - 1);
        assert(t.skip(i - 1) =~= s.skip(i));
    }
}

pub proof fn lemma_trim_end_take(s: Seq<char>, j: int)
    requires
        0 <= j <= s.len(),
        forall|k: int| j <= k < s.len() ==> is_whitespace_char(#[trigger] s[k]),
        j == 0 || !is_whitespace_char(s[j - 1]),
    ensures
        trim_end(s) == s.take(j),
    decreases s.len() - j,
{
    if j == s.len() {
        assert(s.take(j) =~= s);
    } else {
        let t = s.drop_last();
        assert(is_whitespace_char(s[s.len() - 1]));
        assert forall|k: int| j <= k < t.len() implies is_whitespace_char(#[trigger] t[k]) by {
            assert(t[k] == s[k]);
        }
        if j > 0 {
            assert(t[j - 1] == s[j - 1]);
        }
        lemma_trim_end_take(t, j);
        assert(t.take(j) =~= s.take(j));
    }
}

/// `without_controls` of a prefix is a prefix of `without_controls` of a longer prefix.
pub proof fn lemma_without_controls_prefix(s: Seq<char>, i: int, j: int)
    requires
        0 <= i <= j <= s.len(),
    ensures
        without_controls(s.take(i)).len() <= without_controls(s.take(j)).len(),
        without_controls(s.take(j)).take(without_controls(s.take(i)).len() as int)
            == without_controls(s.take(i)),
    decreases j - i,
{
    if i == j {
        assert(without_controls(s.take(j)).take(without_controls(s.take(i)).len() as int)
            =~= without_controls(s.take(i)));
    } else {
        lemma_without_controls_prefix(s, i, j - 1);
        assert(s.take(j).drop_last() =~= s.take(j - 1));
        let a = without_controls(s.take(i));
        let b = without_controls(s.take(j - 1));
        let c = without_controls(s.take(j));
        assert(c.take(a.len() as int) =~= b.take(a.len() as int));
    }
}

/// Appends one character to a string.
#[verifier::external_body]
pub(crate) fn push_char(s: &mut String, c: char)
    ensures
        final(s)@ == old(s)@.push(c),
{
    s.push(c);
}

/// The characters of `s`.
pub fn chars_of(s: &str) -> (v: Vec<char>)
    ensures
        v@ == s@,
{
    broadcast use vstd::string::group_string_axioms;

    let mut v: Vec<char> = Vec::new();
    for c in it: s.chars()
        invariant
            v@ == it.seq().take(it.index()),
            it.seq() == s@,
    {
        v.push(c);
    }
    v
}

/// A string holding the characters `chars[from..to]`.
pub fn string_of(chars: &Vec<char>, from: usize, to: usize) -> (s: String)
    requires
        from <= to <= chars.len(),
    ensures
        s@ == chars@.subrange(from as int, to as int),
{
    let mut s = String::new();
    let mut i = from;
    while i < to
        invariant
            from <= i <= to <= chars.len(),
            s@ == chars@.subrange(from as int, i as int),
        decreases to - i,
    {
        push_char(&mut s, chars[i]);
        i = i + 1;
        assert(s@ =~= chars@.subrange(from as int, i as int));
    }
    s
}

/// The bounds `(start, end)` of `trim(chars)` inside `chars`.
pub fn trim_bounds(chars: &Vec<char>) -> (r: (usize, usize))
    ensures
        r.0 <= r.1 <= chars.len(),
        chars@.subrange(r.0 as int, r.1 as int) == trim(chars@),
{
    let n = chars.len();
    let mut i: usize = 0;
    while i < n && is_whitespace(chars[i])
        invariant
            i <= n == chars.len(),
            forall|k: int| 0 <= k < i ==> is_whitespace_char(#[trigger] chars@[k]),
        decreases n - i,
    {
        i = i + 1;
    }
    proof {
        lemma_trim_start_skip(chars@, i as int);
    }
    let mut j: usize = n;
    while j > i && is_whitespace(chars[j - 1])
        invariant
            i <= j <= n == chars.len(),
            forall|k: int| j <= k < n ==> is_whitespace_char(#[trigger] chars@[k]),
        decreases j,
    {
        j = j - 1;
    }
    proof {
        let t = chars@.skip(i as int);
        assert forall|k: int| j - i <= k < t.len() implies is_whitespace_char(#[trigger] t[k]) by {
            assert(t[k] == chars@[k + i]);
        }
        if j > i {
            assert(t[j - i - 1] == chars@[j - 1]);
        }
        lemma_trim_end_take(t, j - i);
        assert(t.take(j - i) =~= chars@.subrange(i as int, j as int));
    }
    (i, j)
}

/// The characters of `chars` that are not control characters, at most `limit` of them.
pub fn without_controls_limited(chars: &Vec<char>, limit: usize) -> (r: Vec<char>)
    ensures
        r@ == take_at_most(without_controls(chars@), limit as nat),
{
    let n = chars.len();
    let mut r: Vec<char> = Vec::new();
    let mut i: usize = 0;
    while i < n && r.len() < limit
        invariant
            i <= n == chars.len(),
            r.len() <= limit,
            r@ == without_controls(chars@.take(i as int)),
        decreases n - i,
    {
        let c = chars[i];
        assert(chars@.take(i + 1).drop_last() =~= chars@.take(i as int));
        if !is_control(c) {
            r.push(c);
        }
        i = i + 1;
    }
    proof {
        lemma_without_controls_prefix(chars@, i as int, n as int);
        assert(chars@.take(n as int) =~= chars@);
        if i < n {
            assert(r.len() == limit);
        }
    }
    r
}

/// ASCII upper-case letters folded to lower case; other code points unchanged.
pub open spec fn ascii_fold(v: u32) -> u32 {
    if 0x41 <= v && v <= 0x5a {
        (v + 0x20) as u32
    } else {
        v
    }
}

/// Equality of two texts when ASCII letters are compared without regard to case
/// (what `str::eq_ignore_ascii_case` tests).
pub open spec fn eq_ignore_ascii_case_spec(a: Seq<char>, b: Seq<char>) -> bool {
    &&& a.len() == b.len()
    &&& forall|i: int| 0 <= i < a.len() ==> ascii_fold(#[trigger] a[i] as u32) == ascii_fold(b[i] as u32)
}

pub fn eq_ignore_ascii_case(a: &str, b: &str) -> (r: bool)
    ensures
        r == eq_ignore_ascii_case_spec(a@, b@),
{
    let x = chars_of(a);
    let y = chars_of(b);
    if x.len() != y.len() {
        return false;
    }
    let mut i: usize = 0;
    while i < x.len()
        invariant
            x@ == a@,
            y@ == b@,
            x.len() == y.len(),
            i <= x.len(),
            forall|k: int| 0 <= k < i ==> ascii_fold(#[trigger] x@[k] as u32) == ascii_fold(y@[k] as u32),
        decreases x.len() - i,
    {
        let u = x[i] as u32;
        let w = y[i] as u32;
        let fu = if 0x41 <= u && u <= 0x5a { u + 0x20 } else { u };
        let fw = if 0x41 <= w && w <= 0x5a { w + 0x20 } else { w };
        if fu != fw {
            return false;
        }
        i = i + 1;
    }
    true
}

/// Whether two texts are equal.
pub fn same_text(a: &str, b: &str) -> (r: bool)
    ensures
        r == (a@ == b@),
{
    let x = chars_of(a);
    let y = chars_of(b);
    if x.len() != y.len() {
        return false;
    }
    let mut i: usize = 0;
    while i < x.len()
        invariant
            x@ == a@,
            y@ == b@,
            x.len() == y.len(),
            i <= x.len(),
            forall|k: int| 0 <= k < i ==> #[trigger] x@[k] == y@[k],
        decreases x.len() - i,
    {
        if x[i] != y[i] {
            return false;
        }
        i = i + 1;
    }
    assert(x@ =~= y@);
    true
}

/// A new string holding `a` followed by `b`.
pub fn concat_text(a: &str, b: &str) -> (r: String)
    ensures
        r@ == a@ + b@,
{
    let mut r = String::from_str(a);
    r.append(b);
    r
}

/// The number of bytes of a scalar value's UTF-8 encoding.
pub open spec fn utf8_width(v: u32) -> nat {
    if v <= 0x7f {
        1
    } else if v <= 0x7ff {
        2
    } else if v <= 0xffff {
        3
    } else {
        4
    }
}

proof fn lemma_encode_utf8_step(s: Seq<char>, j: int)
    requires
        0 < j <= s.len(),
    ensures
        vstd::utf8::encode_utf8(s.skip(j - 1)).len() == utf8_width(s[j - 1] as u32)
            + vstd::utf8::encode_utf8(s.skip(j)).len(),
{
    let t = s.skip(j - 1);
    assert(t.drop_first() =~= s.skip(j));
    assert(t[0] == s[j - 1]);
    vstd::utf8::char_is_scalar(s[j - 1]);
}

proof fn lemma_encode_utf8_suffix(s: Seq<char>, j: int)
    requires
        0 <= j <= s.len(),
    ensures
        vstd::utf8::encode_utf8(s.skip(j)).len() <= vstd::utf8::encode_utf8(s).len(),
    decreases j,
{
    if j == 0 {
        assert(s.skip(0) =~= s);
    } else {
        lemma_encode_utf8_step(s, j);
        lemma_encode_utf8_suffix(s, j - 1);
    }
}

/// Whether the UTF-8 encoding of `chars` is at most `limit` bytes long.
pub fn utf8_len_at_most(chars: &Vec<char>, limit: usize) -> (r: bool)
    ensures
        r == (vstd::utf8::encode_utf8(chars@).len() <= limit),
{
    let mut j = chars.len();
    let mut total: usize = 0;
    assert(chars@.skip(j as int) =~= Seq::<char>::empty());
    while j > 0
        invariant
            j <= chars.len(),
            total <= limit,
            total == vstd::utf8::encode_utf8(chars@.skip(j as int)).len(),
        decreases j,
    {
        let v = chars[j - 1] as u32;
        let width: usize = if v <= 0x7f {
            1
        } else if v <= 0x7ff {
            2
        } else if v <= 0xffff {
            3
        } else {
            4
        };
        proof {
            lemma_encode_utf8_step(chars@, j as int);
        }
        if width > limit - total {
            proof {
                lemma_encode_utf8_suffix(chars@, j - 1);
            }
            return false;
        }
        total = total + width;
        j = j - 1;
    }
    assert(chars@.skip(0) =~= chars@);
    true
}

} // verus!
