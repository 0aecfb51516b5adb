//! Conversion between text and null-terminated UTF-16 buffers.
use vstd::prelude::*;

use crate::error::Error;

pub use crate::builder::WideStringBuilder;
pub use crate::pool::{PooledWideString, WideStringPool};
pub use crate::wide_string::{WideString, INLINE_CAP};

verus! {

/// A code unit that opens a surrogate pair.
pub open spec fn is_high_surrogate(u: u16) -> bool {
    0xD800 <= u <= 0xDBFF
}

/// A code unit that closes a surrogate pair.
pub open spec fn is_low_surrogate(u: u16) -> bool {
    0xDC00 <= u <= 0xDFFF
}

/// The UTF-16 encoding of one character: one unit below U+10000, a surrogate pair above.
pub open spec fn utf16_of_char(c: char) -> Seq<u16> {
    let v = c as u32 as int;
    if v < 0x10000 {
        seq![v as u16]
    } else {
        seq![(0xD800 + (v - 0x10000) / 0x400) as u16, (0xDC00 + (v - 0x10000) % 0x400) as u16]
    }
}

/// The UTF-16 encoding of a character sequence, without a terminator.
pub open spec fn utf16_of(s: Seq<char>) -> Seq<u16>
    decreases s.len(),
{
    if s.len() == 0 {
        Seq::empty()
    } else {
        utf16_of(s.drop_last()) + utf16_of_char(s.last())
    }
}

/// The number of UTF-16 code units that encode `s`.
pub open spec fn utf16_length(s: Seq<char>) -> nat {
    utf16_of(s).len()
}

/// The null-terminated UTF-16 buffer for `s`.
pub open spec fn wide_of(s: Seq<char>) -> Seq<u16> {
    utf16_of(s).push(0u16)
}

/// The character coded by a surrogate pair.
pub open spec fn pair_value(hi: u16, lo: u16) -> u32 {
    ((hi - 0xD800) * 0x400 + (lo - 0xDC00) + 0x10000) as u32
}

/// Decodes UTF-16 code units; `None` on an unpaired or misordered surrogate.
pub open spec fn decode_utf16(u: Seq<u16>) -> Option<Seq<char>>
    decreases u.len(),
{
    if u.len() == 0 {
        Some(Seq::empty())
    } else if is_high_surrogate(u[0]) {
        if u.len() >= 2 && is_low_surrogate(u[1]) {
            match decode_utf16(u.subrange(2, u.len() as int)) {
                Some(rest) => Some(seq![pair_value(u[0], u[1]) as char] + rest),
                None => None,
            }
        } else {
            None
        }
    } else if is_low_surrogate(u[0]) {
        None
    } else {
        match decode_utf16(u.subrange(1, u.len() as int)) {
            Some(rest) => Some(seq![(u[0] as u32) as char] + rest),
            None => None,
        }
    }
}

/// The units before the first zero unit, or all of them when there is none.
pub open spec fn before_nul(u: Seq<u16>) -> Seq<u16>
    decreases u.len(),
{
    if u.len() == 0 {
        u
    } else if u[0] == 0 {
        Seq::empty()
    } else {
        seq![u[0]] + before_nul(u.subrange(1, u.len() as int))
    }
}

/// The characters before the first null character, or all of them.
pub open spec fn chars_before_nul(s: Seq<char>) -> Seq<char>
    decreases s.len(),
{
    if s.len() == 0 {
        s
    } else if s[0] == '\0' {
        Seq::empty()
    } else {
        seq![s[0]] + chars_before_nul(s.subrange(1, s.len() as int))
    }
}

/// What `from_wide` yields for a buffer: the text before the first zero, if it is valid.
pub open spec fn from_wide_spec(u: Seq<u16>) -> Result<Seq<char>, ()> {
    match decode_utf16(before_nul(u)) {
        Some(t) => Ok(t),
        None => Err(()),
    }
}

/// A character below U+10000 is one unit that is not a surrogate; any other
/// character is a high surrogate, then a low one, that together code it.
pub proof fn lemma_utf16_of_char_shape(c: char)
    ensures
        ({
            let e = utf16_of_char(c);
            let v = c as u32;
            &&& v < 0x10000 ==> e.len() == 1 && e[0] as u32 == v && !is_high_surrogate(e[0])
                && !is_low_surrogate(e[0]) && e[0] != 0 || v == 0
            &&& v >= 0x10000 ==> e.len() == 2 && is_high_surrogate(e[0]) && is_low_surrogate(e[1])
                && pair_value(e[0], e[1]) == v
        }),
{
    let v = c as u32 as int;
    vstd::utf8::char_is_scalar(c);
    if v >= 0x10000 {
        let w = v - 0x10000;
        assert(w < 0x100000);
        assert(0 <= w / 0x400 < 0x400);
        assert(0 <= w % 0x400 < 0x400);
        assert(w == (w / 0x400) * 0x400 + w % 0x400);
    }
}

/// Encoding a prefix and then one more character appends that character's units.
pub proof fn lemma_utf16_of_push(s: Seq<char>, c: char)
    ensures
        utf16_of(s.push(c)) == utf16_of(s) + utf16_of_char(c),
{
    assert(s.push(c).drop_last() =~= s);
}

/// Encoding distributes over concatenation.
pub proof fn lemma_utf16_of_concat(a: Seq<char>, b: Seq<char>)
    ensures
        utf16_of(a + b) == utf16_of(a) + utf16_of(b),
    decreases b.len(),
{
    if b.len() == 0 {
        assert(a + b =~= a);
        assert(utf16_of(a) + utf16_of(b) =~= utf16_of(a));
    } else {
        lemma_utf16_of_concat(a, b.drop_last());
        assert((a + b).drop_last() =~= a + b.drop_last());
        assert((a + b).last() == b.last());
        assert(utf16_of(a) + utf16_of(b) =~= utf16_of(a) + utf16_of(b.drop_last()) + utf16_of_char(
            b.last(),
        ));
    }
}

/// Encoding as a first character followed by the rest.
pub proof fn lemma_utf16_of_first(s: Seq<char>)
    requires
        s.len() > 0,
    ensures
        utf16_of(s) == utf16_of_char(s[0]) + utf16_of(s.subrange(1, s.len() as int)),
{
    let rest = s.subrange(1, s.len() as int);
    assert(s =~= seq![s[0]] + rest);
    lemma_utf16_of_concat(seq![s[0]], rest);
    assert(seq![s[0]].drop_last() =~= Seq::<char>::empty());
    assert(seq![s[0]].last() == s[0]);
    assert(utf16_of(Seq::<char>::empty()) =~= Seq::<u16>::empty());
    assert(utf16_of(seq![s[0]]) =~= utf16_of_char(s[0]));
}

/// Decoding the encoding of any text gives the text back.
pub proof fn lemma_decode_utf16_of(s: Seq<char>)
    ensures
        decode_utf16(utf16_of(s)) == Some(s),
    decreases s.len(),
{
    if s.len() == 0 {
        assert(utf16_of(s) =~= Seq::<u16>::empty());
    } else {
        let c = s[0];
        let rest = s.subrange(1, s.len() as int);
        lemma_utf16_of_first(s);
        lemma_decode_utf16_of(rest);
        lemma_utf16_of_char_shape(c);
        let e = utf16_of_char(c);
        let u = utf16_of(s);
        vstd::utf8::char_u32_cast(c, c as u32);
        if (c as u32) < 0x10000 {
            assert(u.subrange(1, u.len() as int) =~= utf16_of(rest));
            assert(((u[0] as u32) as char) == c);
        } else {
            assert(u.subrange(2, u.len() as int) =~= utf16_of(rest));
            assert((pair_value(u[0], u[1]) as char) == c);
        }
        assert(s =~= seq![c] + rest);
    }
}

/// A zero unit only comes from a null character.
pub proof fn lemma_before_nul_utf16_of(s: Seq<char>)
    ensures
        before_nul(utf16_of(s)) == utf16_of(chars_before_nul(s)),
        before_nul(utf16_of(s).push(0u16)) == utf16_of(chars_before_nul(s)),
    decreases s.len(),
{
    if s.len() == 0 {
        assert(utf16_of(s) =~= Seq::<u16>::empty());
        assert(utf16_of(s).push(0u16) =~= seq![0u16]);
        assert(seq![0u16].subrange(1, 1) =~= Seq::<u16>::empty());
    } else {
        let c = s[0];
        let rest = s.subrange(1, s.len() as int);
        lemma_utf16_of_first(s);
        lemma_before_nul_utf16_of(rest);
        lemma_utf16_of_char_shape(c);
        let u = utf16_of(s);
        let up = u.push(0u16);
        let r = utf16_of(rest);
        if c == '\0' {
            assert(u[0] == 0);
            assert(up[0] == 0);
            assert(chars_before_nul(s) =~= Seq::<char>::empty());
            assert(utf16_of(Seq::<char>::empty()) =~= Seq::<u16>::empty());
        } else {
            vstd::utf8::char_u32_cast(c, c as u32);
            assert(c as u32 != 0);
            let cb = chars_before_nul(s);
            assert(cb =~= seq![c] + chars_before_nul(rest));
            lemma_utf16_of_first(cb);
            assert(cb.subrange(1, cb.len() as int) =~= chars_before_nul(rest));
            if (c as u32) < 0x10000 {
                assert(u.subrange(1, u.len() as int) =~= r);
                assert(up.subrange(1, up.len() as int) =~= r.push(0u16));
                assert(before_nul(u) =~= seq![u[0]] + before_nul(r));
                assert(before_nul(up) =~= seq![up[0]] + before_nul(r.push(0u16)));
                assert(utf16_of_char(c) =~= seq![u[0]]);
            } else {
                let u1 = u.subrange(1, u.len() as int);
                let up1 = up.subrange(1, up.len() as int);
                assert(u1.subrange(1, u1.len() as int) =~= r);
                assert(up1.subrange(1, up1.len() as int) =~= r.push(0u16));
                assert(before_nul(u1) =~= seq![u1[0]] + before_nul(r));
                assert(before_nul(up1) =~= seq![up1[0]] + before_nul(r.push(0u16)));
                assert(before_nul(u) =~= seq![u[0]] + before_nul(u1));
                assert(before_nul(up) =~= seq![up[0]] + before_nul(up1));
                assert(utf16_of_char(c) =~= seq![u[0], u[1]]);
            }
        }
    }
}

/// Appends the UTF-16 encoding of `s` to `out`.
pub fn push_utf16(out: &mut Vec<u16>, s: &str)
    ensures
        final(out)@ == old(out)@ + utf16_of(s@),
{
    let ghost start = out@;
    for c in it: s.chars()
        invariant
            it.seq() == s@,
            0 <= it.index() <= s@.len(),
            out@ == start + utf16_of(s@.subrange(0, it.index() as int)),
    {
        let ghost before = s@.subrange(0, it.index() as int);
        proof {
            lemma_utf16_of_push(before, c);
            assert(s@.subrange(0, it.index() + 1) =~= before.push(c));
        }
        push_utf16_char(out, c);
    }
    proof {
        assert(s@.subrange(0, s@.len() as int) =~= s@);
    }
}

/// The one or two UTF-16 code units of a character, and how many there are.
pub fn char_units(c: char) -> (r: (u16, u16, usize))
    ensures
        r.2 == utf16_of_char(c).len(),
        r.2 == 1 || r.2 == 2,
        r.2 == 1 <==> (c as u32) < 0x10000,
        utf16_of_char(c)[0] == r.0,
        r.2 == 2 ==> utf16_of_char(c)[1] == r.1,
{
    let v: u32 = c as u32;
    if v < 0x10000 {
        (v as u16, 0, 1)
    } else {
        proof {
            vstd::utf8::char_is_scalar(c);
        }
        let w: u32 = v - 0x10000;
        ((0xD800 + w / 0x400) as u16, (0xDC00 + w % 0x400) as u16, 2)
    }
}

/// Appends the UTF-16 encoding of one character to `out`.
pub fn push_utf16_char(out: &mut Vec<u16>, c: char)
    ensures
        final(out)@ == old(out)@ + utf16_of_char(c),
{
    let (a, b, n) = char_units(c);
    out.push(a);
    if n == 2 {
        out.push(b);
        proof {
            assert(old(out)@.push(a).push(b) =~= old(out)@ + utf16_of_char(c));
        }
    } else {
        proof {
            assert(old(out)@.push(a) =~= old(out)@ + utf16_of_char(c));
        }
    }
}

/// The number of UTF-16 code units of `s`, or `usize::MAX` if that count does not fit.
pub open spec fn utf16_length_sat(s: Seq<char>) -> usize {
    if utf16_length(s) <= usize::MAX {
        utf16_length(s) as usize
    } else {
        usize::MAX
    }
}

/// The length of a prefix's encoding is at most that of the whole.
pub proof fn lemma_utf16_length_prefix(s: Seq<char>, i: int)
    requires
        0 <= i <= s.len(),
    ensures
        utf16_length(s.subrange(0, i)) <= utf16_length(s),
{
    lemma_utf16_of_concat(s.subrange(0, i), s.subrange(i, s.len() as int));
    assert(s =~= s.subrange(0, i) + s.subrange(i, s.len() as int));
}

/// Counts the UTF-16 code units that encode `s`, saturating at `usize::MAX`.
pub fn utf16_len(s: &str) -> (r: usize)
    ensures
        r == utf16_length_sat(s@),
{
    let mut n: usize = 0;
    for c in it: s.chars()
        invariant
            it.seq() == s@,
            0 <= it.index() <= s@.len(),
            n == utf16_length_sat(s@.subrange(0, it.index() as int)),
    {
        let ghost before = s@.subrange(0, it.index() as int);
        proof {
            lemma_utf16_of_push(before, c);
            assert(s@.subrange(0, it.index() + 1) =~= before.push(c));
        }
        let (_a, _b, k) = char_units(c);
        n = n.saturating_add(k);
    }
    proof {
        assert(s@.subrange(0, s@.len() as int) =~= s@);
    }
    n
}

/// Converts text to a null-terminated UTF-16 buffer.
pub fn to_wide(s: &str) -> (r: Vec<u16>)
    ensures
        r@ == wide_of(s@),
{
    let mut result: Vec<u16> = Vec::new();
    push_utf16(&mut result, s);
    result.push(0);
    proof {
        assert(Seq::<u16>::empty() + utf16_of(s@) =~= utf16_of(s@));
    }
    result
}

/// Appends a terminator to a path's native UTF-16 units.
pub fn path_to_wide(path: &[u16]) -> (r: Vec<u16>)
    ensures
        r@ == path@.push(0u16),
{
    let mut result: Vec<u16> = Vec::with_capacity(path.len().saturating_add(1));
    let mut i: usize = 0;
    while i < path.len()
        invariant
            i <= path@.len(),
            result@ == path@.subrange(0, i as int),
        decreases path@.len() - i,
    {
        result.push(path[i]);
        i = i + 1;
        proof {
            assert(result@ =~= path@.subrange(0, i as int));
        }
    }
    result.push(0);
    proof {
        assert(path@.subrange(0, path@.len() as int) =~= path@);
    }
    result
}

/// Relies on `String::from_utf16`: it returns the decoded text when the units are
/// valid UTF-16 (every surrogate in a high-then-low pair), and an error otherwise.
#[verifier::external_body]
fn string_from_utf16(units: &[u16]) -> (r: Option<String>)
    ensures
        match r {
            Some(t) => decode_utf16(units@) == Some(t@),
            None => decode_utf16(units@) is None,
        },
{
    String::from_utf16(units).ok()
}

/// Relies on `String`'s `FromIterator<char>`: the string holds the characters in order.
#[verifier::external_body]
pub(crate) fn string_of_chars(cs: Vec<char>) -> (r: String)
    ensures
        r@ == cs@,
{
    String::from_iter(cs)
}

/// Appends the characters of `s` to `out`.
pub fn push_chars(out: &mut Vec<char>, s: &str)
    ensures
        final(out)@ == old(out)@ + s@,
{
    let ghost start = out@;
    for c in it: s.chars()
        invariant
            it.seq() == s@,
            0 <= it.index() <= s@.len(),
            out@ == start + s@.subrange(0, it.index() as int),
    {
        out.push(c);
        proof {
            assert(out@ =~= start + s@.subrange(0, it.index() + 1));
        }
    }
    proof {
        assert(s@.subrange(0, s@.len() as int) =~= s@);
    }
}

/// The decimal digit for `d`, below ten.
pub open spec fn digit_char(d: nat) -> char {
    (48 + d) as char
}

/// The decimal form of `n`, without leading zeros.
pub open spec fn decimal(n: nat) -> Seq<char>
    decreases n,
{
    if n < 10 {
        seq![digit_char(n)]
    } else {
        decimal(n / 10).push(digit_char(n % 10))
    }
}

/// Appends the decimal form of `n` to `out`.
pub fn push_decimal(out: &mut Vec<char>, n: u32)
    ensures
        final(out)@ == old(out)@ + decimal(n as nat),
    decreases n,
{
    if n >= 10 {
        push_decimal(out, n / 10);
    }
    let d: u8 = (n % 10) as u8;
    out.push((48u8 + d) as char);
    proof {
        assert(((48u8 + d) as char) == digit_char((n % 10) as nat));
        if n >= 10 {
            assert(old(out)@ + decimal((n / 10) as nat) + seq![digit_char((n % 10) as nat)]
                =~= old(out)@ + decimal(n as nat));
        } else {
            assert(old(out)@.push(digit_char(n as nat)) =~= old(out)@ + decimal(n as nat));
        }
    }
}

/// Index of the first zero unit, or the length when there is none.
pub fn nul_position(wide: &[u16]) -> (r: usize)
    ensures
        r <= wide@.len(),
        wide@.subrange(0, r as int) == before_nul(wide@),
{
    let mut i: usize = 0;
    while i < wide.len() && wide[i] != 0
        invariant
            i <= wide@.len(),
            forall|j: int| 0 <= j < i ==> wide@[j] != 0,
        decreases wide@.len() - i,
    {
        i = i + 1;
    }
    proof {
        lemma_before_nul_prefix(wide@, i as int);
    }
    i
}

proof fn lemma_before_nul_prefix(u: Seq<u16>, i: int)
    requires
        0 <= i <= u.len(),
        forall|j: int| 0 <= j < i ==> u[j] != 0,
        i == u.len() || u[i] == 0,
    ensures
        u.subrange(0, i) == before_nul(u),
    decreases u.len(),
{
    if u.len() == 0 {
        assert(u.subrange(0, i) =~= u);
    } else if i == 0 {
        assert(u.subrange(0, i) =~= Seq::<u16>::empty());
    } else {
        let t = u.subrange(1, u.len() as int);
        assert forall|j: int| 0 <= j < i - 1 implies t[j] != 0 by {
            assert(t[j] == u[j + 1]);
        }
        lemma_before_nul_prefix(t, i - 1);
        assert(u.subrange(0, i) =~= seq![u[0]] + t.subrange(0, i - 1));
    }
}

/// Converts a UTF-16 buffer to text, reading up to its first zero unit.
pub fn from_wide(wide: &[u16]) -> (r: Result<String, Error>)
    ensures
        match r {
            Ok(t) => from_wide_spec(wide@) == Ok::<Seq<char>, ()>(t@),
            Err(e) => from_wide_spec(wide@) is Err && e is StringConversion,
        },
{
    let len = nul_position(wide);
    let content = &wide[0..len];
    match string_from_utf16(content) {
        Some(t) => Ok(t),
        None => Err(Error::string_conversion("Invalid UTF-16 sequence")),
    }
}

/// Converts the first `len` units of a buffer (or all of it, if shorter) to text.
pub fn from_wide_with_len(wide: &[u16], len: usize) -> (r: Result<String, Error>)
    ensures
        ({
            let n = if len <= wide@.len() { len as int } else { wide@.len() as int };
            match r {
                Ok(t) => decode_utf16(wide@.subrange(0, n)) == Some(t@),
                Err(e) => decode_utf16(wide@.subrange(0, n)) is None && e is StringConversion,
            }
        }),
{
    let actual_len = if len <= wide.len() {
        len
    } else {
        wide.len()
    };
    let content = &wide[0..actual_len];
    match string_from_utf16(content) {
        Some(t) => Ok(t),
        None => Err(Error::string_conversion("Invalid UTF-16 sequence")),
    }
}

/// Decoding an encoded text gives back the text before its first null character.
pub proof fn lemma_round_trip(s: Seq<char>)
    ensures
        from_wide_spec(wide_of(s)) == Ok::<Seq<char>, ()>(chars_before_nul(s)),
{
    lemma_before_nul_utf16_of(s);
    lemma_decode_utf16_of(chars_before_nul(s));
}

/// For text without a null character, decoding its encoding gives the text back.
pub proof fn decode_encode_round_trip(s: Seq<char>)
    requires
        forall|i: int| 0 <= i < s.len() ==> s[i] != '\0',
    ensures
        from_wide_spec(wide_of(s)) == Ok::<Seq<char>, ()>(s),
{
    lemma_round_trip(s);
    lemma_chars_before_nul_none(s);
}

/// An encoded buffer always ends with a zero unit, and the empty text encodes
/// to the terminator alone.
pub proof fn encode_is_terminated(s: Seq<char>)
    ensures
        wide_of(s).len() >= 1,
        wide_of(s).last() == 0,
        wide_of(Seq::<char>::empty()) == seq![0u16],
{
    assert(utf16_of(Seq::<char>::empty()) =~= Seq::<u16>::empty());
    assert(wide_of(Seq::<char>::empty()) =~= seq![0u16]);
}

/// When the first null character of `s` is at `k`, decoding the encoding of
/// `s` gives the first `k` characters.
pub proof fn decode_stops_at_embedded_nul(s: Seq<char>, k: int)
    requires
        0 <= k < s.len(),
        s[k] == '\0',
        forall|i: int| 0 <= i < k ==> s[i] != '\0',
    ensures
        from_wide_spec(wide_of(s)) == Ok::<Seq<char>, ()>(s.subrange(0, k)),
{
    lemma_round_trip(s);
    lemma_chars_before_nul_at(s, k);
}

/// A surrogate at `i` that is not part of a high-then-low pair: a low
/// surrogate not preceded by a high one, or a high surrogate not followed by a
/// low one.
pub open spec fn unpaired_surrogate_at(c: Seq<u16>, i: int) -> bool {
    ||| is_low_surrogate(c[i]) && (i == 0 || !is_high_surrogate(c[i - 1]))
    ||| is_high_surrogate(c[i]) && (i + 1 == c.len() || !is_low_surrogate(c[i + 1]))
}

proof fn lemma_decode_unpaired(c: Seq<u16>, i: int)
    requires
        0 <= i < c.len(),
        unpaired_surrogate_at(c, i),
    ensures
        decode_utf16(c) is None,
    decreases c.len(),
{
    if i > 0 {
        if is_high_surrogate(c[0]) {
            if c.len() >= 2 && is_low_surrogate(c[1]) {
                let rest = c.subrange(2, c.len() as int);
                assert(i >= 2);
                assert(rest[i - 2] == c[i]);
                if i - 2 > 0 {
                    assert(rest[i - 3] == c[i - 1]);
                }
                if i + 1 < c.len() {
                    assert(rest[i - 1] == c[i + 1]);
                }
                lemma_decode_unpaired(rest, i - 2);
            }
        } else if !is_low_surrogate(c[0]) {
            let rest = c.subrange(1, c.len() as int);
            assert(rest[i - 1] == c[i]);
            if i - 1 > 0 {
                assert(rest[i - 2] == c[i - 1]);
            }
            if i + 1 < c.len() {
                assert(rest[i] == c[i + 1]);
            }
            lemma_decode_unpaired(rest, i - 1);
        }
    }
}

/// A buffer whose text (before its first zero unit) holds a lone high
/// surrogate, a lone low surrogate, or a low surrogate before a high one is
/// rejected.
pub proof fn decode_rejects_unpaired_surrogates(u: Seq<u16>, i: int)
    requires
        0 <= i < before_nul(u).len(),
        unpaired_surrogate_at(before_nul(u), i),
    ensures
        from_wide_spec(u) is Err,
{
    lemma_decode_unpaired(before_nul(u), i);
}

proof fn lemma_chars_before_nul_at(s: Seq<char>, k: int)
    requires
        0 <= k < s.len(),
        s[k] == '\0',
        forall|i: int| 0 <= i < k ==> s[i] != '\0',
    ensures
        chars_before_nul(s) == s.subrange(0, k),
    decreases k,
{
    if k == 0 {
        assert(s.subrange(0, 0) =~= Seq::<char>::empty());
    } else {
        let t = s.subrange(1, s.len() as int);
        assert forall|i: int| 0 <= i < k - 1 implies t[i] != '\0' by {
            assert(t[i] == s[i + 1]);
        }
        lemma_chars_before_nul_at(t, k - 1);
        assert(s.subrange(0, k) =~= seq![s[0]] + t.subrange(0, k - 1));
    }
}

proof fn lemma_chars_before_nul_none(s: Seq<char>)
    requires
        forall|i: int| 0 <= i < s.len() ==> s[i] != '\0',
    ensures
        chars_before_nul(s) == s,
    decreases s.len(),
{
    if s.len() > 0 {
        let t = s.subrange(1, s.len() as int);
        assert forall|i: int| 0 <= i < t.len() implies t[i] != '\0' by {
            assert(t[i] == s[i + 1]);
        }
        lemma_chars_before_nul_none(t);
        assert(s =~= seq![s[0]] + t);
    }
}

} // verus!
