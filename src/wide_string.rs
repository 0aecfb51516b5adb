//! An owned, null-terminated UTF-16 string that keeps short contents inline.
use vstd::prelude::*;
use vstd::string::StringExecFns;

use crate::string::{
    char_units, from_wide, path_to_wide, from_wide_spec, lemma_utf16_length_prefix, lemma_utf16_of_push,
    to_wide, utf16_len, utf16_length, utf16_of, wide_of,
};

verus! {

/// Code units held inline, terminator included: buffers of this size or less
/// need no heap allocation.
pub const INLINE_CAP: usize = 23;

/// An owned UTF-16 buffer for native wide-character interfaces. Its view is
/// the whole buffer, terminator included. Whether it is stored inline is
/// decided once, when it is made.
pub struct WideString {
    repr: WideStringRepr,
}

enum WideStringRepr {
    /// The first `len` units of `buf` (terminator included).
    Inline { buf: [u16; INLINE_CAP], len: u8 },
    /// A heap buffer.
    Heap(Vec<u16>),
}

impl View for WideString {
    type V = Seq<u16>;

    closed spec fn view(&self) -> Seq<u16> {
        match self.repr {
            WideStringRepr::Inline { buf, len } => buf@.subrange(0, len as int),
            WideStringRepr::Heap(v) => v@,
        }
    }
}

/// The length of a buffer without its terminator.
pub open spec fn content_len(u: Seq<u16>) -> nat {
    if u.len() == 0 {
        0
    } else {
        (u.len() - 1) as nat
    }
}

/// The text a lossy conversion gives for a buffer.
pub open spec fn lossy_text(u: Seq<u16>) -> Seq<char> {
    match from_wide_spec(u) {
        Ok(t) => t,
        Err(_) => "\u{FFFD}"@,
    }
}

/// A string made from text `s` reports the encoding's length, without the
/// terminator, as its length.
pub proof fn wide_string_length(s: Seq<char>)
    ensures
        content_len(wide_of(s)) == utf16_length(s),
{
}

impl WideString {
    #[verifier::type_invariant]
    spec fn inv(&self) -> bool {
        match self.repr {
            WideStringRepr::Inline { buf, len } => len <= INLINE_CAP,
            WideStringRepr::Heap(_) => true,
        }
    }

    /// True when the contents are stored inline.
    pub closed spec fn inline(&self) -> bool {
        self.repr is Inline
    }

    /// Makes the null-terminated UTF-16 form of `s`, inline when it fits.
    pub fn new(s: &str) -> (r: WideString)
        ensures
            r@ == wide_of(s@),
            r.inline() <==> utf16_length(s@) + 1 <= INLINE_CAP,
    {
        let utf16_count = utf16_len(s);
        if utf16_count < INLINE_CAP {
            let mut buf: [u16; INLINE_CAP] = [0u16; INLINE_CAP];
            let mut idx: usize = 0;
            for c in it: s.chars()
                invariant
                    it.seq() == s@,
                    0 <= it.index() <= s@.len(),
                    utf16_length(s@) < INLINE_CAP,
                    idx == utf16_length(s@.subrange(0, it.index() as int)),
                    buf@.subrange(0, idx as int) == utf16_of(s@.subrange(0, it.index() as int)),
                    buf@.len() == INLINE_CAP,
            {
                let ghost before = s@.subrange(0, it.index() as int);
                let ghost old_buf = buf@;
                proof {
                    lemma_utf16_of_push(before, c);
                    assert(s@.subrange(0, it.index() + 1) =~= before.push(c));
                    lemma_utf16_length_prefix(s@, it.index() + 1);
                }
                let (a, b, n) = char_units(c);
                buf[idx] = a;
                if n == 2 {
                    buf[idx + 1] = b;
                }
                proof {
                    assert(buf@.subrange(0, idx + n) =~= old_buf.subrange(0, idx as int)
                        + crate::string::utf16_of_char(c));
                }
                idx = idx + n;
            }
            proof {
                assert(s@.subrange(0, s@.len() as int) =~= s@);
            }
            buf[idx] = 0;
            let r = WideString { repr: WideStringRepr::Inline { buf, len: (idx + 1) as u8 } };
            proof {
                assert(buf@.subrange(0, idx + 1) =~= wide_of(s@));
            }
            r
        } else {
            WideString { repr: WideStringRepr::Heap(to_wide(s)) }
        }
    }

    /// An empty string, holding just its terminator, whose storage can take
    /// `capacity` units (terminator included): inline when that fits,
    /// otherwise on the heap.
    pub fn with_capacity(capacity: usize) -> (r: WideString)
        ensures
            r.inline() <==> capacity <= INLINE_CAP,
            r@ == seq![0u16],
    {
        if capacity <= INLINE_CAP {
            let buf: [u16; INLINE_CAP] = [0u16; INLINE_CAP];
            proof {
                assert(buf@.subrange(0, 1) =~= seq![0u16]);
            }
            WideString { repr: WideStringRepr::Inline { buf, len: 1 } }
        } else {
            let mut buffer: Vec<u16> = Vec::with_capacity(capacity);
            buffer.push(0);
            proof {
                assert(buffer@ =~= seq![0u16]);
            }
            WideString { repr: WideStringRepr::Heap(buffer) }
        }
    }

    /// Makes the null-terminated form of a path given by its native UTF-16
    /// units, inline when it fits.
    pub fn from_path(path: &[u16]) -> (r: WideString)
        ensures
            r@ == path@.push(0u16),
            r.inline() <==> path@.len() + 1 <= INLINE_CAP,
    {
        let wide = path_to_wide(path);
        WideString::from_vec(wide)
    }

    /// Takes a buffer that should already be null-terminated; it is stored
    /// inline when it fits.
    pub fn from_vec(vec: Vec<u16>) -> (r: WideString)
        ensures
            r@ == vec@,
            r.inline() <==> vec@.len() <= INLINE_CAP,
    {
        if vec.len() <= INLINE_CAP {
            let mut buf: [u16; INLINE_CAP] = [0u16; INLINE_CAP];
            let mut i: usize = 0;
            while i < vec.len()
                invariant
                    i <= vec@.len() <= INLINE_CAP,
                    buf@.len() == INLINE_CAP,
                    buf@.subrange(0, i as int) == vec@.subrange(0, i as int),
                decreases vec@.len() - i,
            {
                let ghost old_buf = buf@;
                buf[i] = vec[i];
                proof {
                    assert(buf@.subrange(0, i + 1) =~= old_buf.subrange(0, i as int).push(vec@[i as int]));
                    assert(vec@.subrange(0, i + 1) =~= vec@.subrange(0, i as int).push(vec@[i as int]));
                }
                i = i + 1;
            }
            proof {
                assert(vec@.subrange(0, vec@.len() as int) =~= vec@);
            }
            WideString { repr: WideStringRepr::Inline { buf, len: vec.len() as u8 } }
        } else {
            WideString { repr: WideStringRepr::Heap(vec) }
        }
    }

    /// The length in code units, without the terminator.
    pub fn len(&self) -> (r: usize)
        ensures
            r == content_len(self@),
    {
        proof {
            use_type_invariant(self);
        }
        match &self.repr {
            WideStringRepr::Inline { len, .. } => (*len as usize).saturating_sub(1),
            WideStringRepr::Heap(vec) => vec.len().saturating_sub(1),
        }
    }

    /// True when there are no code units before the terminator.
    pub fn is_empty(&self) -> (r: bool)
        ensures
            r == (content_len(self@) == 0),
    {
        self.len() == 0
    }

    /// True when the contents are stored inline, with no heap allocation.
    pub fn is_inline(&self) -> (r: bool)
        ensures
            r == self.inline(),
    {
        match &self.repr {
            WideStringRepr::Inline { .. } => true,
            WideStringRepr::Heap(_) => false,
        }
    }

    /// The whole buffer, terminator included.
    pub fn as_slice(&self) -> (r: &[u16])
        ensures
            r@ == self@,
    {
        proof {
            use_type_invariant(self);
        }
        match &self.repr {
            WideStringRepr::Inline { buf, len } => {
                let s: &[u16] = buf.as_slice();
                &s[0..*len as usize]
            },
            WideStringRepr::Heap(vec) => vec.as_slice(),
        }
    }

    /// The text before the first zero unit, or a replacement character when
    /// that is not valid UTF-16.
    pub fn to_string_lossy(&self) -> (r: String)
        ensures
            r@ == lossy_text(self@),
    {
        match from_wide(self.as_slice()) {
            Ok(t) => t,
            Err(_) => String::from_str("\u{FFFD}"),
        }
    }
}

impl Clone for WideString {
    fn clone(&self) -> (r: Self)
        ensures
            r@ == self@,
            r.inline() == self.inline(),
    {
        proof {
            use_type_invariant(self);
        }
        match &self.repr {
            WideStringRepr::Inline { buf, len } => WideString {
                repr: WideStringRepr::Inline { buf: *buf, len: *len },
            },
            WideStringRepr::Heap(vec) => WideString { repr: WideStringRepr::Heap(vec.clone()) },
        }
    }
}

} // verus!
