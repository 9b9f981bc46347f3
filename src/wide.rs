//! Wide (UTF-16) text as the hosting runtime reads and writes it.

use vstd::prelude::*;
use vstd::string::*;

verus! {

/// The UTF-16 code units of one character.
pub open spec fn utf16_units(c: char) -> Seq<u16> {
    let v = c as u32;
    if v < 0x10000 {
        seq![v as u16]
    } else {
        let w = (v - 0x10000) as u32;
        seq![(0xd800 + w / 0x400) as u16, (0xdc00 + w % 0x400) as u16]
    }
}

/// The UTF-16 code units of a text, without a terminator.
pub open spec fn utf16_encode(s: Seq<char>) -> Seq<u16>
    decreases s.len(),
{
    if s.len() == 0 {
        Seq::empty()
    } else {
        utf16_encode(s.drop_last()) + utf16_units(s.last())
    }
}

/// The text that lossy UTF-16 decoding yields for `units`.
pub uninterp spec fn utf16_lossy(units: Seq<u16>) -> Seq<char>;

/// Relies on String::from_utf16_lossy: it decodes the units, replacing only
/// invalid sequences, so units that encode a text decode to exactly that text.
#[verifier::external_body]
fn decode_lossy(units: &[u16]) -> (r: String)
    ensures
        r@ == utf16_lossy(units@),
        forall|s: Seq<char>| #[trigger] utf16_encode(s) == units@ ==> r@ == s,
{
    String::from_utf16_lossy(units)
}

/// Decodes wide text; units that encode a text give back exactly that text.
pub fn decode_wide(units: &[u16]) -> (r: String)
    ensures
        r@ == utf16_lossy(units@),
        forall|s: Seq<char>| #[trigger] utf16_encode(s) == units@ ==> r@ == s,
{
    decode_lossy(units)
}

/// The UTF-16 code units of `s`, without a terminator.
pub fn encode_wide(s: &str) -> (r: Vec<u16>)
    ensures
        r@ == utf16_encode(s@),
{
    let n = s.unicode_len();
    let mut out: Vec<u16> = Vec::new();
    let mut i: usize = 0;
    while i < n
        invariant
            n == s@.len(),
            i <= n,
            out@ == utf16_encode(s@.subrange(0, i as int)),
        decreases n - i,
    {
        let c = s.get_char(i);
        let v: u32 = c as u32;
        if v < 0x10000 {
            out.push(v as u16);
        } else {
            let w: u32 = v - 0x10000;
            out.push((0xd800 + w / 0x400) as u16);
            out.push((0xdc00 + w % 0x400) as u16);
        }
        assert(s@.subrange(0, i + 1).drop_last() =~= s@.subrange(0, i as int));
        i += 1;
    }
    assert(s@.subrange(0, n as int) =~= s@);
    out
}

/// The UTF-16 code units of `s` followed by the terminating zero that native
/// wide strings carry.
pub fn encode_wide_z(s: &str) -> (r: Vec<u16>)
    ensures
        r@ == utf16_encode(s@).push(0),
{
    let mut out = encode_wide(s);
    out.push(0);
    out
}

/// Text that can be handed to the runtime as a length-prefixed wide string.
pub trait WinStr {
    /// The code units of the text, without a terminator.
    spec fn wide(&self) -> Seq<u16>;

    /// The wide string to allocate: the code units and a terminating zero.
    fn to_bstr(&self) -> (r: Vec<u16>)
        ensures
            r@ == self.wide().push(0),
    ;

    /// The text decoded from the code units.
    fn to_string(&self) -> (r: String)
        ensures
            r@ == utf16_lossy(self.wide()),
    ;
}

impl WinStr for &str {
    open spec fn wide(&self) -> Seq<u16> {
        utf16_encode((*self)@)
    }

    fn to_bstr(&self) -> (r: Vec<u16>) {
        encode_wide_z(*self)
    }

    fn to_string(&self) -> (r: String) {
        let units = encode_wide(*self);
        decode_wide(units.as_slice())
    }
}

impl WinStr for String {
    open spec fn wide(&self) -> Seq<u16> {
        utf16_encode(self@)
    }

    fn to_bstr(&self) -> (r: Vec<u16>) {
        encode_wide_z(self.as_str())
    }

    fn to_string(&self) -> (r: String) {
        let units = encode_wide(self.as_str());
        decode_wide(units.as_slice())
    }
}

impl WinStr for &[u16] {
    open spec fn wide(&self) -> Seq<u16> {
        (*self)@
    }

    fn to_bstr(&self) -> (r: Vec<u16>) {
        let mut out: Vec<u16> = Vec::new();
        let mut i: usize = 0;
        while i < self.len()
            invariant
                i <= self@.len(),
                out@ == self@.subrange(0, i as int),
            decreases self@.len() - i,
        {
            out.push(self[i]);
            i += 1;
        }
        assert(out@ == self@.subrange(0, self@.len() as int));
        assert(self@.subrange(0, self@.len() as int) =~= self@);
        out.push(0);
        out
    }

    fn to_string(&self) -> (r: String) {
        decode_wide(*self)
    }
}

} // verus!
