//! Marshaling of wide-character (UTF-16) native buffers into owned strings.
//!
//! Native string fields carry no length: the text ends at the first zero unit.
//! A fixed-capacity buffer whose value filled it completely has no terminator
//! at all; the whole buffer is then taken, which is how over-long paths arrive
//! truncated.

use vstd::prelude::*;

verus! {

/// Index of the first zero unit in `s`, or `s.len()` when none occurs.
pub open spec fn nul_index(s: Seq<u16>) -> int
    decreases s.len(),
{
    if s.len() == 0 {
        0
    } else if s[0] == 0 {
        0
    } else {
        1 + nul_index(s.drop_first())
    }
}

/// The units a wide-character field holds: everything before its first
/// terminator, or the whole buffer when no terminator occurs.
pub open spec fn wide_prefix(s: Seq<u16>) -> Seq<u16> {
    s.take(nul_index(s))
}

/// `nul_index` is the least index holding a zero unit (the length when none does).
proof fn lemma_nul_index_is(s: Seq<u16>, i: int)
    requires
        0 <= i <= s.len(),
        forall|k: int| 0 <= k < i ==> s[k] != 0,
        i == s.len() || s[i] == 0,
    ensures
        nul_index(s) == i,
    decreases s.len(),
{
    if s.len() == 0 {
    } else if s[0] == 0 {
        assert(i == 0);
    } else {
        assert(s[0] != 0);
        assert(i >= 1);
        let t = s.drop_first();
        assert(forall|k: int| 0 <= k < i - 1 ==> t[k] == s[k + 1] && t[k] != 0);
        lemma_nul_index_is(t, i - 1);
    }
}

/// Copy the units of `buf` before its first terminator.
pub fn wide_prefix_units(buf: &Vec<u16>) -> (p: Vec<u16>)
    ensures
        p@ == wide_prefix(buf@),
{
    let mut p: Vec<u16> = Vec::new();
    let mut i: usize = 0;
    while i < buf.len()
        invariant
            0 <= i <= buf@.len(),
            p@ == buf@.take(i as int),
            forall|k: int| 0 <= k < i ==> buf@[k] != 0,
        decreases buf@.len() - i,
    {
        if buf[i] == 0 {
            proof {
                lemma_nul_index_is(buf@, i as int);
            }
            return p;
        }
        let u = buf[i];
        p.push(u);
        proof {
            assert(buf@.take(i + 1) =~= buf@.take(i as int).push(buf@[i as int]));
        }
        i = i + 1;
    }
    proof {
        lemma_nul_index_is(buf@, i as int);
    }
    p
}

/// What `String::from_utf16_lossy` returns for a given unit sequence: the
/// decoding depends on the units alone.
pub uninterp spec fn utf16_lossy(units: Seq<u16>) -> Seq<char>;

/// Relies on std's `String::from_utf16_lossy`: decodes UTF-16 units into a
/// string, putting the replacement character where a sequence is ill-formed;
/// no units decode to no characters.
#[verifier::external_body]
pub(crate) fn utf16_units_to_string(units: &[u16]) -> (r: String)
    ensures
        r@ == utf16_lossy(units@),
        units@.len() == 0 ==> r@.len() == 0,
{
    String::from_utf16_lossy(units)
}

/// Decode a wide-character native field: the units before its first
/// terminator, read as UTF-16.
pub fn decode_wide(buf: &Vec<u16>) -> (s: String)
    ensures
        s@ == utf16_lossy(wide_prefix(buf@)),
{
    let p = wide_prefix_units(buf);
    utf16_units_to_string(p.as_slice())
}

} // verus!
