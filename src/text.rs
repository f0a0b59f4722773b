//! Decoding of fixed-size, NUL-padded name buffers.

use vstd::prelude::*;
use vstd::string::*;
use vstd::utf8::*;

verus! {

/// The index of the first NUL byte from `i` on, or the length if there is none.
pub open spec fn nul_index(b: Seq<u8>, i: int) -> int
    decreases b.len() - i,
{
    if i < 0 || i >= b.len() {
        b.len() as int
    } else if b[i] == 0 {
        i
    } else {
        nul_index(b, i + 1)
    }
}

/// The bytes before the first NUL.
pub open spec fn until_nul(b: Seq<u8>) -> Seq<u8> {
    b.subrange(0, nul_index(b, 0))
}

/// What `String::from_utf8_lossy` makes of a byte sequence.
pub uninterp spec fn lossy_utf8_of(b: Seq<u8>) -> Seq<char>;

/// What `str::to_lowercase` makes of a text.
pub uninterp spec fn lowercase_of(s: Seq<char>) -> Seq<char>;

/// `s` with every non-overlapping occurrence of `pat`, found left to right,
/// removed.
pub open spec fn remove_all(s: Seq<char>, pat: Seq<char>) -> Seq<char>
    decreases s.len(),
{
    if s.len() == 0 || pat.len() == 0 {
        s
    } else if pat.len() <= s.len() && s.subrange(0, pat.len() as int) == pat {
        remove_all(s.subrange(pat.len() as int, s.len() as int), pat)
    } else {
        seq![s[0]] + remove_all(s.drop_first(), pat)
    }
}

/// Whether `pat` occurs in `s`.
pub open spec fn occurs_in(s: Seq<char>, pat: Seq<char>) -> bool {
    exists|i: int| 0 <= i && i + pat.len() <= s.len() && #[trigger] s.subrange(i, i + pat.len()) == pat
}

/// Relies on `String::from_utf8_lossy`: the result depends on the bytes alone,
/// valid UTF-8 comes back as the text it encodes, and as the rest becomes the
/// replacement character, bytes without a zero give text without a NUL.
#[verifier::external_body]
fn utf8_lossy(b: &[u8]) -> (r: String)
    ensures
        r@ == lossy_utf8_of(b@),
        valid_utf8(b@) ==> r@ == decode_utf8(b@),
        !b@.contains(0u8) ==> !r@.contains('\0'),
{
    String::from_utf8_lossy(b).to_string()
}

/// Relies on `str::to_lowercase`: the result depends on the text alone, and
/// the empty text stays empty.
#[verifier::external_body]
fn lowercase(s: &str) -> (r: String)
    ensures
        r@ == lowercase_of(s@),
        s@.len() == 0 ==> r@.len() == 0,
{
    s.to_lowercase()
}

/// Relies on `str::replace` with an empty replacement: every non-overlapping
/// match, found from the left, is removed.
#[verifier::external_body]
fn remove_matches(s: &str, pat: &str) -> (r: String)
    ensures
        r@ == remove_all(s@, pat@),
{
    s.replace(pat, "")
}

/// Decodes a NUL-padded buffer: the bytes before the first NUL, read as UTF-8
/// with invalid sequences replaced.
pub fn buffer_to_string(buffer: &[u8]) -> (r: String)
    ensures
        r@ == lossy_utf8_of(until_nul(buffer@)),
        valid_utf8(until_nul(buffer@)) ==> r@ == decode_utf8(until_nul(buffer@)),
        !r@.contains('\0'),
{
    let mut len: usize = 0;
    while len < buffer.len() && buffer[len] != 0
        invariant
            len <= buffer@.len(),
            nul_index(buffer@, 0) == nul_index(buffer@, len as int),
        decreases buffer@.len() - len,
    {
        len = len + 1;
    }
    proof {
        lemma_until_nul_has_no_zero(buffer@);
    }
    utf8_lossy(vstd::slice::slice_subrange(buffer, 0, len))
}

/// Lower-cases an identifier and removes every `weapon_` from it.
pub fn normalize_weapon_id(decoded: &str) -> (r: String)
    ensures
        r@ == remove_all(lowercase_of(decoded@), "weapon_"@),
{
    let lowered = lowercase(decoded);
    remove_matches(lowered.as_str(), "weapon_")
}

/// The weapon identifier that a NUL-padded name buffer holds.
pub open spec fn weapon_id_of(buffer: Seq<u8>) -> Seq<char> {
    remove_all(lowercase_of(lossy_utf8_of(until_nul(buffer))), "weapon_"@)
}

/// Decodes a weapon name buffer into its identifier; the result depends on the
/// buffer's bytes alone.
pub fn decode_weapon_id(buffer: &[u8]) -> (r: String)
    ensures
        r@ == weapon_id_of(buffer@),
{
    let decoded = buffer_to_string(buffer);
    normalize_weapon_id(decoded.as_str())
}

/// A text in which `pat` does not occur comes out of `remove_all` unchanged.
pub proof fn lemma_remove_all_absent(s: Seq<char>, pat: Seq<char>)
    requires
        !occurs_in(s, pat),
    ensures
        remove_all(s, pat) == s,
    decreases s.len(),
{
    if s.len() > 0 && pat.len() > 0 {
        if pat.len() <= s.len() {
            let z: int = 0;
            assert(s.subrange(z, z + pat.len()) != pat);
        }
        let t = s.drop_first();
        assert forall|i: int| 0 <= i && i + pat.len() <= t.len() implies #[trigger] t.subrange(
            i,
            i + pat.len(),
        ) != pat by {
            assert(t.subrange(i, i + pat.len()) =~= s.subrange(i + 1, i + 1 + pat.len()));
        }
        lemma_remove_all_absent(t, pat);
        assert(seq![s[0]] + t =~= s);
    }
}

/// Removing a pattern a second time changes nothing, wherever the first
/// removal left no occurrence of it behind.
pub proof fn lemma_remove_all_twice(s: Seq<char>, pat: Seq<char>)
    requires
        !occurs_in(remove_all(s, pat), pat),
    ensures
        remove_all(remove_all(s, pat), pat) == remove_all(s, pat),
{
    lemma_remove_all_absent(remove_all(s, pat), pat);
}

proof fn lemma_nul_index_bounds(b: Seq<u8>, i: int)
    requires
        0 <= i <= b.len(),
    ensures
        i <= nul_index(b, i) <= b.len(),
        forall|j: int| i <= j < nul_index(b, i) ==> b[j] != 0,
        (forall|j: int| i <= j < b.len() ==> b[j] != 0) ==> nul_index(b, i) == b.len(),
    decreases b.len() - i,
{
    if i < b.len() && b[i] != 0 {
        lemma_nul_index_bounds(b, i + 1);
    }
}

/// The bytes before the first NUL hold no zero; bytes without a zero are
/// kept whole.
pub proof fn lemma_until_nul_has_no_zero(b: Seq<u8>)
    ensures
        !until_nul(b).contains(0u8),
        !b.contains(0u8) ==> until_nul(b) == b,
{
    lemma_nul_index_bounds(b, 0);
    if until_nul(b).contains(0u8) {
        let k = choose|k: int| 0 <= k < until_nul(b).len() && until_nul(b)[k] == 0u8;
        assert(b[k] == 0);
    }
    if !b.contains(0u8) {
        assert forall|j: int| 0 <= j < b.len() implies b[j] != 0 by {
            if b[j] == 0 {
                assert(b.contains(0u8));
            }
        }
        assert(until_nul(b) =~= b);
    }
}

proof fn lemma_encode_scalar_no_zero(v: u32)
    requires
        v != 0,
    ensures
        !encode_scalar(v).contains(0u8),
{
    let e = encode_scalar(v);
    assert(v <= 0x7F && v != 0 ==> (v & 0x7F) as u8 != 0) by (bit_vector);
    assert(0xC0u8 | ((v >> 6u32) & 0x1F) as u8 != 0) by (bit_vector);
    assert(0xE0u8 | ((v >> 12u32) & 0x0F) as u8 != 0) by (bit_vector);
    assert(0xF0u8 | ((v >> 18u32) & 0x7) as u8 != 0) by (bit_vector);
    assert(0x80u8 | (v & 0x3F) as u8 != 0) by (bit_vector);
    assert(0x80u8 | ((v >> 6u32) & 0x3F) as u8 != 0) by (bit_vector);
    assert(0x80u8 | ((v >> 12u32) & 0x3F) as u8 != 0) by (bit_vector);
    assert forall|k: int| 0 <= k < e.len() implies e[k] != 0u8 by {}
}

proof fn lemma_encode_utf8_no_zero(t: Seq<char>)
    requires
        !t.contains('\0'),
    ensures
        !encode_utf8(t).contains(0u8),
    decreases t.len(),
{
    if t.len() > 0 {
        let c = t[0];
        assert(t.contains(c));
        if (c as u32) == 0 {
            char_u32_cast(c, 0u32);
            assert(c == '\0');
        }
        lemma_encode_scalar_no_zero(c as u32);
        let rest = t.drop_first();
        assert forall|k: int| 0 <= k < rest.len() implies rest[k] != '\0' by {
            assert(t[k + 1] == rest[k]);
            if rest[k] == '\0' {
                assert(t.contains('\0'));
            }
        }
        lemma_encode_utf8_no_zero(rest);
        let a = encode_scalar(c as u32);
        let b = encode_utf8(rest);
        assert forall|k: int| 0 <= k < (a + b).len() implies (a + b)[k] != 0u8 by {
            if k < a.len() {
                assert(!a.contains(0u8));
                if a[k] == 0u8 {
                    assert(a.contains(0u8));
                }
            } else {
                if b[k - a.len()] == 0u8 {
                    assert(b.contains(0u8));
                }
            }
        }
    }
}

/// Text without a NUL is stored as bytes that a name buffer reads whole and
/// that decode to the same text: decoding such a text's bytes again, as
/// `buffer_to_string` does, gives it back. Together with `buffer_to_string`
/// yielding text without a NUL, re-decoding a decoded name changes nothing.
pub proof fn lemma_decoded_name_redecodes(t: Seq<char>)
    requires
        !t.contains('\0'),
    ensures
        until_nul(encode_utf8(t)) == encode_utf8(t),
        valid_utf8(until_nul(encode_utf8(t))),
        decode_utf8(until_nul(encode_utf8(t))) == t,
{
    lemma_encode_utf8_no_zero(t);
    lemma_until_nul_has_no_zero(encode_utf8(t));
    encode_utf8_valid_utf8(t);
    encode_utf8_decode_utf8(t);
}

} // verus!
