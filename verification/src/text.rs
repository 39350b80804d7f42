//! Fixed-width, null-terminated text buffers and their readable form.
//!
//! Device identities and capture entries carry names and paths in fixed
//! byte buffers: a copied prefix, a null terminator, zero padding. Reading
//! one back takes the bytes up to the first null and decodes them
//! leniently for diagnostics.

use vstd::prelude::*;

verus! {

/// The content of a fixed-width buffer after a C-string write: the first
/// `width - 1` bytes of `src` at most, then zeros — so the buffer is
/// always null-terminated when it has any room at all.
pub open spec fn spec_c_padded(src: Seq<u8>, width: int) -> Seq<u8> {
    Seq::<u8>::new(
        width as nat,
        |i: int|
            if i < src.len() && i < width - 1 {
                src[i]
            } else {
                0u8
            },
    )
}

/// Writes `src` into the fixed buffer `dest` as a bounded, null-terminated
/// C string: at most `dest.len() - 1` bytes are copied, a null follows,
/// and the rest is zeroed. An empty buffer is left alone.
pub fn write_c_string(dest: &mut Vec<u8>, src: &[u8])
    ensures
        final(dest)@.len() == old(dest)@.len(),
        old(dest)@.len() == 0 ==> final(dest)@ == old(dest)@,
        old(dest)@.len() > 0 ==> final(dest)@ == spec_c_padded(src@, old(dest)@.len() as int),
{
    let width = dest.len();
    if width == 0 {
        return;
    }
    let max = width - 1;
    let count = if src.len() < max {
        src.len()
    } else {
        max
    };
    let mut i: usize = 0;
    while i < count
        invariant
            count <= max,
            max == width - 1,
            width == dest@.len(),
            count <= src@.len(),
            i <= count,
            forall|j: int| 0 <= j < i ==> dest@[j] == src@[j],
            forall|j: int| i <= j < width ==> dest@[j] == old(dest)@[j],
        decreases count - i,
    {
        dest.set(i, src[i]);
        i = i + 1;
    }
    while i < width
        invariant
            count <= max < width,
            width == dest@.len(),
            count <= src@.len(),
            count <= i <= width,
            forall|j: int| 0 <= j < count ==> dest@[j] == src@[j],
            forall|j: int| count <= j < i ==> dest@[j] == 0,
        decreases width - i,
    {
        dest.set(i, 0);
        i = i + 1;
    }
    proof {
        assert(dest@ =~= spec_c_padded(src@, width as int));
    }
}

/// Where the readable part of a null-terminated buffer ends: the index of
/// the first null byte, or the buffer's length if none occurs.
pub open spec fn spec_nul_bound(bytes: Seq<u8>) -> int
    decreases bytes.len(),
{
    if bytes.len() == 0 {
        0
    } else if bytes[0] == 0 {
        0
    } else {
        1 + spec_nul_bound(bytes.skip(1))
    }
}

/// The first-null bound is characterized by its prefix: if everything
/// before `i` is non-null and `i` is the end or a null, the bound is `i`.
pub proof fn lemma_nul_bound(bytes: Seq<u8>, i: int)
    requires
        0 <= i <= bytes.len(),
        forall|j: int| 0 <= j < i ==> bytes[j] != 0,
        i == bytes.len() || bytes[i] == 0,
    ensures
        spec_nul_bound(bytes) == i,
    decreases bytes.len(),
{
    if bytes.len() > 0 && i > 0 {
        lemma_nul_bound(bytes.skip(1), i - 1);
    }
}

/// The characters that stand for the given bytes under lenient UTF-8
/// decoding. Relies on the standard library's lossy decoding; the result
/// is a function of the bytes alone.
pub uninterp spec fn lossy_decode(bytes: Seq<u8>) -> Seq<char>;

/// Relies on String::from_utf8_lossy: decodes UTF-8 leniently, replacing
/// invalid sequences; ASCII bytes, being valid UTF-8, decode to
/// themselves.
#[verifier::external_body]
fn lossy_utf8(bytes: &[u8]) -> (s: String)
    ensures
        s@ == lossy_decode(bytes@),
        (forall|i: int| 0 <= i < bytes@.len() ==> bytes@[i] < 0x80) ==> s@ == bytes@.map_values(
            |b: u8| b as char,
        ),
{
    String::from_utf8_lossy(bytes).into_owned()
}

/// Reads a fixed null-terminated buffer back as text: the bytes up to the
/// first null, decoded leniently.
pub fn bytes_to_string(buf: &[u8]) -> (s: String)
    ensures
        s@ == lossy_decode(buf@.subrange(0, spec_nul_bound(buf@))),
{
    let mut end: usize = 0;
    let n = buf.len();
    while end < n && buf[end] != 0
        invariant
            n == buf@.len(),
            end <= n,
            forall|j: int| 0 <= j < end ==> buf@[j] != 0,
        decreases n - end,
    {
        end = end + 1;
    }
    proof {
        lemma_nul_bound(buf@, end as int);
    }
    let head = vstd::slice::slice_subrange(buf, 0, end);
    lossy_utf8(head)
}

} // verus!
