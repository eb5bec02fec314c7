//! Little-endian words and the byte-level reading and writing that the page
//! images are built from.
use vstd::prelude::*;

verus! {

/// Why bytes could not be read as a page.
#[derive(Clone, Copy, Debug, PartialEq, Eq)]
pub enum ParseError {
    /// The input ends before the page does.
    UnexpectedEnd,
}

/// The four bytes of `w`, least significant first.
pub open spec fn le_bytes(w: u32) -> Seq<u8> {
    seq![
        (w & 0xff) as u8,
        ((w >> 8) & 0xff) as u8,
        ((w >> 16) & 0xff) as u8,
        ((w >> 24) & 0xff) as u8,
    ]
}

/// The word whose little-endian bytes are the first four of `b`.
pub open spec fn le_word(b: Seq<u8>) -> u32 {
    (b[0] as u32) | ((b[1] as u32) << 8) | ((b[2] as u32) << 16) | ((b[3] as u32) << 24)
}

/// The word stored little-endian at offset `off` of `b`.
pub open spec fn word_at(b: Seq<u8>, off: int) -> u32 {
    le_word(b.subrange(off, off + 4))
}

/// A word whose low half is `low` and whose high half is the inverse of `low`:
/// the form of the words that guard their low half against corruption.
pub open spec fn with_inverse_high_half(low: u32) -> u32 {
    low | ((!low & 0xFFFF) << 16u32)
}

/// `n` zero bytes.
pub open spec fn zeros(n: nat) -> Seq<u8> {
    Seq::new(n, |i: int| 0u8)
}

proof fn lemma_word_from_its_bytes(w: u32)
    ensures
        (((w & 0xff) as u8) as u32) | ((((w >> 8) & 0xff) as u8 as u32) << 8) | ((((w >> 16)
            & 0xff) as u8 as u32) << 16) | ((((w >> 24) & 0xff) as u8 as u32) << 24) == w,
{
    assert((((w & 0xff) as u8) as u32) | ((((w >> 8) & 0xff) as u8 as u32) << 8) | ((((w >> 16)
        & 0xff) as u8 as u32) << 16) | ((((w >> 24) & 0xff) as u8 as u32) << 24) == w)
        by (bit_vector);
}

proof fn lemma_bytes_from_their_word(b0: u8, b1: u8, b2: u8, b3: u8)
    ensures
        ({
            let w = (b0 as u32) | ((b1 as u32) << 8) | ((b2 as u32) << 16) | ((b3 as u32) << 24);
            &&& (w & 0xff) as u8 == b0
            &&& ((w >> 8) & 0xff) as u8 == b1
            &&& ((w >> 16) & 0xff) as u8 == b2
            &&& ((w >> 24) & 0xff) as u8 == b3
        }),
{
    assert(({
        let w = (b0 as u32) | ((b1 as u32) << 8) | ((b2 as u32) << 16) | ((b3 as u32) << 24);
        &&& (w & 0xff) as u8 == b0
        &&& ((w >> 8) & 0xff) as u8 == b1
        &&& ((w >> 16) & 0xff) as u8 == b2
        &&& ((w >> 24) & 0xff) as u8 == b3
    })) by (bit_vector);
}

/// Reading back the bytes of a word gives the word.
pub proof fn lemma_le_word_of_le_bytes(w: u32)
    ensures
        le_bytes(w).len() == 4,
        le_word(le_bytes(w)) == w,
{
    lemma_word_from_its_bytes(w);
}

/// Writing the word read from four bytes gives the bytes.
pub proof fn lemma_le_bytes_of_le_word(b: Seq<u8>)
    requires
        b.len() == 4,
    ensures
        le_bytes(le_word(b)) == b,
{
    lemma_bytes_from_their_word(b[0], b[1], b[2], b[3]);
    assert(le_bytes(le_word(b)) =~= b);
}

proof fn lemma_word_value_of_bytes(b0: u8, b1: u8, b2: u8, b3: u8)
    ensures
        ({
            let w = (b0 as u32) | ((b1 as u32) << 8) | ((b2 as u32) << 16) | ((b3 as u32) << 24);
            &&& w as int == b0 + b1 * 256 + b2 * 65536 + b3 * 16777216
            &&& (w == 0) == (b0 == 0 && b1 == 0 && b2 == 0 && b3 == 0)
        }),
{
    assert({
        let w = (b0 as u32) | ((b1 as u32) << 8) | ((b2 as u32) << 16) | ((b3 as u32) << 24);
        &&& w as int == b0 + b1 * 256 + b2 * 65536 + b3 * 16777216
        &&& (w == 0) == (b0 == 0 && b1 == 0 && b2 == 0 && b3 == 0)
    }) by (bit_vector);
}

/// The word stored at `off` is the little-endian number its four bytes make, and
/// it is zero exactly when all four bytes are.
pub proof fn lemma_word_at_value(b: Seq<u8>, off: int)
    requires
        0 <= off,
        off + 4 <= b.len(),
    ensures
        word_at(b, off) as int == b[off] + b[off + 1] * 256 + b[off + 2] * 65536 + b[off + 3]
            * 16777216,
        (word_at(b, off) == 0) == (b[off] == 0 && b[off + 1] == 0 && b[off + 2] == 0 && b[off
            + 3] == 0),
{
    lemma_word_value_of_bytes(b[off], b[off + 1], b[off + 2], b[off + 3]);
}

/// Appends the little-endian bytes of `w`.
pub fn put_u32(out: &mut Vec<u8>, w: u32)
    ensures
        final(out)@ == old(out)@ + le_bytes(w),
{
    out.push((w & 0xff) as u8);
    out.push(((w >> 8) & 0xff) as u8);
    out.push(((w >> 16) & 0xff) as u8);
    out.push(((w >> 24) & 0xff) as u8);
    assert(out@ =~= old(out)@ + le_bytes(w));
}

/// Appends the bytes of `data`.
pub fn put_bytes(out: &mut Vec<u8>, data: &[u8])
    ensures
        final(out)@ == old(out)@ + data@,
{
    let mut i: usize = 0;
    while i < data.len()
        invariant
            i <= data@.len(),
            out@ == old(out)@ + data@.subrange(0, i as int),
        decreases data@.len() - i,
    {
        out.push(data[i]);
        i = i + 1;
        assert(out@ =~= old(out)@ + data@.subrange(0, i as int));
    }
    assert(data@.subrange(0, i as int) =~= data@);
}

/// Appends `n` zero bytes.
pub fn put_zeros(out: &mut Vec<u8>, n: usize)
    ensures
        final(out)@ == old(out)@ + zeros(n as nat),
{
    let mut i: usize = 0;
    while i < n
        invariant
            i <= n,
            out@ == old(out)@ + zeros(i as nat),
        decreases n - i,
    {
        out.push(0u8);
        i = i + 1;
        assert(out@ =~= old(out)@ + zeros(i as nat));
    }
}

/// The word stored little-endian at offset `pos` of `input`.
pub fn get_u32(input: &[u8], pos: usize) -> (w: u32)
    requires
        pos + 4 <= input@.len(),
    ensures
        w == word_at(input@, pos as int),
{
    let b0 = input[pos] as u32;
    let b1 = input[pos + 1] as u32;
    let b2 = input[pos + 2] as u32;
    let b3 = input[pos + 3] as u32;
    b0 | (b1 << 8) | (b2 << 16) | (b3 << 24)
}

/// Copies the `N` bytes of `input` that start at `pos` into `dst`.
pub fn copy_into<const N: usize>(dst: &mut [u8; N], input: &[u8], pos: usize)
    requires
        pos + N <= input@.len(),
    ensures
        final(dst)@ == input@.subrange(pos as int, pos + N),
{
    let len = input.len();
    let mut i: usize = 0;
    while i < N
        invariant
            i <= N,
            pos + N <= input@.len(),
            input@.len() == len,
            dst@.len() == N,
            forall|k: int| 0 <= k < i ==> dst@[k] == input@[pos + k],
        decreases N - i,
    {
        dst[i] = input[pos + i];
        i = i + 1;
    }
    assert(dst@ =~= input@.subrange(pos as int, pos + N));
}

/// The first 512 bytes of `data`, as an array.
pub fn first_512(data: &[u8]) -> (page: [u8; 512])
    requires
        512 <= data@.len(),
    ensures
        page@ == data@.subrange(0, 512),
{
    let mut page = [0u8; 512];
    copy_into(&mut page, data, 0);
    page
}

/// The two bytes of `h`, least significant first.
pub open spec fn le_bytes16(h: u16) -> Seq<u8> {
    seq![(h & 0xff) as u8, ((h >> 8) & 0xff) as u8]
}

/// Appends the little-endian bytes of `h`.
pub fn put_u16(out: &mut Vec<u8>, h: u16)
    ensures
        final(out)@ == old(out)@ + le_bytes16(h),
{
    out.push((h & 0xff) as u8);
    out.push(((h >> 8) & 0xff) as u8);
    assert(out@ =~= old(out)@ + le_bytes16(h));
}

/// Overwrites the bytes of `dst` from `pos` on with `data`.
pub fn write_at<const N: usize>(dst: &mut [u8; N], pos: usize, data: &[u8])
    requires
        pos + data@.len() <= N,
    ensures
        final(dst)@ == old(dst)@.subrange(0, pos as int) + data@ + old(dst)@.subrange(
            pos + data@.len(),
            N as int,
        ),
{
    let len = data.len();
    let mut i: usize = 0;
    while i < len
        invariant
            i <= len,
            len == data@.len(),
            pos + len <= N,
            dst@.len() == N,
            forall|k: int| 0 <= k < pos ==> dst@[k] == old(dst)@[k],
            forall|k: int| 0 <= k < i ==> dst@[pos + k] == data@[k],
            forall|k: int| pos + len <= k < N ==> dst@[k] == old(dst)@[k],
        decreases len - i,
    {
        dst[pos + i] = data[i];
        i = i + 1;
    }
    assert(dst@ =~= old(dst)@.subrange(0, pos as int) + data@ + old(dst)@.subrange(
        pos + data@.len(),
        N as int,
    ));
}

} // verus!
