//! Audio buffer handling: device descriptions, chunk accumulation for
//! the batch backends, and PCM byte-to-sample conversion.

use vstd::prelude::*;
use vstd::slice::slice_subrange;

verus! {

/// One selectable input device; an empty name stands for the system
/// default.
#[derive(Clone, Debug)]
pub struct AudioDevice {
    pub name: String,
    pub is_default: bool,
}

/// All chunks joined in order into one buffer.
pub open spec fn spec_concat_chunks(chunks: Seq<Seq<u8>>) -> Seq<u8>
    decreases chunks.len(),
{
    if chunks.len() == 0 {
        Seq::empty()
    } else {
        chunks[0] + spec_concat_chunks(chunks.drop_first())
    }
}

proof fn lemma_concat_chunks_snoc(chunks: Seq<Seq<u8>>, c: Seq<u8>)
    ensures
        spec_concat_chunks(chunks.push(c)) == spec_concat_chunks(chunks) + c,
    decreases chunks.len(),
{
    if chunks.len() == 0 {
        assert(chunks.push(c).drop_first() =~= chunks);
        assert(spec_concat_chunks(chunks.push(c)) =~= spec_concat_chunks(chunks) + c);
    } else {
        assert(chunks.push(c).drop_first() =~= chunks.drop_first().push(c));
        lemma_concat_chunks_snoc(chunks.drop_first(), c);
        assert(spec_concat_chunks(chunks.push(c)) =~= spec_concat_chunks(chunks) + c);
    }
}

/// Joins the chunks received from the audio channel into one buffer,
/// in arrival order. Zero chunks yield an empty buffer.
pub fn accumulate_chunks(chunks: &Vec<Vec<u8>>) -> (r: Vec<u8>)
    ensures
        r@ == spec_concat_chunks(chunks.deep_view()),
        chunks@.len() == 0 ==> r@.len() == 0,
{
    let mut out: Vec<u8> = Vec::new();
    let mut i: usize = 0;
    while i < chunks.len()
        invariant
            i <= chunks@.len(),
            out@ == spec_concat_chunks(chunks.deep_view().take(i as int)),
        decreases chunks@.len() - i,
    {
        crate::codec::push_bytes(&mut out, chunks[i].as_slice());
        proof {
            lemma_concat_chunks_snoc(chunks.deep_view().take(i as int), chunks.deep_view()[i as int]);
            assert(chunks.deep_view().take(i as int).push(chunks.deep_view()[i as int])
                =~= chunks.deep_view().take(i as int + 1));
        }
        i = i + 1;
    }
    proof {
        assert(chunks.deep_view().take(chunks@.len() as int) =~= chunks.deep_view());
    }
    out
}

/// The signed 16-bit sample encoded by two little-endian bytes.
pub open spec fn spec_sample(lo: u8, hi: u8) -> i16 {
    (((hi as u16) << 8) | (lo as u16)) as i16
}

/// Interprets a PCM byte buffer as little-endian signed 16-bit mono
/// samples. A trailing odd byte is dropped.
pub fn pcm_to_samples(bytes: &[u8]) -> (r: Vec<i16>)
    ensures
        r@.len() == bytes@.len() / 2,
        forall|i: int|
            0 <= i < r@.len() ==> r@[i] == spec_sample(bytes@[2 * i], bytes@[2 * i + 1]),
{
    let n = bytes.len() / 2;
    let mut out: Vec<i16> = Vec::new();
    let mut i: usize = 0;
    while i < n
        invariant
            bytes@.len() <= usize::MAX,
            n == bytes@.len() / 2,
            i <= n,
            out@.len() == i,
            forall|j: int|
                0 <= j < i ==> out@[j] == spec_sample(bytes@[2 * j], bytes@[2 * j + 1]),
        decreases n - i,
    {
        let lo = bytes[2 * i];
        let hi = bytes[2 * i + 1];
        let value: u16 = ((hi as u16) << 8) | (lo as u16);
        out.push(#[verifier::truncate] (value as i16));
        i = i + 1;
    }
    out
}

} // verus!
