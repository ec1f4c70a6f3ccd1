use vstd::prelude::*;

verus! {

/// The signed 16-bit value whose little-endian bytes are `lo`, `hi`.
pub open spec fn le_i16(lo: u8, hi: u8) -> int {
    let u: int = lo + 256 * hi;
    if u >= 32768 {
        u - 65536
    } else {
        u
    }
}

/// The unsigned 32-bit value whose little-endian bytes are `b0` .. `b3`.
pub open spec fn le_u32(b0: u8, b1: u8, b2: u8, b3: u8) -> int {
    b0 + 256 * b1 + 65536 * b2 + 16777216 * b3
}

/// PCM samples decoded from raw bytes, before they are scaled to floats.
pub enum PcmSamples {
    /// 16-bit signed samples; each stands for `sample / 32768`.
    Int16(Vec<i16>),
    /// The bit patterns of 32-bit IEEE floats.
    Float32Bits(Vec<u32>),
    /// A bit depth that is not supported: no samples.
    Unsupported,
}

/// Reads `bytes` as little-endian signed 16-bit samples, two bytes each; a
/// trailing odd byte is ignored.
pub fn pcm16_samples(bytes: &[u8]) -> (r: Vec<i16>)
    ensures
        r.len() == bytes.len() / 2,
        forall|i: int| 0 <= i < r.len() ==> #[trigger] r[i] == le_i16(bytes[2 * i], bytes[2 * i + 1]),
{
    let n: usize = bytes.len() / 2;
    let mut r: Vec<i16> = Vec::with_capacity(n);
    let mut k: usize = 0;
    while k < n
        invariant
            n == bytes.len() / 2,
            k <= n,
            r.len() == k,
            forall|i: int| 0 <= i < r.len() ==> #[trigger] r[i] == le_i16(bytes[2 * i], bytes[2 * i + 1]),
        decreases n - k,
    {
        let lo: u8 = bytes[2 * k];
        let hi: u8 = bytes[2 * k + 1];
        let u: u32 = lo as u32 + (hi as u32) * 256;
        let v: i16 = if u >= 32768 {
            (u as i32 - 65536) as i16
        } else {
            u as i16
        };
        r.push(v);
        k = k + 1;
    }
    r
}

/// Reads `bytes` as little-endian 32-bit words, four bytes each. When the
/// length is not a multiple of four nothing is read and the result is empty.
pub fn pcm32_words(bytes: &[u8]) -> (r: Vec<u32>)
    ensures
        bytes.len() % 4 != 0 ==> r.len() == 0,
        bytes.len() % 4 == 0 ==> r.len() == bytes.len() / 4,
        forall|i: int|
            0 <= i < r.len() ==> #[trigger] r[i] == le_u32(
                bytes[4 * i],
                bytes[4 * i + 1],
                bytes[4 * i + 2],
                bytes[4 * i + 3],
            ),
{
    if bytes.len() % 4 != 0 {
        return Vec::new();
    }
    let n: usize = bytes.len() / 4;
    let mut r: Vec<u32> = Vec::with_capacity(n);
    let mut k: usize = 0;
    while k < n
        invariant
            n == bytes.len() / 4,
            k <= n,
            r.len() == k,
            forall|i: int|
                0 <= i < r.len() ==> #[trigger] r[i] == le_u32(
                    bytes[4 * i],
                    bytes[4 * i + 1],
                    bytes[4 * i + 2],
                    bytes[4 * i + 3],
                ),
        decreases n - k,
    {
        let b0: u8 = bytes[4 * k];
        let b1: u8 = bytes[4 * k + 1];
        let b2: u8 = bytes[4 * k + 2];
        let b3: u8 = bytes[4 * k + 3];
        let w: u32 = b0 as u32 + (b1 as u32) * 256 + (b2 as u32) * 65536 + (b3 as u32) * 16777216;
        r.push(w);
        k = k + 1;
    }
    r
}

/// Decodes `bytes` by bit depth: 16 gives signed 16-bit samples, 32 gives
/// float bit patterns, any other depth gives no samples.
pub fn decode_pcm(bytes: &[u8], bit_depth: usize) -> (r: PcmSamples)
    ensures
        bit_depth == 16 ==> (r matches PcmSamples::Int16(v) && v@ == pcm16_samples_spec(bytes@)),
        bit_depth == 32 ==> (r matches PcmSamples::Float32Bits(v) && v@ == pcm32_words_spec(bytes@)),
        bit_depth != 16 && bit_depth != 32 ==> r is Unsupported,
{
    if bit_depth == 16 {
        let v = pcm16_samples(bytes);
        proof { lemma_pcm16_unique(bytes@, v@); }
        PcmSamples::Int16(v)
    } else if bit_depth == 32 {
        let v = pcm32_words(bytes);
        proof { lemma_pcm32_unique(bytes@, v@); }
        PcmSamples::Float32Bits(v)
    } else {
        PcmSamples::Unsupported
    }
}

/// The samples `pcm16_samples` reads from `bytes`.
pub open spec fn pcm16_samples_spec(bytes: Seq<u8>) -> Seq<i16> {
    Seq::new(bytes.len() / 2, |i: int| le_i16(bytes[2 * i], bytes[2 * i + 1]) as i16)
}

/// The words `pcm32_words` reads from `bytes`.
pub open spec fn pcm32_words_spec(bytes: Seq<u8>) -> Seq<u32> {
    if bytes.len() % 4 != 0 {
        Seq::empty()
    } else {
        Seq::new(
            bytes.len() / 4,
            |i: int| le_u32(bytes[4 * i], bytes[4 * i + 1], bytes[4 * i + 2], bytes[4 * i + 3]) as u32,
        )
    }
}

proof fn lemma_pcm16_unique(bytes: Seq<u8>, v: Seq<i16>)
    requires
        v.len() == bytes.len() / 2,
        forall|i: int| 0 <= i < v.len() ==> #[trigger] v[i] == le_i16(bytes[2 * i], bytes[2 * i + 1]),
    ensures
        v == pcm16_samples_spec(bytes),
{
    assert(v =~= pcm16_samples_spec(bytes));
}

proof fn lemma_pcm32_unique(bytes: Seq<u8>, v: Seq<u32>)
    requires
        bytes.len() % 4 != 0 ==> v.len() == 0,
        bytes.len() % 4 == 0 ==> v.len() == bytes.len() / 4,
        forall|i: int|
            0 <= i < v.len() ==> #[trigger] v[i] == le_u32(
                bytes[4 * i],
                bytes[4 * i + 1],
                bytes[4 * i + 2],
                bytes[4 * i + 3],
            ),
    ensures
        v == pcm32_words_spec(bytes),
{
    assert(v =~= pcm32_words_spec(bytes));
}

/// A 16-bit sample is the two's-complement reading of its bytes: it lies in
/// the signed 16-bit range, and modulo 2^16 it is the low byte plus 256 times
/// the high byte.
pub proof fn lemma_le_i16_reads_bytes(lo: u8, hi: u8)
    ensures
        -32768 <= le_i16(lo, hi) <= 32767,
        (le_i16(lo, hi) + 65536) % 65536 == lo + 256 * hi,
        (le_i16(lo, hi) < 0) == (hi >= 128),
{
}

/// A 32-bit word read little-endian: its lowest byte is the first byte, the
/// next byte the second, and so on.
pub proof fn lemma_le_u32_reads_bytes(b0: u8, b1: u8, b2: u8, b3: u8)
    ensures
        0 <= le_u32(b0, b1, b2, b3) < 0x1_0000_0000,
        le_u32(b0, b1, b2, b3) % 256 == b0,
        (le_u32(b0, b1, b2, b3) / 256) % 256 == b1,
        (le_u32(b0, b1, b2, b3) / 65536) % 256 == b2,
        le_u32(b0, b1, b2, b3) / 16777216 == b3,
{
}

} // verus!
