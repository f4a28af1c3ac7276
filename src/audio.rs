use vstd::prelude::*;

verus! {

/// Sample rate, in hertz, of the audio handed to speech recognition.
pub const SAMPLE_RATE: u32 = 16000;

/// The signed 16-bit little-endian sample that starts at byte `2 * i` of `bytes`.
pub open spec fn s16le_at(bytes: Seq<u8>, i: int) -> int {
    let u = bytes[2 * i + 1] as int * 256 + bytes[2 * i] as int;
    if u >= 32768 {
        u - 65536
    } else {
        u
    }
}

/// Decodes mono PCM in signed 16-bit little-endian form: one sample for each
/// whole pair of bytes, in order; a trailing odd byte is ignored.
pub fn decode_s16le(bytes: &Vec<u8>) -> (r: Vec<i16>)
    ensures
        r@.len() == bytes@.len() / 2,
        forall|i: int| 0 <= i < r@.len() ==> r@[i] as int == s16le_at(bytes@, i),
{
    let len: usize = bytes.len();
    let n: usize = len / 2;
    let mut r: Vec<i16> = Vec::with_capacity(n);
    let mut i: usize = 0;
    assert(2 * n <= bytes@.len());
    while i < n
        invariant
            n == bytes@.len() / 2,
            2 * n <= bytes@.len(),
            len == bytes@.len(),
            i <= n,
            r@.len() == i,
            forall|j: int| 0 <= j < i ==> r@[j] as int == s16le_at(bytes@, j),
        decreases n - i,
    {
        let lo: u8 = bytes[2 * i];
        let hi: u8 = bytes[2 * i + 1];
        let sample: i16 = if hi < 128 {
            (hi as i16) * 256 + lo as i16
        } else {
            ((hi as i32 - 256) * 256 + lo as i32) as i16
        };
        r.push(sample);
        i = i + 1;
    }
    r
}

} // verus!
