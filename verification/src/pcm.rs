//! Sixteen-bit samples and their little-endian bytes.

use vstd::prelude::*;

verus! {

/// The low byte of a sample in two's complement.
pub open spec fn low_byte(sample: i16) -> u8 {
    (sample as int % 256) as u8
}

/// The high byte of a sample in two's complement.
pub open spec fn high_byte(sample: i16) -> u8 {
    if sample < 0 {
        ((sample as int + 65536) / 256) as u8
    } else {
        (sample as int / 256) as u8
    }
}

/// The sample that two little-endian bytes write.
pub open spec fn sample_of(low: u8, high: u8) -> int {
    if low + 256 * high >= 32768 {
        low + 256 * high - 65536
    } else {
        low + 256 * high
    }
}

/// The bytes of a run of samples: two for each, low byte first.
pub open spec fn pcm_bytes(samples: Seq<i16>) -> Seq<u8> {
    Seq::new(
        2 * samples.len(),
        |i: int|
            if i % 2 == 0 {
                low_byte(samples[i / 2])
            } else {
                high_byte(samples[i / 2])
            },
    )
}

/// The samples of a stereo byte stream, widened to 32 bits: two for each
/// whole frame of four bytes. Bytes after the last whole frame are left out.
pub open spec fn stereo_samples(bytes: Seq<u8>) -> Seq<i32> {
    Seq::new(
        ((bytes.len() / 4) * 2) as nat,
        |i: int| sample_of(bytes[2 * i], bytes[2 * i + 1]) as i32,
    )
}

/// Reading a sample back from its bytes gives the sample.
pub proof fn law_sample_round_trip(sample: i16)
    ensures
        sample_of(low_byte(sample), high_byte(sample)) == sample,
{
}

/// The bytes of a run of samples, position by position.
proof fn lemma_pcm_bytes_at(samples: Seq<i16>, i: int)
    requires
        0 <= i < samples.len(),
    ensures
        pcm_bytes(samples).len() == 2 * samples.len(),
        pcm_bytes(samples)[2 * i] == low_byte(samples[i]),
        pcm_bytes(samples)[2 * i + 1] == high_byte(samples[i]),
{
    assert((2 * i) % 2 == 0 && (2 * i) / 2 == i);
    assert((2 * i + 1) % 2 == 1 && (2 * i + 1) / 2 == i);
}

/// Reading the bytes of whole stereo frames back gives the samples they
/// were written from.
pub proof fn law_pcm_round_trip(samples: Seq<i16>)
    requires
        samples.len() % 2 == 0,
    ensures
        stereo_samples(pcm_bytes(samples)) == samples.map_values(|s: i16| s as i32),
{
    let bytes = pcm_bytes(samples);
    let back = stereo_samples(bytes);
    let n = samples.len() as int;
    assert(bytes.len() == 2 * n);
    assert(((2 * n) / 4) * 2 == n) by {
        assert(n % 2 == 0);
    }
    assert(back.len() == n);
    assert forall|i: int| 0 <= i < n implies back[i] == samples[i] as i32 by {
        lemma_pcm_bytes_at(samples, i);
        law_sample_round_trip(samples[i]);
    }
    assert(back =~= samples.map_values(|s: i16| s as i32));
}

/// The two bytes of a sample, low byte first.
pub fn sample_bytes(sample: i16) -> (r: (u8, u8))
    ensures
        r.0 == low_byte(sample),
        r.1 == high_byte(sample),
{
    let unsigned: u32 = if sample < 0 {
        (sample as i32 + 65536) as u32
    } else {
        sample as u32
    };
    ((unsigned % 256) as u8, (unsigned / 256) as u8)
}

/// Writes samples as little-endian bytes.
pub fn samples_to_bytes(samples: &Vec<i16>) -> (bytes: Vec<u8>)
    ensures
        bytes@ == pcm_bytes(samples@),
{
    let mut bytes: Vec<u8> = Vec::new();
    let mut i: usize = 0;
    while i < samples.len()
        invariant
            i <= samples.len(),
            bytes@.len() == 2 * i,
            forall|k: int| 0 <= k < 2 * i ==> bytes@[k] == pcm_bytes(samples@)[k],
        decreases samples.len() - i,
    {
        let (low, high) = sample_bytes(samples[i]);
        proof {
            lemma_pcm_bytes_at(samples@, i as int);
        }
        bytes.push(low);
        bytes.push(high);
        i += 1;
    }
    assert(bytes@ =~= pcm_bytes(samples@));
    bytes
}

/// Reads a stereo byte stream as samples, widened to 32 bits.
pub fn bytes_to_samples(bytes: &[u8]) -> (samples: Vec<i32>)
    ensures
        samples@ == stereo_samples(bytes@),
        samples@.len() % 2 == 0,
        forall|i: int| 0 <= i < samples@.len() ==> -32768 <= #[trigger] samples@[i] <= 32767,
{
    let count: usize = (bytes.len() / 4) * 2;
    let mut samples: Vec<i32> = Vec::new();
    let mut i: usize = 0;
    while i < count
        invariant
            i <= count,
            count == (bytes.len() / 4) * 2,
            samples@.len() == i,
            forall|k: int| 0 <= k < i ==> samples@[k] == stereo_samples(bytes@)[k],
            forall|k: int| 0 <= k < i ==> -32768 <= #[trigger] samples@[k] <= 32767,
        decreases count - i,
    {
        let low = bytes[2 * i];
        let high = bytes[2 * i + 1];
        let value: i32 = low as i32 + 256 * (high as i32);
        let sample: i32 = if value >= 32768 {
            value - 65536
        } else {
            value
        };
        samples.push(sample);
        i += 1;
    }
    assert(samples@ =~= stereo_samples(bytes@));
    samples
}

} // verus!
