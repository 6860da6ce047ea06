//! The compact form of a presentation that the benchmark measures: the proof
//! and the device-binding proof, each preceded by its length as a big-endian
//! `u64`.
use vstd::prelude::*;

verus! {

/// The eight big-endian bytes of `n`.
pub open spec fn be_bytes(n: u64) -> Seq<u8> {
    seq![
        (n >> 56u64) as u8,
        (n >> 48u64) as u8,
        (n >> 40u64) as u8,
        (n >> 32u64) as u8,
        (n >> 24u64) as u8,
        (n >> 16u64) as u8,
        (n >> 8u64) as u8,
        n as u8,
    ]
}

/// The number that eight bytes stand for, read big-endian.
pub open spec fn be_value(s: Seq<u8>) -> u64
    recommends
        s.len() == 8,
{
    (s[0] as u64) << 56u64 | (s[1] as u64) << 48u64 | (s[2] as u64) << 40u64 | (s[3] as u64)
        << 32u64 | (s[4] as u64) << 24u64 | (s[5] as u64) << 16u64 | (s[6] as u64) << 8u64 | (
    s[7] as u64)
}

/// A byte string preceded by its length as a big-endian `u64`.
pub open spec fn length_prefixed(data: Seq<u8>) -> Seq<u8> {
    be_bytes(data.len() as u64) + data
}

/// The compact presentation: the proof, then the device-binding proof, each
/// length-prefixed.
pub open spec fn frame_spec(proof: Seq<u8>, device_binding: Seq<u8>) -> Seq<u8> {
    length_prefixed(proof) + length_prefixed(device_binding)
}

/// Reading eight big-endian bytes back gives the number they were written from.
pub proof fn lemma_be_roundtrip(n: u64)
    ensures
        be_value(be_bytes(n)) == n,
{
    let b0 = (n >> 56u64) as u8;
    let b1 = (n >> 48u64) as u8;
    let b2 = (n >> 40u64) as u8;
    let b3 = (n >> 32u64) as u8;
    let b4 = (n >> 24u64) as u8;
    let b5 = (n >> 16u64) as u8;
    let b6 = (n >> 8u64) as u8;
    let b7 = n as u8;
    assert((b0 as u64) << 56u64 | (b1 as u64) << 48u64 | (b2 as u64) << 40u64 | (b3 as u64)
        << 32u64 | (b4 as u64) << 24u64 | (b5 as u64) << 16u64 | (b6 as u64) << 8u64 | (
    b7 as u64) == n) by (bit_vector)
        requires
            b0 == (n >> 56u64) as u8,
            b1 == (n >> 48u64) as u8,
            b2 == (n >> 40u64) as u8,
            b3 == (n >> 32u64) as u8,
            b4 == (n >> 24u64) as u8,
            b5 == (n >> 16u64) as u8,
            b6 == (n >> 8u64) as u8,
            b7 == n as u8,
    ;
}

/// The compact presentation is self-delimiting: its first eight bytes give the
/// proof's length, the proof follows, then eight bytes give the device-binding
/// proof's length, and the device-binding proof fills the rest.
pub proof fn lemma_frame_recoverable(proof: Seq<u8>, device_binding: Seq<u8>)
    requires
        proof.len() <= u64::MAX,
        device_binding.len() <= u64::MAX,
    ensures
        ({
            let f = frame_spec(proof, device_binding);
            let p = proof.len() as int;
            &&& f.len() == 16 + proof.len() + device_binding.len()
            &&& be_value(f.subrange(0, 8)) == proof.len()
            &&& f.subrange(8, 8 + p) == proof
            &&& be_value(f.subrange(8 + p, 16 + p)) == device_binding.len()
            &&& f.subrange(16 + p, f.len() as int) == device_binding
        }),
{
    let f = frame_spec(proof, device_binding);
    let p = proof.len() as int;
    lemma_be_roundtrip(proof.len() as u64);
    lemma_be_roundtrip(device_binding.len() as u64);
    assert(f.subrange(0, 8) =~= be_bytes(proof.len() as u64));
    assert(f.subrange(8, 8 + p) =~= proof);
    assert(f.subrange(8 + p, 16 + p) =~= be_bytes(device_binding.len() as u64));
    assert(f.subrange(16 + p, f.len() as int) =~= device_binding);
}

/// Appends the eight big-endian bytes of `n`.
fn push_be_u64(out: &mut Vec<u8>, n: u64)
    ensures
        final(out)@ == old(out)@ + be_bytes(n),
{
    out.push((n >> 56u64) as u8);
    out.push((n >> 48u64) as u8);
    out.push((n >> 40u64) as u8);
    out.push((n >> 32u64) as u8);
    out.push((n >> 24u64) as u8);
    out.push((n >> 16u64) as u8);
    out.push((n >> 8u64) as u8);
    out.push(n as u8);
    assert(out@ =~= old(out)@ + be_bytes(n));
}

/// Appends `data`.
fn push_all(out: &mut Vec<u8>, data: &[u8])
    ensures
        final(out)@ == old(out)@ + data@,
{
    let ghost start = out@;
    let mut i: usize = 0;
    while i < data.len()
        invariant
            i <= data@.len(),
            out@ == start + data@.subrange(0, i as int),
        decreases data@.len() - i,
    {
        out.push(data[i]);
        i = i + 1;
        assert(out@ =~= start + data@.subrange(0, i as int));
    }
    assert(data@.subrange(0, i as int) =~= data@);
}

/// Writes the compact presentation: the proof's length as a big-endian `u64`,
/// the proof, the device-binding proof's length, the device-binding proof.
pub fn frame_presentation(proof: &[u8], device_binding: &[u8]) -> (out: Vec<u8>)
    ensures
        out@ == frame_spec(proof@, device_binding@),
{
    let mut out: Vec<u8> = Vec::new();
    push_be_u64(&mut out, proof.len() as u64);
    push_all(&mut out, proof);
    push_be_u64(&mut out, device_binding.len() as u64);
    push_all(&mut out, device_binding);
    assert(out@ =~= frame_spec(proof@, device_binding@));
    out
}

} // verus!
