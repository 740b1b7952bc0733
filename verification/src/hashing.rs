//! SHA256d of block headers with a nonce patched in, and the byte layout of
//! the kernel input buffer.

use sha2::Digest;
use vstd::prelude::*;
use crate::types::{MiningResult, MiningResultView, Work, WorkView, system_now};

verus! {

/// The SHA-256 digest of `data`, as computed by the `sha2` crate.
pub uninterp spec fn sha256_digest(data: Seq<u8>) -> Seq<u8>;

/// Calls `sha2::Sha256::digest` and copies the 32-byte output into a vector.
/// The contract names the digest and states its documented length of 32
/// bytes; the digest function itself is not specified further.
#[verifier::external_body]
fn sha256(data: &[u8]) -> (out: Vec<u8>)
    ensures
        out@ == sha256_digest(data@),
        out@.len() == 32,
{
    sha2::Sha256::digest(data).to_vec()
}

/// Double SHA-256, the proof-of-work hash of Bitcoin.
pub open spec fn sha256d(data: Seq<u8>) -> Seq<u8> {
    sha256_digest(sha256_digest(data))
}

/// The four little-endian bytes of `n`.
pub open spec fn le_bytes(n: u32) -> Seq<u8> {
    seq![
        (n % 256) as u8,
        ((n / 256) % 256) as u8,
        ((n / 65536) % 256) as u8,
        (n / 16777216) as u8,
    ]
}

/// The number whose little-endian bytes are `b[0..4]`.
pub open spec fn from_le_bytes(b: Seq<u8>) -> int {
    b[0] + 256 * b[1] + 65536 * b[2] + 16777216 * b[3]
}

/// Offset of the nonce inside a block header.
pub const NONCE_OFFSET: usize = 76;

/// `header` with its bytes 76..80 replaced by the little-endian nonce.
pub open spec fn header_with_nonce(header: Seq<u8>, nonce: u32) -> Seq<u8> {
    header.subrange(0, 76) + le_bytes(nonce) + header.subrange(80, header.len() as int)
}

/// The little-endian bytes of `n`, as `n.to_le_bytes()` gives them.
pub fn u32_le_bytes(n: u32) -> (b: Vec<u8>)
    ensures
        b@ == le_bytes(n),
{
    let mut b: Vec<u8> = Vec::new();
    b.push((n % 256) as u8);
    b.push(((n / 256) % 256) as u8);
    b.push(((n / 65536) % 256) as u8);
    b.push((n / 16777216) as u8);
    assert(b@ =~= le_bytes(n));
    b
}

/// SHA256d of `header` with `nonce` written at offset 76, as used to report
/// the hash of a found share.
pub fn hash_header_with_nonce(header: &Vec<u8>, nonce: u32) -> (h: Vec<u8>)
    requires
        header@.len() >= 80,
    ensures
        h@ == sha256d(header_with_nonce(header@, nonce)),
        h@.len() == 32,
{
    let mut patched = header.clone();
    assert(patched@ =~= header@);
    let bytes = u32_le_bytes(nonce);
    patched.set(76, bytes[0]);
    patched.set(77, bytes[1]);
    patched.set(78, bytes[2]);
    patched.set(79, bytes[3]);
    assert(patched@ =~= header_with_nonce(header@, nonce));
    let first = sha256(patched.as_slice());
    sha256(first.as_slice())
}

/// The kernel input: header, then target, then the little-endian start nonce
/// and nonce count.
pub open spec fn kernel_input(work: WorkView, nonce_start: u32, nonce_count: u32) -> Seq<u8> {
    work.header + work.target + le_bytes(nonce_start) + le_bytes(nonce_count)
}

fn append_bytes(dst: &mut Vec<u8>, src: &Vec<u8>)
    ensures
        final(dst)@ == old(dst)@ + src@,
{
    let mut i: usize = 0;
    let ghost start = dst@;
    while i < src.len()
        invariant
            i <= src@.len(),
            dst@ == start + src@.subrange(0, i as int),
        decreases src@.len() - i,
    {
        dst.push(src[i]);
        i = i + 1;
        assert(dst@ =~= start + src@.subrange(0, i as int));
    }
    assert(src@.subrange(0, src@.len() as int) =~= src@);
}

/// Builds the input buffer handed to a mining kernel.
pub fn prepare_input_data(work: &Work, nonce_start: u32, nonce_count: u32) -> (data: Vec<u8>)
    ensures
        data@ == kernel_input(work@, nonce_start, nonce_count),
{
    let mut data: Vec<u8> = Vec::new();
    append_bytes(&mut data, &work.header);
    append_bytes(&mut data, &work.target);
    let a = u32_le_bytes(nonce_start);
    append_bytes(&mut data, &a);
    let b = u32_le_bytes(nonce_count);
    append_bytes(&mut data, &b);
    assert(data@ =~= kernel_input(work@, nonce_start, nonce_count));
    data
}

/// `r` is the result reported when `nonce` solves `work` on device
/// `device_id`: it names the work, carries the nonce and the SHA256d of the
/// header with that nonce, copies the share difficulty, has an empty
/// extranonce2 and is marked as meeting the target.
pub open spec fn found_result(r: MiningResultView, work: WorkView, nonce: u32, device_id: u32) -> bool {
    &&& r.work_id == work.id
    &&& r.work_id_numeric == work.work_id
    &&& r.nonce == nonce
    &&& r.extranonce2 == Seq::<u8>::empty()
    &&& r.hash == sha256d(header_with_nonce(work.header, nonce))
    &&& r.share_difficulty_bits == work.difficulty_bits
    &&& r.meets_target
    &&& r.device_id == device_id
}

/// Builds the result reported when `nonce` solves `work` on a device,
/// stamped with the current time.
pub fn make_found_result(work: &Work, nonce: u32, device_id: u32) -> (r: MiningResult)
    requires
        work.header@.len() >= 80,
    ensures
        found_result(r@, work@, nonce, device_id),
        r@.extranonce2.len() == 0,
        r@.nonce == nonce,
        r@.device_id == device_id,
{
    let hash = hash_header_with_nonce(&work.header, nonce);
    MiningResult {
        work_id: work.id,
        work_id_numeric: work.work_id,
        nonce,
        extranonce2: Vec::new(),
        hash,
        share_difficulty_bits: work.difficulty_bits,
        meets_target: true,
        timestamp: system_now(),
        device_id,
    }
}

/// Law: the little-endian bytes of a nonce decode back to it, so the nonce
/// written into a header can be read back unchanged.
pub proof fn lemma_le_bytes_roundtrip(n: u32)
    ensures
        le_bytes(n).len() == 4,
        from_le_bytes(le_bytes(n)) == n,
{
    let b = le_bytes(n);
    assert(b[0] == n % 256);
    assert(b[1] == (n / 256) % 256);
    assert(b[2] == (n / 65536) % 256);
    assert(b[3] == n / 16777216);
    assert(n % 256 + 256 * ((n / 256) % 256) + 65536 * ((n / 65536) % 256) + 16777216 * (n
        / 16777216) == n) by (nonlinear_arith);
}

/// Law: patching a nonce into an 80-byte header keeps its length and every
/// byte outside 76..80, and the bytes at 76..80 decode to the nonce.
pub proof fn lemma_header_with_nonce(header: Seq<u8>, nonce: u32)
    requires
        header.len() == 80,
    ensures
        header_with_nonce(header, nonce).len() == 80,
        forall|i: int| 0 <= i < 76 ==> header_with_nonce(header, nonce)[i] == header[i],
        header_with_nonce(header, nonce).subrange(76, 80) == le_bytes(nonce),
        from_le_bytes(header_with_nonce(header, nonce).subrange(76, 80)) == nonce,
{
    let p = header_with_nonce(header, nonce);
    assert(p.subrange(76, 80) =~= le_bytes(nonce));
    lemma_le_bytes_roundtrip(nonce);
}

/// Law: the kernel input of a well-formed work is 120 bytes, and its parts
/// read back as the header, the target, the start nonce and the count.
pub proof fn lemma_kernel_input_layout(work: WorkView, nonce_start: u32, nonce_count: u32)
    requires
        work.well_formed(),
    ensures
        kernel_input(work, nonce_start, nonce_count).len() == 120,
        kernel_input(work, nonce_start, nonce_count).subrange(0, 80) == work.header,
        kernel_input(work, nonce_start, nonce_count).subrange(80, 112) == work.target,
        from_le_bytes(kernel_input(work, nonce_start, nonce_count).subrange(112, 116))
            == nonce_start,
        from_le_bytes(kernel_input(work, nonce_start, nonce_count).subrange(116, 120))
            == nonce_count,
{
    let d = kernel_input(work, nonce_start, nonce_count);
    assert(d.subrange(0, 80) =~= work.header);
    assert(d.subrange(80, 112) =~= work.target);
    assert(d.subrange(112, 116) =~= le_bytes(nonce_start));
    assert(d.subrange(116, 120) =~= le_bytes(nonce_count));
    lemma_le_bytes_roundtrip(nonce_start);
    lemma_le_bytes_roundtrip(nonce_count);
}

/// Law: the share reported for a nonce that solves a work names that work,
/// carries that nonce and the work's share difficulty, is reported by the
/// device that found it, meets the target, rolls no extranonce2, and its
/// hash is the double SHA-256 of a header that differs from the work's
/// header only in bytes 76..80, which decode to the nonce.
pub proof fn lemma_found_share(r: MiningResultView, work: WorkView, nonce: u32, device_id: u32)
    requires
        found_result(r, work, nonce, device_id),
        work.header.len() >= 80,
    ensures
        r.extranonce2.len() == 0,
        r.nonce == nonce,
        r.device_id == device_id,
        r.work_id == work.id,
        r.work_id_numeric == work.work_id,
        r.share_difficulty_bits == work.difficulty_bits,
        r.meets_target,
        exists|h: Seq<u8>|
            {
                &&& h.len() == work.header.len()
                &&& forall|i: int|
                    0 <= i < h.len() && !(76 <= i < 80) ==> #[trigger] h[i] == work.header[i]
                &&& from_le_bytes(h.subrange(76, 80)) == nonce
                &&& r.hash == sha256_digest(sha256_digest(h))
            },
{
    let h = header_with_nonce(work.header, nonce);
    assert(h.subrange(76, 80) =~= le_bytes(nonce));
    lemma_le_bytes_roundtrip(nonce);
    assert forall|i: int| 0 <= i < h.len() && !(76 <= i < 80) implies #[trigger] h[i] == work.header[i] by {
        if i >= 80 {
            assert(h[i] == work.header.subrange(80, work.header.len() as int)[i - 80]);
        }
    }
}

} // verus!
