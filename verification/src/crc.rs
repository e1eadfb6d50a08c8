//! The checksum strategies of the heartbeat footer: four interchangeable
//! algorithms that derive an 8-byte checksum from an input buffer by
//! selecting fixed digest offsets, and the fallback word-XOR checksum
//! used when the no-op strategy is selected.

use vstd::prelude::*;
use crate::endian::{le32, push_u32_le, read_u32_le, word32};

verus! {

/// Constant folded into the synthetic digest of the no-op strategy.
pub const DRCOM_DIAL_EXT_PROTO_CRC_INIT: u32 = 20000711;

/// Which algorithm derives the 8-byte footer checksum.
#[derive(Clone, Copy, Debug)]
pub enum CRCHasherType {
    NONE,
    MD5,
    MD4,
    SHA1,
}

/// The errors of the checksum layer.
#[derive(Debug)]
pub enum CRCHashError {
    /// the mode selector was given a byte outside 0..=3
    ModeNotExist,
    /// the fallback checksum was given a buffer whose length is not a
    /// multiple of four
    InputLengthInvalid,
}

/// The MD5 digest (16 bytes) of `input`, a function of the input alone.
pub uninterp spec fn md5_of(input: Seq<u8>) -> Seq<u8>;

/// The MD4 digest (16 bytes) of `input`, a function of the input alone.
pub uninterp spec fn md4_of(input: Seq<u8>) -> Seq<u8>;

/// The SHA-1 digest (20 bytes) of `input`, a function of the input alone.
pub uninterp spec fn sha1_of(input: Seq<u8>) -> Seq<u8>;

/// Relies on md-5's `Digest::digest`: the MD5 digest of the input bytes,
/// always 16 bytes long.
#[verifier::external_body]
fn md5_digest(bytes: &[u8]) -> (r: Vec<u8>)
    ensures
        r@ == md5_of(bytes@),
        r@.len() == 16,
{
    <md5::Md5 as md5::Digest>::digest(bytes).to_vec()
}

/// Relies on md4's `Digest::digest`: the MD4 digest of the input bytes,
/// always 16 bytes long.
#[verifier::external_body]
fn md4_digest(bytes: &[u8]) -> (r: Vec<u8>)
    ensures
        r@ == md4_of(bytes@),
        r@.len() == 16,
{
    <md4::Md4 as md4::Digest>::digest(bytes).to_vec()
}

/// Relies on sha1's `Digest::digest`: the SHA-1 digest of the input bytes,
/// always 20 bytes long.
#[verifier::external_body]
fn sha1_digest(bytes: &[u8]) -> (r: Vec<u8>)
    ensures
        r@ == sha1_of(bytes@),
        r@.len() == 20,
{
    <sha1::Sha1 as sha1::Digest>::digest(bytes).to_vec()
}

/// The synthetic, input-independent digest of the no-op strategy: the
/// native-order bytes of `DRCOM_DIAL_EXT_PROTO_CRC_INIT` followed by
/// the native-order bytes of 126.
pub open spec fn none_digest() -> Seq<u8> {
    le32(DRCOM_DIAL_EXT_PROTO_CRC_INIT) + le32(126)
}

/// The digest each mode computes over `input`; the no-op mode never
/// examines its input.
pub open spec fn digest_spec(mode: CRCHasherType, input: Seq<u8>) -> Seq<u8> {
    match mode {
        CRCHasherType::NONE => none_digest(),
        CRCHasherType::MD5 => md5_of(input),
        CRCHasherType::MD4 => md4_of(input),
        CRCHasherType::SHA1 => sha1_of(input),
    }
}

/// The retain table of each mode: which eight digest offsets are copied
/// into the checksum, in order.
pub open spec fn retain_spec(mode: CRCHasherType) -> Seq<int> {
    match mode {
        CRCHasherType::NONE => seq![0, 1, 2, 3, 4, 5, 6, 7],
        CRCHasherType::MD5 => seq![2, 3, 8, 9, 5, 6, 13, 14],
        CRCHasherType::MD4 => seq![1, 2, 8, 9, 4, 5, 11, 12],
        CRCHasherType::SHA1 => seq![2, 3, 9, 10, 5, 6, 15, 16],
    }
}

/// The 8-byte checksum of `mode` over `input`: the digest bytes at the
/// offsets of the mode's retain table, in table order.
pub open spec fn hash_spec(mode: CRCHasherType, input: Seq<u8>) -> Seq<u8> {
    let d = digest_spec(mode, input);
    let p = retain_spec(mode);
    seq![d[p[0]], d[p[1]], d[p[2]], d[p[3]], d[p[4]], d[p[5]], d[p[6]], d[p[7]]]
}

/// The checksum of the no-op mode is the synthetic digest unchanged,
/// whatever the input.
pub proof fn lemma_hash_none_constant(input: Seq<u8>)
    ensures
        hash_spec(CRCHasherType::NONE, input) == none_digest(),
{
    assert(hash_spec(CRCHasherType::NONE, input) =~= none_digest());
}

fn none_digest_bytes() -> (r: Vec<u8>)
    ensures
        r@ == none_digest(),
{
    let mut r: Vec<u8> = Vec::new();
    push_u32_le(&mut r, DRCOM_DIAL_EXT_PROTO_CRC_INIT);
    push_u32_le(&mut r, 126);
    r
}

fn select8(digest: &Vec<u8>, pos: &[usize; 8]) -> (r: [u8; 8])
    requires
        forall|j: int| 0 <= j < 8 ==> (pos@[j] as int) < digest@.len(),
    ensures
        r@ == seq![
            digest@[pos@[0] as int],
            digest@[pos@[1] as int],
            digest@[pos@[2] as int],
            digest@[pos@[3] as int],
            digest@[pos@[4] as int],
            digest@[pos@[5] as int],
            digest@[pos@[6] as int],
            digest@[pos@[7] as int],
        ],
{
    let r = [
        digest[pos[0]],
        digest[pos[1]],
        digest[pos[2]],
        digest[pos[3]],
        digest[pos[4]],
        digest[pos[5]],
        digest[pos[6]],
        digest[pos[7]],
    ];
    r
}

impl CRCHasherType {
    /// The retain table of this mode, as executable data.
    pub fn retain_postions(&self) -> (r: [usize; 8])
        ensures
            forall|j: int| 0 <= j < 8 ==> r@[j] as int == retain_spec(*self)[j],
    {
        match *self {
            CRCHasherType::NONE => [0, 1, 2, 3, 4, 5, 6, 7],
            CRCHasherType::MD5 => [2, 3, 8, 9, 5, 6, 13, 14],
            CRCHasherType::MD4 => [1, 2, 8, 9, 4, 5, 11, 12],
            CRCHasherType::SHA1 => [2, 3, 9, 10, 5, 6, 15, 16],
        }
    }

    /// The 8-byte checksum of this mode over `bytes`: the digest of the
    /// mode's algorithm, reduced to the eight bytes its retain table keeps.
    pub fn hash(&self, bytes: &[u8]) -> (r: [u8; 8])
        ensures
            r@ == hash_spec(*self, bytes@),
            r@.len() == 8,
    {
        let pos = self.retain_postions();
        let digest: Vec<u8> = match *self {
            CRCHasherType::NONE => none_digest_bytes(),
            CRCHasherType::MD5 => md5_digest(bytes),
            CRCHasherType::MD4 => md4_digest(bytes),
            CRCHasherType::SHA1 => sha1_digest(bytes),
        };
        proof {
            assert(digest@ == digest_spec(*self, bytes@));
            assert(forall|j: int| 0 <= j < 8 ==> (pos@[j] as int) < digest@.len()) by {
                assert(digest@.len() >= 8);
                match *self {
                    CRCHasherType::NONE => {
                        assert(digest@.len() == 8);
                    },
                    CRCHasherType::MD5 => {
                        assert(digest@.len() == 16);
                    },
                    CRCHasherType::MD4 => {
                        assert(digest@.len() == 16);
                    },
                    CRCHasherType::SHA1 => {
                        assert(digest@.len() == 20);
                    },
                }
            }
        }
        let r = select8(&digest, &pos);
        proof {
            assert(r@ =~= hash_spec(*self, bytes@));
        }
        r
    }

    /// The mode a selector byte names: 0 is the no-op strategy, 1 is MD5,
    /// 2 is MD4, 3 is SHA-1; every other byte is rejected.
    pub fn from_mode(mode: u8) -> (r: Result<Self, CRCHashError>)
        ensures
            mode <= 3 <==> r is Ok,
            mode == 0 ==> r->Ok_0 is NONE,
            mode == 1 ==> r->Ok_0 is MD5,
            mode == 2 ==> r->Ok_0 is MD4,
            mode == 3 ==> r->Ok_0 is SHA1,
            mode > 3 ==> r->Err_0 is ModeNotExist,
    {
        match mode {
            0 => Ok(CRCHasherType::NONE),
            1 => Ok(CRCHasherType::MD5),
            2 => Ok(CRCHasherType::MD4),
            3 => Ok(CRCHasherType::SHA1),
            _ => Err(CRCHashError::ModeNotExist),
        }
    }
}

/// The 32-bit native-order word at word index `i` of `b`.
pub open spec fn word_at(b: Seq<u8>, i: int) -> u32 {
    word32(b.subrange(4 * i, 4 * i + 4))
}

/// The XOR of the first `n` 32-bit words of `b`.
pub open spec fn xor_words(b: Seq<u8>, n: int) -> u32
    decreases n,
{
    if n <= 0 {
        0u32
    } else {
        xor_words(b, n - 1) ^ word_at(b, n - 1)
    }
}

/// The fallback checksum: `initial` XORed with every 32-bit native-order
/// word of `b`.
pub open spec fn crc32_spec(b: Seq<u8>, initial: u32) -> u32 {
    initial ^ xor_words(b, b.len() as int / 4)
}

/// The accumulator a missing `initial` stands for.
pub open spec fn initial_spec(initial: Option<u32>) -> u32 {
    match initial {
        Some(v) => v,
        None => 0u32,
    }
}

/// Folds `bytes` into 4-byte native-order words and XORs them together,
/// starting from `initial` (default 0); rejects a buffer whose length is
/// not a multiple of four.
pub fn calculate_drcom_crc32(bytes: &[u8], initial: Option<u32>) -> (r: Result<
    u32,
    CRCHashError,
>)
    ensures
        bytes@.len() % 4 == 0 <==> r is Ok,
        bytes@.len() % 4 == 0 ==> r->Ok_0 == crc32_spec(bytes@, initial_spec(initial)),
        bytes@.len() % 4 != 0 ==> r->Err_0 is InputLengthInvalid,
{
    if bytes.len() % 4 != 0 {
        return Err(CRCHashError::InputLengthInvalid);
    }

    let mut result: u32 = match initial {
        Some(initial) => initial,
        None => 0,
    };
    let len: usize = bytes.len();
    let words: usize = len / 4;
    let mut c: usize = 0;
    proof {
        let i0 = initial_spec(initial);
        assert(i0 ^ 0u32 == i0) by (bit_vector);
    }
    while c < words
        invariant
            len == bytes@.len(),
            words == len / 4,
            len % 4 == 0,
            c <= words,
            result == initial_spec(initial) ^ xor_words(bytes@, c as int),
        decreases words - c,
    {
        proof {
            assert(4 * words == len);
            assert(c * 4 + 4 <= len) by (nonlinear_arith)
                requires
                    c < words,
                    4 * words == len,
            ;
        }
        let w = read_u32_le(bytes, c * 4);
        proof {
            assert(w == word_at(bytes@, c as int));
            assert(xor_words(bytes@, c as int + 1) == xor_words(bytes@, c as int) ^ word_at(
                bytes@,
                c as int,
            ));
            let i0 = initial_spec(initial);
            let x = xor_words(bytes@, c as int);
            assert((i0 ^ x) ^ w == i0 ^ (x ^ w)) by (bit_vector);
        }
        result = result ^ w;
        c += 1;
    }
    Ok(result)
}

} // verus!
