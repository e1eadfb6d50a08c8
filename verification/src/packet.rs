//! The three packet kinds of the heartbeat exchange: the Challenge
//! Request and Heartbeat Request encoders and the Challenge Response
//! decoder, each specified byte for byte.

use vstd::prelude::*;
use crate::crc::{CRCHasherType, calculate_drcom_crc32, crc32_spec, hash_spec};
use crate::endian::{
    le16, le32, lemma_word16_le16, lemma_word32_le32, push_u16_le, push_u32_le, read_u32_le,
    word16, word32,
};

verus! {

broadcast use vstd::array::group_array_axioms;

/// The opcode every outgoing packet of this protocol starts with.
pub const DRCOM_CODE: u8 = 7;

/// The opcode the gateway's challenge response starts with.
pub const RESPONSE_CODE: u8 = 7;

/// The fixed magic value of the challenge request.
pub const CHALLENGE_MAGIC: u32 = 65544;

/// The multiplier of the fallback checksum's post-transform.
pub const REHASH_MULTIPLIER: u32 = 19680126;

/// Whether a heartbeat is the first of its session.
#[derive(Clone, Copy, Debug)]
pub enum HeartbeatFlag {
    First,
    NotFirst,
}

/// The 32-bit constant a flag is encoded as on the wire.
pub open spec fn flag_u32(flag: HeartbeatFlag) -> u32 {
    match flag {
        HeartbeatFlag::First => 0x2a006200u32,
        HeartbeatFlag::NotFirst => 0x2a006300u32,
    }
}

impl HeartbeatFlag {
    /// The wire encoding of this flag.
    pub fn as_u32(&self) -> (r: u32)
        ensures
            r == flag_u32(*self),
    {
        match *self {
            HeartbeatFlag::First => 0x2a006200u32,
            HeartbeatFlag::NotFirst => 0x2a006300u32,
        }
    }
}

/// The 8-byte probe message that starts a session.
#[derive(Debug)]
pub struct ChallengeRequest {
    sequence: u8,
}

/// The bytes a challenge request encodes to: opcode, sequence, the magic
/// value in native order, and two zero bytes.
pub open spec fn challenge_request_bytes(sequence: u8) -> Seq<u8> {
    seq![DRCOM_CODE, sequence] + le32(CHALLENGE_MAGIC) + seq![0u8, 0u8]
}

impl ChallengeRequest {
    /// The sequence number this request was built with.
    pub closed spec fn spec_sequence(&self) -> u8 {
        self.sequence
    }

    /// A challenge request with the given sequence number; a missing one
    /// stands for 1.
    pub fn new(sequence: Option<u8>) -> (r: Self)
        ensures
            r.spec_sequence() == (match sequence {
                Some(c) => c,
                None => 1u8,
            }),
    {
        let sequence = match sequence {
            Some(c) => c,
            None => 1u8,
        };
        ChallengeRequest { sequence }
    }

    /// The fixed magic value of this message kind.
    pub fn magic_number() -> (r: u32)
        ensures
            r == CHALLENGE_MAGIC,
    {
        CHALLENGE_MAGIC
    }

    /// Encode the request: 8 bytes, opcode first, then the sequence, then
    /// the magic value in native order.
    pub fn as_bytes(&self) -> (r: [u8; 8])
        ensures
            r@ == challenge_request_bytes(self.spec_sequence()),
            r@.len() == 8,
            r@[0] == DRCOM_CODE,
            r@[1] == self.spec_sequence(),
            word32(r@.subrange(2, 6)) == CHALLENGE_MAGIC,
    {
        let magic = Self::magic_number();
        let mut result = [0u8; 8];
        result[0] = DRCOM_CODE;
        result[1] = self.sequence;
        result[2] = (magic & 0xff) as u8;
        result[3] = ((magic >> 8) & 0xff) as u8;
        result[4] = ((magic >> 16) & 0xff) as u8;
        result[5] = ((magic >> 24) & 0xff) as u8;
        proof {
            assert(result@ =~= challenge_request_bytes(self.sequence));
            assert(result@.subrange(2, 6) =~= le32(CHALLENGE_MAGIC));
            lemma_word32_le32(CHALLENGE_MAGIC);
        }
        result
    }
}

/// Which field of the challenge response was being read when the stream
/// ran short.
#[derive(Clone, Copy, Debug)]
pub enum ReadField {
    Opcode,
    Reserved,
    ChallengeSeed,
    SourceIp,
}

/// The decoder's errors: a leading byte that is not the response opcode,
/// or a stream that ends inside the named field.
#[derive(Clone, Copy, Debug)]
pub enum ReadBytesError {
    WrongOpcode(u8),
    ShortRead(ReadField),
}

/// The gateway's reply to a challenge request: the session's seed and the
/// source address the gateway observed, kept in the octet order of the
/// wire (that one field is big-endian where all others are native).
#[derive(Debug)]
pub struct ChallengeResponse {
    pub challenge_seed: u32,
    pub source_ip: [u8; 4],
}

impl ChallengeResponse {
    /// Decode a response: the opcode byte is validated and consumed, 7
    /// reserved bytes are discarded, then the seed is read in native order
    /// and the source address as raw octets.
    pub fn from_bytes(input: &[u8]) -> (r: Result<Self, ReadBytesError>)
        ensures
            r is Ok <==> input@.len() >= 16 && input@[0] == RESPONSE_CODE,
            r is Ok ==> r->Ok_0.challenge_seed == word32(input@.subrange(8, 12))
                && r->Ok_0.source_ip@ == input@.subrange(12, 16),
            input@.len() == 0 ==> r == Err::<Self, ReadBytesError>(
                ReadBytesError::ShortRead(ReadField::Opcode),
            ),
            input@.len() >= 1 && input@[0] != RESPONSE_CODE ==> r == Err::<Self, ReadBytesError>(
                ReadBytesError::WrongOpcode(input@[0]),
            ),
            input@.len() >= 1 && input@[0] == RESPONSE_CODE && input@.len() < 8 ==> r == Err::<
                Self,
                ReadBytesError,
            >(ReadBytesError::ShortRead(ReadField::Reserved)),
            8 <= input@.len() < 12 && input@[0] == RESPONSE_CODE ==> r == Err::<
                Self,
                ReadBytesError,
            >(ReadBytesError::ShortRead(ReadField::ChallengeSeed)),
            12 <= input@.len() < 16 && input@[0] == RESPONSE_CODE ==> r == Err::<
                Self,
                ReadBytesError,
            >(ReadBytesError::ShortRead(ReadField::SourceIp)),
    {
        if input.len() < 1 {
            return Err(ReadBytesError::ShortRead(ReadField::Opcode));
        }
        if input[0] != RESPONSE_CODE {
            return Err(ReadBytesError::WrongOpcode(input[0]));
        }
        if input.len() < 8 {
            return Err(ReadBytesError::ShortRead(ReadField::Reserved));
        }
        if input.len() < 12 {
            return Err(ReadBytesError::ShortRead(ReadField::ChallengeSeed));
        }
        if input.len() < 16 {
            return Err(ReadBytesError::ShortRead(ReadField::SourceIp));
        }
        let challenge_seed = read_u32_le(input, 8);
        let source_ip = [input[12], input[13], input[14], input[15]];
        proof {
            assert(source_ip@ =~= input@.subrange(12, 16));
        }
        Ok(ChallengeResponse { challenge_seed, source_ip })
    }
}

/// The full keep-alive packet: header, content and footer, re-encoded
/// fresh for every heartbeat tick.
#[derive(Debug)]
pub struct HeartbeatRequest {
    pub sequence: u8,
    pub type_id: u8,
    pub uid_length: u8,
    pub mac_address: [u8; 6],
    pub source_ip: [u8; 4],
    pub flag: HeartbeatFlag,
    pub challenge_seed: u32,
}

/// The checksum mode a session's seed selects: `seed mod 3` mapped through
/// the strategy table. SHA-1 sits in that table but no seed reaches it.
pub open spec fn mode_of_seed(seed: u32) -> CRCHasherType {
    if seed % 3 == 0 {
        CRCHasherType::NONE
    } else if seed % 3 == 1 {
        CRCHasherType::MD5
    } else {
        CRCHasherType::MD4
    }
}

/// `n` zero bytes.
pub open spec fn zero_bytes(n: nat) -> Seq<u8> {
    Seq::new(n, |i: int| 0u8)
}

/// The heartbeat's 4-byte header: opcode, sequence, and the total packet
/// length in native order.
pub open spec fn heartbeat_header(h: HeartbeatRequest) -> Seq<u8> {
    seq![DRCOM_CODE, h.sequence] + le16(96)
}

/// The heartbeat's 20-byte content: type, uid length, the raw MAC bytes,
/// the address octets, then the flag and the seed in native order.
pub open spec fn heartbeat_content(h: HeartbeatRequest) -> Seq<u8> {
    seq![h.type_id, h.uid_length] + h.mac_address@ + h.source_ip@ + le32(flag_u32(h.flag))
        + le32(h.challenge_seed)
}

/// The first 8 footer bytes before the no-op rewrite: the selected mode's
/// checksum over the seed's native-order bytes.
pub open spec fn heartbeat_hash8(h: HeartbeatRequest) -> Seq<u8> {
    hash_spec(mode_of_seed(h.challenge_seed), le32(h.challenge_seed))
}

/// The heartbeat's 72-byte footer. Under the no-op mode the first 8 bytes
/// are rewritten: the fallback checksum of header, content and those 8
/// bytes, multiplied (wrapping) by `REHASH_MULTIPLIER`, in native order,
/// then 4 zero bytes. 64 zero padding bytes close the packet either way.
pub open spec fn heartbeat_footer(h: HeartbeatRequest) -> Seq<u8> {
    let hash8 = heartbeat_hash8(h);
    let checksum = if mode_of_seed(h.challenge_seed) is NONE {
        let rehash = vstd::wrapping::u32_specs::wrapping_mul(
            crc32_spec(heartbeat_header(h) + heartbeat_content(h) + hash8, 0),
            REHASH_MULTIPLIER,
        );
        le32(rehash) + le32(0)
    } else {
        hash8
    };
    checksum + zero_bytes(64)
}

/// Every byte of an encoded heartbeat: header, content, footer.
pub open spec fn heartbeat_bytes(h: HeartbeatRequest) -> Seq<u8> {
    heartbeat_header(h) + heartbeat_content(h) + heartbeat_footer(h)
}

fn append_bytes(out: &mut Vec<u8>, src: &Vec<u8>)
    ensures
        final(out)@ == old(out)@ + src@,
{
    let n = src.len();
    let mut i: usize = 0;
    while i < n
        invariant
            n == src@.len(),
            i <= n,
            out@ == old(out)@ + src@.take(i as int),
        decreases n - i,
    {
        out.push(src[i]);
        proof {
            assert(out@ =~= old(out)@ + src@.take(i as int + 1));
        }
        i += 1;
    }
    proof {
        assert(src@.take(n as int) =~= src@);
    }
}

fn push_zeros(out: &mut Vec<u8>, n: usize)
    ensures
        final(out)@ == old(out)@ + zero_bytes(n as nat),
{
    let mut i: usize = 0;
    while i < n
        invariant
            i <= n,
            out@ == old(out)@ + zero_bytes(i as nat),
        decreases n - i,
    {
        out.push(0u8);
        proof {
            assert(out@ =~= old(out)@ + zero_bytes(i as nat + 1));
        }
        i += 1;
    }
}

impl HeartbeatRequest {
    /// A heartbeat request with the given fields; a missing type stands
    /// for 3, a missing uid length for 0, a missing MAC for six zero bytes.
    pub fn new(
        sequence: u8,
        source_ip: [u8; 4],
        flag: HeartbeatFlag,
        challenge_seed: u32,
        type_id: Option<u8>,
        uid_length: Option<u8>,
        mac_address: Option<[u8; 6]>,
    ) -> (r: Self)
        ensures
            r.sequence == sequence,
            r.source_ip == source_ip,
            r.flag == flag,
            r.challenge_seed == challenge_seed,
            r.type_id == (match type_id {
                Some(tid) => tid,
                None => 3u8,
            }),
            r.uid_length == (match uid_length {
                Some(ul) => ul,
                None => 0u8,
            }),
            (match mac_address {
                Some(mac) => r.mac_address == mac,
                None => r.mac_address@ == zero_bytes(6),
            }),
    {
        let type_id = match type_id {
            Some(tid) => tid,
            None => 3u8,
        };
        let uid_length = match uid_length {
            Some(ul) => ul,
            None => 0u8,
        };
        let mac_address = match mac_address {
            Some(mac) => mac,
            None => {
                let z = [0u8; 6];
                proof {
                    assert(z@ =~= zero_bytes(6));
                }
                z
            },
        };
        HeartbeatRequest { sequence, type_id, uid_length, mac_address, source_ip, flag, challenge_seed }
    }

    fn header_length() -> (r: usize)
        ensures
            r == 4,
    {
        1 +  // code
        1 +  // sequence
        2  // packet_length
    }

    fn content_length() -> (r: usize)
        ensures
            r == 20,
    {
        1 +  // type_id
        1 +  // uid_length
        6 +  // mac_address
        4 +  // source_ip
        4 +  // pppoe_flag
        4  // challenge_seed
    }

    fn footer_length() -> (r: usize)
        ensures
            r == 72,
    {
        8 +  // crc_hash
        16 * 4  // padding
    }

    fn packet_length() -> (r: usize)
        ensures
            r == 96,
    {
        Self::header_length() + Self::content_length() + Self::footer_length()
    }

    /// Encode the heartbeat: always exactly 96 bytes, and the length field
    /// at bytes 2..4 always reads back 96 in native order.
    pub fn as_bytes(&self) -> (r: Vec<u8>)
        ensures
            r@ == heartbeat_bytes(*self),
            r@.len() == 96,
            word16(r@.subrange(2, 4)) == 96,
    {
        let mut header_bytes: Vec<u8> = Vec::with_capacity(Self::header_length());
        header_bytes.push(DRCOM_CODE);
        header_bytes.push(self.sequence);
        let packet_length = Self::packet_length();
        push_u16_le(&mut header_bytes, packet_length as u16);
        proof {
            assert(header_bytes@ =~= heartbeat_header(*self));
        }

        let mut challenge_seed_bytes: Vec<u8> = Vec::with_capacity(4);
        push_u32_le(&mut challenge_seed_bytes, self.challenge_seed);

        let mut content_bytes: Vec<u8> = Vec::with_capacity(Self::content_length());
        content_bytes.push(self.type_id);
        content_bytes.push(self.uid_length);
        content_bytes.push(self.mac_address[0]);
        content_bytes.push(self.mac_address[1]);
        content_bytes.push(self.mac_address[2]);
        content_bytes.push(self.mac_address[3]);
        content_bytes.push(self.mac_address[4]);
        content_bytes.push(self.mac_address[5]);
        content_bytes.push(self.source_ip[0]);
        content_bytes.push(self.source_ip[1]);
        content_bytes.push(self.source_ip[2]);
        content_bytes.push(self.source_ip[3]);
        push_u32_le(&mut content_bytes, self.flag.as_u32());
        append_bytes(&mut content_bytes, &challenge_seed_bytes);
        proof {
            assert(content_bytes@ =~= heartbeat_content(*self));
        }

        let mut footer_bytes: Vec<u8> = Vec::with_capacity(Self::footer_length());
        let hash_mode = match CRCHasherType::from_mode((self.challenge_seed % 3) as u8) {
            Ok(m) => m,
            Err(_) => vstd::pervasive::unreached(),
        };
        proof {
            assert(hash_mode == mode_of_seed(self.challenge_seed));
        }
        let crc_hash_bytes = hash_mode.hash(challenge_seed_bytes.as_slice());
        footer_bytes.push(crc_hash_bytes[0]);
        footer_bytes.push(crc_hash_bytes[1]);
        footer_bytes.push(crc_hash_bytes[2]);
        footer_bytes.push(crc_hash_bytes[3]);
        footer_bytes.push(crc_hash_bytes[4]);
        footer_bytes.push(crc_hash_bytes[5]);
        footer_bytes.push(crc_hash_bytes[6]);
        footer_bytes.push(crc_hash_bytes[7]);
        proof {
            assert(footer_bytes@ =~= heartbeat_hash8(*self));
        }

        if let CRCHasherType::NONE = hash_mode {
            let mut rehash_bytes: Vec<u8> = Vec::with_capacity(Self::packet_length());
            append_bytes(&mut rehash_bytes, &header_bytes);
            append_bytes(&mut rehash_bytes, &content_bytes);
            append_bytes(&mut rehash_bytes, &footer_bytes);
            let crc = match calculate_drcom_crc32(rehash_bytes.as_slice(), None) {
                Ok(v) => v,
                Err(_) => vstd::pervasive::unreached(),
            };
            let rehash = crc.wrapping_mul(REHASH_MULTIPLIER);
            let mut rewritten: Vec<u8> = Vec::with_capacity(Self::footer_length());
            push_u32_le(&mut rewritten, rehash);
            push_u32_le(&mut rewritten, 0u32);
            footer_bytes = rewritten;
        }
        push_zeros(&mut footer_bytes, 64);
        proof {
            assert(footer_bytes@ == heartbeat_footer(*self));
        }

        let mut packet_bytes: Vec<u8> = Vec::with_capacity(Self::packet_length());
        append_bytes(&mut packet_bytes, &header_bytes);
        append_bytes(&mut packet_bytes, &content_bytes);
        append_bytes(&mut packet_bytes, &footer_bytes);
        proof {
            assert(packet_bytes@ == heartbeat_bytes(*self));
            assert(packet_bytes@.len() == 96);
            assert(packet_bytes@.subrange(2, 4) =~= le16(96));
            lemma_word16_le16(96);
        }
        packet_bytes
    }
}

/// Round trip: a stream built as the gateway builds a challenge response —
/// the response opcode, 7 reserved bytes, the seed in native order, then
/// the four address octets — decodes back to exactly that seed and address.
pub proof fn lemma_challenge_response_round_trip(seed: u32, reserved: Seq<u8>, ip: Seq<u8>)
    requires
        reserved.len() == 7,
        ip.len() == 4,
    ensures
        ({
            let stream = seq![RESPONSE_CODE] + reserved + le32(seed) + ip;
            &&& stream.len() == 16
            &&& stream[0] == RESPONSE_CODE
            &&& word32(stream.subrange(8, 12)) == seed
            &&& stream.subrange(12, 16) == ip
        }),
{
    let stream = seq![RESPONSE_CODE] + reserved + le32(seed) + ip;
    assert(stream.subrange(8, 12) =~= le32(seed));
    assert(stream.subrange(12, 16) =~= ip);
    lemma_word32_le32(seed);
}

} // verus!
