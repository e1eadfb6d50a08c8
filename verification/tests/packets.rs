use drcom_pppoe::crc::CRCHasherType;
use drcom_pppoe::packet::{
    ChallengeRequest, ChallengeResponse, HeartbeatFlag, HeartbeatRequest, ReadBytesError,
    ReadField,
};

#[test]
fn challenge_request_encodes_opcode_sequence_and_magic() {
    let bytes = ChallengeRequest::new(Some(1)).as_bytes();
    assert_eq!(bytes.len(), 8);
    assert_eq!(bytes[0], 7);
    assert_eq!(bytes[1], 1);
    let magic = u32::from_le_bytes([bytes[2], bytes[3], bytes[4], bytes[5]]);
    assert_eq!(magic, 65544);
    assert_eq!(bytes, [7, 1, 8, 0, 1, 0, 0, 0]);
}

#[test]
fn challenge_request_sequence_defaults_to_one() {
    assert_eq!(ChallengeRequest::new(None).as_bytes(), ChallengeRequest::new(Some(1)).as_bytes());
    assert_eq!(ChallengeRequest::new(Some(9)).as_bytes(), [7, 9, 8, 0, 1, 0, 0, 0]);
}

#[test]
fn challenge_response_round_trips_seed_and_address() {
    let mut stream: Vec<u8> = vec![7u8];
    stream.extend_from_slice(&[0xaa, 0xbb, 0xcc, 0xdd, 0xee, 0xff, 0x11]);
    stream.extend_from_slice(&305419896u32.to_le_bytes());
    stream.extend_from_slice(&[10, 0, 0, 1]);
    let response = ChallengeResponse::from_bytes(&stream).unwrap();
    assert_eq!(response.challenge_seed, 305419896);
    assert_eq!(response.source_ip, [10, 0, 0, 1]);
}

#[test]
fn challenge_response_reports_which_field_ran_short() {
    assert!(matches!(
        ChallengeResponse::from_bytes(&[]),
        Err(ReadBytesError::ShortRead(ReadField::Opcode))
    ));
    assert!(matches!(
        ChallengeResponse::from_bytes(&[9, 0, 0, 0]),
        Err(ReadBytesError::WrongOpcode(9))
    ));
    assert!(matches!(
        ChallengeResponse::from_bytes(&[7, 0, 0, 0]),
        Err(ReadBytesError::ShortRead(ReadField::Reserved))
    ));
    assert!(matches!(
        ChallengeResponse::from_bytes(&[7, 0, 0, 0, 0, 0, 0, 0, 1, 2]),
        Err(ReadBytesError::ShortRead(ReadField::ChallengeSeed))
    ));
    assert!(matches!(
        ChallengeResponse::from_bytes(&[7, 0, 0, 0, 0, 0, 0, 0, 1, 2, 3, 4, 5, 6]),
        Err(ReadBytesError::ShortRead(ReadField::SourceIp))
    ));
}

#[test]
fn heartbeat_flag_wire_values() {
    assert_eq!(HeartbeatFlag::First.as_u32(), 0x2a006200);
    assert_eq!(HeartbeatFlag::NotFirst.as_u32(), 0x2a006300);
}

#[test]
fn heartbeat_is_96_bytes_with_its_length_field_for_every_mode() {
    for seed in [0u32, 1, 2, 3, 4, 5, 3_000_000_000] {
        for flag in [HeartbeatFlag::First, HeartbeatFlag::NotFirst] {
            let request = HeartbeatRequest::new(17, [172, 16, 5, 9], flag, seed, None, None, None);
            let bytes = request.as_bytes();
            assert_eq!(bytes.len(), 96);
            let declared = u16::from_le_bytes([bytes[2], bytes[3]]);
            assert_eq!(declared, 96);
        }
    }
}

#[test]
fn heartbeat_header_and_content_layout() {
    let request = HeartbeatRequest::new(
        5,
        [192, 168, 1, 2],
        HeartbeatFlag::First,
        7, // 7 % 3 == 1: MD5 mode, no footer rewrite
        Some(8),
        Some(2),
        Some([1, 2, 3, 4, 5, 6]),
    );
    let bytes = request.as_bytes();
    assert_eq!(&bytes[0..4], &[7, 5, 96, 0]);
    assert_eq!(&bytes[4..6], &[8, 2]);
    assert_eq!(&bytes[6..12], &[1, 2, 3, 4, 5, 6]);
    assert_eq!(&bytes[12..16], &[192, 168, 1, 2]);
    assert_eq!(&bytes[16..20], &0x2a006200u32.to_le_bytes());
    assert_eq!(&bytes[20..24], &7u32.to_le_bytes());
}

#[test]
fn heartbeat_defaults_are_type_3_uid_0_zero_mac() {
    let request =
        HeartbeatRequest::new(0, [0, 0, 0, 0], HeartbeatFlag::NotFirst, 1, None, None, None);
    let bytes = request.as_bytes();
    assert_eq!(&bytes[4..6], &[3, 0]);
    assert_eq!(&bytes[6..12], &[0u8; 6]);
    assert_eq!(&bytes[16..20], &0x2a006300u32.to_le_bytes());
}

#[test]
fn heartbeat_md5_mode_footer_holds_the_seed_hash() {
    let seed = 7u32; // 7 % 3 == 1: MD5
    let request =
        HeartbeatRequest::new(1, [10, 0, 0, 1], HeartbeatFlag::First, seed, None, None, None);
    let bytes = request.as_bytes();
    let expected = CRCHasherType::MD5.hash(&seed.to_le_bytes());
    assert_eq!(&bytes[24..32], &expected);
    assert_eq!(&bytes[32..96], &[0u8; 64][..]);
}

#[test]
fn heartbeat_md4_mode_footer_holds_the_seed_hash() {
    let seed = 8u32; // 8 % 3 == 2: MD4
    let request =
        HeartbeatRequest::new(1, [10, 0, 0, 1], HeartbeatFlag::First, seed, None, None, None);
    let bytes = request.as_bytes();
    let expected = CRCHasherType::MD4.hash(&seed.to_le_bytes());
    assert_eq!(&bytes[24..32], &expected);
    assert_eq!(&bytes[32..96], &[0u8; 64][..]);
}

#[test]
fn heartbeat_none_mode_footer_is_the_rewritten_fallback_checksum() {
    let seed = 6u32; // 6 % 3 == 0: the no-op strategy and the rewrite
    let request =
        HeartbeatRequest::new(2, [10, 0, 0, 1], HeartbeatFlag::NotFirst, seed, None, None, None);
    let bytes = request.as_bytes();

    // Recompute the rewrite independently: the word-XOR checksum of
    // header, content and the synthetic digest, times the multiplier.
    let mut rehash_input: Vec<u8> = Vec::new();
    rehash_input.extend_from_slice(&bytes[0..24]);
    rehash_input.extend_from_slice(&[199, 47, 49, 1, 126, 0, 0, 0]);
    let mut crc: u32 = 0;
    for word in rehash_input.chunks(4) {
        crc ^= u32::from_le_bytes([word[0], word[1], word[2], word[3]]);
    }
    let product = crc.wrapping_mul(19680126);

    assert_eq!(&bytes[24..28], &product.to_le_bytes());
    assert_eq!(&bytes[28..96], &[0u8; 68][..]);
}
