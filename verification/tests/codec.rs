use drand_client::beacon::parse_beacon;
use drand_client::bls::hash_chained;
use drand_client::bls::hash_unchained;
use drand_client::chain_info::parse_chain_info;
use drand_client::codec::hex_decode;
use drand_client::codec::round_to_bytes;
use drand_client::codec::u64_to_dec;
use drand_client::DrandClientError;
use sha2::Digest;
use sha2::Sha256;

#[test]
fn round_encoding_is_big_endian() {
    assert_eq!(round_to_bytes(1), vec![0, 0, 0, 0, 0, 0, 0, 1]);
    assert_eq!(
        round_to_bytes(0x0102030405060708),
        vec![1, 2, 3, 4, 5, 6, 7, 8]
    );
    assert_eq!(round_to_bytes(0), vec![0; 8]);
    assert_eq!(round_to_bytes(u64::MAX), vec![0xff; 8]);
}

#[test]
fn decimal_rendering() {
    assert_eq!(u64_to_dec(0), "0");
    assert_eq!(u64_to_dec(7), "7");
    assert_eq!(u64_to_dec(10), "10");
    assert_eq!(u64_to_dec(1234567890), "1234567890");
    assert_eq!(u64_to_dec(u64::MAX), "18446744073709551615");
}

#[test]
fn hex_decoding_accepts_well_formed_strings() {
    assert_eq!(hex_decode("").unwrap(), Vec::<u8>::new());
    assert_eq!(hex_decode("00ff10").unwrap(), vec![0x00, 0xff, 0x10]);
    assert_eq!(hex_decode("ABCDEF").unwrap(), vec![0xab, 0xcd, 0xef]);
    assert_eq!(hex_decode("aBcDeF").unwrap(), vec![0xab, 0xcd, 0xef]);
}

#[test]
fn hex_decoding_rejects_malformed_strings() {
    assert!(hex_decode("abc").is_none());
    assert!(hex_decode("0g").is_none());
    assert!(hex_decode("zz").is_none());
    assert!(hex_decode("0 0").is_none());
}

#[test]
fn messages_are_digests_of_the_encoded_round() {
    let unchained = hash_unchained(5);
    assert_eq!(unchained.len(), 32);
    assert_eq!(unchained, Sha256::digest(5u64.to_be_bytes()).to_vec());

    let prev = vec![9u8; 96];
    let chained = hash_chained(&prev, 5);
    assert_eq!(chained.len(), 32);
    let mut data = prev.clone();
    data.extend_from_slice(&5u64.to_be_bytes());
    assert_eq!(chained, Sha256::digest(&data).to_vec());

    // The two schemes never sign the same message for a round.
    assert_ne!(chained, unchained);
}

fn hex_of(bytes: &[u8]) -> String {
    let mut s = String::new();
    for b in bytes {
        s.push_str(&format!("{:02x}", b));
    }
    s
}

#[test]
fn chain_info_parses_exactly() {
    let pk = vec![0x42u8; 48];
    let hash = vec![0x17u8; 32];
    let body = format!(
        "{{\"public_key\":\"{}\",\"period\":30,\"genesis_time\":1595431050,\"hash\":\"{}\",\"scheme_id\":\"pedersen-bls-chained\"}}",
        hex_of(&pk),
        hex_of(&hash)
    );
    let info = parse_chain_info(&body).unwrap();
    assert_eq!(info.public_key, pk);
    assert_eq!(info.period_seconds, 30);
    assert_eq!(info.genesis_time, 1595431050);
    assert_eq!(info.hash, hash);
    assert_eq!(info.scheme_id, "pedersen-bls-chained");
}

#[test]
fn chain_info_rejects_incomplete_or_malformed_documents() {
    let cases = [
        "not json",
        "{}",
        "{\"public_key\":\"zz\",\"period\":1,\"genesis_time\":1,\"hash\":\"00\",\"scheme_id\":\"x\"}",
        // Public key of the wrong length.
        "{\"public_key\":\"0042\",\"period\":1,\"genesis_time\":1,\"hash\":\"00\",\"scheme_id\":\"x\"}",
        // Missing period.
        "{\"public_key\":\"00\",\"genesis_time\":1,\"hash\":\"00\",\"scheme_id\":\"x\"}",
        // Period is not an unsigned integer.
        "{\"public_key\":\"00\",\"period\":-3,\"genesis_time\":1,\"hash\":\"00\",\"scheme_id\":\"x\"}",
    ];
    for body in cases {
        assert_eq!(
            parse_chain_info(body).err().unwrap(),
            DrandClientError::InvalidChainInfo
        );
    }
}

#[test]
fn beacon_parses_with_and_without_previous_signature() {
    let with_prev =
        "{\"round\":8,\"signature\":\"00ff\",\"previous_signature\":\"10\"}";
    let b = parse_beacon(with_prev).unwrap();
    assert_eq!(b.round_number, 8);
    assert_eq!(b.signature, vec![0x00, 0xff]);
    assert_eq!(b.previous_signature.unwrap(), vec![0x10]);

    let without_prev = "{\"round\":8,\"signature\":\"00ff\"}";
    let b = parse_beacon(without_prev).unwrap();
    assert_eq!(b.round_number, 8);
    assert!(b.previous_signature.is_none());
}

#[test]
fn beacon_rejects_malformed_records() {
    let cases = [
        "not json",
        "{\"round\":8}",
        "{\"signature\":\"00\"}",
        "{\"round\":8,\"signature\":\"0g\"}",
        "{\"round\":8,\"signature\":\"00\",\"previous_signature\":\"abc\"}",
        "{\"round\":8,\"signature\":\"00\",\"previous_signature\":7}",
        "{\"round\":\"8\",\"signature\":\"00\"}",
    ];
    for body in cases {
        assert_eq!(parse_beacon(body).err().unwrap(), DrandClientError::InvalidBeacon);
    }
}
