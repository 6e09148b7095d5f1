use ethkey::encoding::encode_sender_nonce;
use ethkey::{Address, U256};

const SENDER: Address = Address([
    0x6a, 0xc7, 0xea, 0x33, 0xf8, 0x83, 0x1e, 0xa9, 0xdc, 0xc5, 0x33, 0x93, 0xaa, 0xa8, 0x8b, 0x25,
    0xa7, 0x85, 0xdb, 0xf0,
]);

fn expected_encoding(header: u8, nonce_item: &[u8]) -> Vec<u8> {
    let mut bytes: Vec<u8> = vec![header, 0x94];
    bytes.extend_from_slice(&SENDER.0);
    bytes.extend_from_slice(nonce_item);
    bytes
}

#[test]
fn nonce_zero_is_the_empty_string() {
    assert_eq!(encode_sender_nonce(&SENDER, &U256::zero()), expected_encoding(0xd6, &[0x80]));
}

#[test]
fn small_nonce_is_its_own_byte() {
    assert_eq!(encode_sender_nonce(&SENDER, &U256::from_u64(1)), expected_encoding(0xd6, &[0x01]));
    assert_eq!(encode_sender_nonce(&SENDER, &U256::from_u64(0x58)), expected_encoding(0xd6, &[0x58]));
    assert_eq!(encode_sender_nonce(&SENDER, &U256::from_u64(0x7f)), expected_encoding(0xd6, &[0x7f]));
}

#[test]
fn nonce_from_128_on_gets_a_length_byte() {
    assert_eq!(
        encode_sender_nonce(&SENDER, &U256::from_u64(0x80)),
        expected_encoding(0xd7, &[0x81, 0x80])
    );
    assert_eq!(
        encode_sender_nonce(&SENDER, &U256::from_u64(0xff)),
        expected_encoding(0xd7, &[0x81, 0xff])
    );
}

#[test]
fn nonce_digits_come_most_significant_first() {
    assert_eq!(
        encode_sender_nonce(&SENDER, &U256::from_u64(0x100)),
        expected_encoding(0xd8, &[0x82, 0x01, 0x00])
    );
    assert_eq!(
        encode_sender_nonce(&SENDER, &U256::from_u64(0x0102_0304_0506_0708)),
        expected_encoding(0xde, &[0x88, 0x01, 0x02, 0x03, 0x04, 0x05, 0x06, 0x07, 0x08])
    );
}

#[test]
fn nonce_limbs_come_least_significant_first() {
    assert_eq!(
        encode_sender_nonce(&SENDER, &U256([0, 1, 0, 0])),
        expected_encoding(0xdf, &[0x89, 0x01, 0, 0, 0, 0, 0, 0, 0, 0])
    );
    let mut item: Vec<u8> = vec![0x99, 0x02];
    item.extend_from_slice(&[0u8; 16]);
    item.extend_from_slice(&[0, 0, 0, 0, 0, 0, 0, 0x03]);
    assert_eq!(encode_sender_nonce(&SENDER, &U256([3, 0, 0, 2])), expected_encoding(0xef, &item));
}

#[test]
fn largest_nonce_fills_the_short_list() {
    let mut item: Vec<u8> = vec![0xa0];
    item.extend_from_slice(&[0xff; 32]);
    let encoded = encode_sender_nonce(&SENDER, &U256([u64::MAX; 4]));
    assert_eq!(encoded.len(), 55);
    assert_eq!(encoded, expected_encoding(0xf6, &item));
}

#[test]
fn sender_bytes_are_kept_in_order() {
    let mut bytes = [0u8; 20];
    for (i, byte) in bytes.iter_mut().enumerate() {
        *byte = 0xf0 + i as u8;
    }
    let encoded = encode_sender_nonce(&Address(bytes), &U256::from_u64(5));
    assert_eq!(encoded.len(), 23);
    assert_eq!(encoded[0], 0xd6);
    assert_eq!(encoded[1], 0x94);
    assert_eq!(&encoded[2..22], &bytes[..]);
    assert_eq!(encoded[22], 5);
}

#[test]
fn encoding_tells_sender_and_nonce_apart() {
    let a = encode_sender_nonce(&SENDER, &U256::from_u64(0x80));
    let b = encode_sender_nonce(&SENDER, &U256::from_u64(0x8000));
    let c = encode_sender_nonce(&Address([0x80; 20]), &U256::from_u64(0x80));
    assert_ne!(a, b);
    assert_ne!(a, c);
    assert_ne!(b, c);
}
