//! The byte encoding of a sender and a nonce that contract addresses are
//! hashed from: a recursive-length-prefix list of two items.

use vstd::prelude::*;
use crate::address::Address;
use crate::uint::U256;

verus! {

/// The digits of `n` in base 256, most significant first and without
/// leading zeros; zero has no digits.
pub open spec fn be_digits(n: nat) -> Seq<u8>
    decreases n,
{
    if n == 0 {
        Seq::empty()
    } else {
        be_digits(n / 256).push((n % 256) as u8)
    }
}

/// The number that base-256 digits stand for, most significant first.
pub open spec fn be_value(digits: Seq<u8>) -> nat
    decreases digits.len(),
{
    if digits.len() == 0 {
        0
    } else {
        be_value(digits.drop_last()) * 256 + digits.last() as nat
    }
}

/// 256 to the power `k`.
pub open spec fn radix_pow(k: nat) -> nat
    decreases k,
{
    if k == 0 {
        1
    } else {
        256 * radix_pow((k - 1) as nat)
    }
}

/// The encoding of a byte string of at most 55 bytes as one item: a single
/// byte below 0x80 stands for itself, any other string follows a byte that
/// holds 0x80 plus its length.
pub open spec fn item_encoding(data: Seq<u8>) -> Seq<u8>
    recommends
        data.len() <= 55,
{
    if data.len() == 1 && data[0] < 0x80 {
        data
    } else {
        seq![(0x80 + data.len()) as u8] + data
    }
}

/// The encoding of a list whose items, already encoded, take at most 55
/// bytes together: they follow a byte that holds 0xc0 plus their length.
pub open spec fn list_encoding(payload: Seq<u8>) -> Seq<u8>
    recommends
        payload.len() <= 55,
{
    seq![(0xc0 + payload.len()) as u8] + payload
}

/// The encoding of the list of a sender's address and a nonce, the nonce as
/// the byte string of its base-256 digits.
pub open spec fn sender_nonce_encoding(sender: Seq<u8>, nonce: nat) -> Seq<u8> {
    list_encoding(item_encoding(sender) + item_encoding(be_digits(nonce)))
}

/// Declares `rlp::RlpStream`, the encoder that items are appended to.
#[verifier::external_type_specification]
#[verifier::external_body]
pub struct ExRlpStream(rlp::RlpStream);

/// The encoded items that were appended to the list a stream was begun
/// with, one after the other.
pub uninterp spec fn stream_payload(stream: rlp::RlpStream) -> Seq<u8>;

/// The number of items that the list a stream was begun with still lacks.
pub uninterp spec fn stream_pending(stream: rlp::RlpStream) -> nat;

/// Calls `rlp::RlpStream::new_list`. For a length other than zero that
/// function reserves the byte of the list's header and notes the length,
/// so nothing is appended yet and `len` items are awaited.
#[verifier::external_body]
fn new_list(len: usize) -> (stream: rlp::RlpStream)
    requires
        len > 0,
    ensures
        stream_payload(stream) == Seq::<u8>::empty(),
        stream_pending(stream) == len,
{
    rlp::RlpStream::new_list(len)
}

/// Calls `rlp::RlpStream::append` with a 20-byte hash. Its encoder writes
/// the 20 bytes as one byte string, and the stream counts one item more.
#[verifier::external_body]
fn append_address(stream: &mut rlp::RlpStream, address: &Address)
    requires
        stream_pending(*old(stream)) > 0,
    ensures
        stream_payload(*final(stream)) == stream_payload(*old(stream)) + item_encoding(address@),
        stream_pending(*final(stream)) == stream_pending(*old(stream)) - 1,
{
    stream.append(&ethereum_types::H160(address.0));
}

/// Calls `rlp::RlpStream::append` with a 256-bit integer. Its encoder
/// writes the integer's big-endian bytes without the leading zero bytes as
/// one byte string, and the stream counts one item more.
#[verifier::external_body]
fn append_uint(stream: &mut rlp::RlpStream, number: &U256)
    requires
        stream_pending(*old(stream)) > 0,
    ensures
        stream_payload(*final(stream)) == stream_payload(*old(stream)) + item_encoding(
            be_digits(number@),
        ),
        stream_pending(*final(stream)) == stream_pending(*old(stream)) - 1,
{
    stream.append(&ethereum_types::U256(number.0));
}

/// Calls `rlp::RlpStream::as_raw`. Once the last awaited item is appended
/// the stream writes the list's header into the byte it reserved, which for
/// at most 55 bytes of items is 0xc0 plus their length; `as_raw` hands out
/// the buffer, which is copied here.
#[verifier::external_body]
fn stream_bytes(stream: &rlp::RlpStream) -> (bytes: Vec<u8>)
    requires
        stream_pending(*stream) == 0,
        stream_payload(*stream).len() <= 55,
    ensures
        bytes@ == list_encoding(stream_payload(*stream)),
{
    stream.as_raw().to_vec()
}

/// Encodes the list of `sender` and `nonce`.
pub fn encode_sender_nonce(sender: &Address, nonce: &U256) -> (bytes: Vec<u8>)
    ensures
        bytes@ == sender_nonce_encoding(sender@, nonce@),
{
    let mut stream = new_list(2);
    append_address(&mut stream, sender);
    append_uint(&mut stream, nonce);
    proof {
        nonce.lemma_in_range();
        lemma_modulus_is_radix_pow();
        lemma_be_digits_len(nonce@, 32);
    }
    stream_bytes(&stream)
}

/// A number below 256 to the power `k` has at most `k` digits.
pub proof fn lemma_be_digits_len(n: nat, k: nat)
    requires
        n < radix_pow(k),
    ensures
        be_digits(n).len() <= k,
    decreases n,
{
    if n != 0 {
        lemma_be_digits_len(n / 256, (k - 1) as nat);
    }
}

/// Two to the power 256 is 256 to the power 32.
pub proof fn lemma_modulus_is_radix_pow()
    ensures
        crate::uint::modulus() == radix_pow(32),
{
    reveal_with_fuel(radix_pow, 33);
}

/// The digits of a number stand for that number.
pub proof fn lemma_be_value_of_digits(n: nat)
    ensures
        be_value(be_digits(n)) == n,
    decreases n,
{
    if n != 0 {
        lemma_be_value_of_digits(n / 256);
        let higher = be_digits(n / 256);
        assert(higher.push((n % 256) as u8).drop_last() =~= higher);
    }
}

/// Byte strings of at most 55 bytes with one item encoding are equal.
pub proof fn lemma_item_encoding_injective(first: Seq<u8>, second: Seq<u8>)
    requires
        first.len() <= 55,
        second.len() <= 55,
        item_encoding(first) == item_encoding(second),
    ensures
        first == second,
{
    let code = item_encoding(first);
    if first.len() == 1 && first[0] < 0x80 {
        assert(code[0] < 0x80);
    } else if second.len() == 1 && second[0] < 0x80 {
        assert(code[0] < 0x80);
    } else {
        assert(first =~= code.subrange(1, code.len() as int));
        assert(second =~= code.subrange(1, code.len() as int));
    }
}

/// The encoding of a sender and a nonce tells both: two 20-byte senders
/// and two nonces below two to the power 256 with one encoding are equal.
pub proof fn lemma_sender_nonce_encoding_injective(
    sender: Seq<u8>,
    nonce: nat,
    other_sender: Seq<u8>,
    other_nonce: nat,
)
    requires
        sender.len() == 20,
        other_sender.len() == 20,
        nonce < crate::uint::modulus(),
        other_nonce < crate::uint::modulus(),
        sender_nonce_encoding(sender, nonce) == sender_nonce_encoding(other_sender, other_nonce),
    ensures
        sender == other_sender,
        nonce == other_nonce,
{
    lemma_modulus_is_radix_pow();
    lemma_be_digits_len(nonce, 32);
    lemma_be_digits_len(other_nonce, 32);
    let digits = be_digits(nonce);
    let other_digits = be_digits(other_nonce);
    let payload = item_encoding(sender) + item_encoding(digits);
    let other_payload = item_encoding(other_sender) + item_encoding(other_digits);
    let code = sender_nonce_encoding(sender, nonce);
    assert(payload =~= code.subrange(1, code.len() as int));
    assert(other_payload =~= code.subrange(1, code.len() as int));
    assert(sender =~= payload.subrange(1, 21));
    assert(other_sender =~= payload.subrange(1, 21));
    assert(item_encoding(digits) =~= payload.subrange(21, payload.len() as int));
    assert(item_encoding(other_digits) =~= payload.subrange(21, payload.len() as int));
    lemma_item_encoding_injective(digits, other_digits);
    lemma_be_value_of_digits(nonce);
    lemma_be_value_of_digits(other_nonce);
}

} // verus!
