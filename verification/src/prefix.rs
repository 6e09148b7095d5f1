//! The search for a keypair by the address of its first contract.

use vstd::prelude::*;
use crate::address::Address;
use crate::encoding::{
    encode_sender_nonce, lemma_sender_nonce_encoding_injective, sender_nonce_encoding,
};
use crate::error::Error;
use crate::hash::{keccak, keccak256};
use crate::keypair::{random_keypair, KeyPair};
use crate::uint::U256;

verus! {

/// The address of the contract that the account `sender` creates by the
/// transaction with the number `nonce`: the last twenty bytes of the
/// Keccak-256 digest of the encoded list of the two.
pub open spec fn contract_address(sender: Seq<u8>, nonce: nat) -> Seq<u8> {
    keccak256(sender_nonce_encoding(sender, nonce)).subrange(12, 32)
}

/// Deriving twice from one sender and one nonce gives one address: two
/// addresses that both meet the contract of the derivation are equal.
pub proof fn lemma_derivation_deterministic(
    sender: Address,
    nonce: U256,
    first: Address,
    second: Address,
)
    requires
        first@ == contract_address(sender@, nonce@),
        second@ == contract_address(sender@, nonce@),
    ensures
        first == second,
{
    assert(first.0 =~= second.0);
}

/// Two derivations that differ in the sender or in the nonce hash
/// different byte strings, so their addresses can only agree where the
/// hash function lets different inputs collide.
pub proof fn lemma_distinct_inputs_distinct_preimages(
    sender: Address,
    nonce: U256,
    other_sender: Address,
    other_nonce: U256,
)
    requires
        sender != other_sender || nonce != other_nonce,
    ensures
        sender_nonce_encoding(sender@, nonce@) != sender_nonce_encoding(
            other_sender@,
            other_nonce@,
        ),
{
    if sender_nonce_encoding(sender@, nonce@) == sender_nonce_encoding(
        other_sender@,
        other_nonce@,
    ) {
        nonce.lemma_in_range();
        other_nonce.lemma_in_range();
        lemma_sender_nonce_encoding_injective(sender@, nonce@, other_sender@, other_nonce@);
        nonce.lemma_value_injective(other_nonce);
        assert(sender.0 =~= other_sender.0);
    }
}

/// What a search was set up with.
pub struct SearchRequest {
    /// The bytes that the contract address has to begin with.
    pub prefix: Seq<u8>,
    /// The number of keypairs that one search may try.
    pub iterations: nat,
}

impl SearchRequest {
    /// Whether the search takes an account with the address `sender`: the
    /// address of its first contract begins with the wanted bytes.
    pub open spec fn selects(self, sender: Seq<u8>) -> bool {
        self.prefix.is_prefix_of(contract_address(sender, 0))
    }

    /// Whether the search takes none of the accounts `senders`.
    pub open spec fn rejects_all(self, senders: Seq<Seq<u8>>) -> bool {
        forall|i: int| 0 <= i < senders.len() ==> !self.selects(#[trigger] senders[i])
    }

    /// Whether `senders` are candidates that use up the budget: as many
    /// accounts as one search may try, none of which it takes.
    pub open spec fn exhausted_by(self, senders: Seq<Seq<u8>>) -> bool {
        senders.len() == self.iterations && self.rejects_all(senders)
    }
}

/// Tries to find a keypair whose first contract gets an address that
/// starts with a given prefix.
pub struct Prefix {
    prefix: Vec<u8>,
    iterations: usize,
}

impl View for Prefix {
    type V = SearchRequest;

    closed spec fn view(&self) -> SearchRequest {
        SearchRequest { prefix: self.prefix@, iterations: self.iterations as nat }
    }
}

impl Prefix {
    /// A search for `prefix` that tries at most `iterations` keypairs.
    pub fn new(prefix: Vec<u8>, iterations: usize) -> (search: Self)
        ensures
            search@ == (SearchRequest { prefix: prefix@, iterations: iterations as nat }),
    {
        Prefix { prefix, iterations }
    }

    /// The bytes that the contract address has to begin with.
    pub fn prefix(&self) -> (bytes: &[u8])
        ensures
            bytes@ == self@.prefix,
    {
        self.prefix.as_slice()
    }

    /// The number of keypairs that one search may try.
    pub fn iterations(&self) -> (budget: usize)
        ensures
            budget == self@.iterations,
    {
        self.iterations
    }

    /// Whether the search takes the account `sender`.
    pub fn accepts(&self, sender: &Address) -> (hit: bool)
        ensures
            hit == self@.selects(sender@),
            hit ==> self@.prefix.len() <= 20,
    {
        let derived = Self::mk_contract_address(*sender, U256::zero());
        derived.starts_with(self.prefix.as_slice())
    }

    /// Draws random keypairs, one per attempt, until the search takes one
    /// or the budget is spent. The keypair that was taken is returned; a
    /// failure means that as many candidates as the budget allows were
    /// turned down.
    pub fn generate(&mut self) -> (found: Result<KeyPair, Error>)
        ensures
            final(self)@ == old(self)@,
            found matches Ok(pair) ==> old(self)@.selects(pair@.address()),
            found matches Err(e) ==> e == Error::SearchExhausted && exists|senders: Seq<Seq<u8>>|
                #[trigger] old(self)@.exhausted_by(senders),
            old(self)@.iterations == 0 ==> found is Err,
            old(self)@.iterations > 0 && old(self)@.prefix.len() == 0 ==> found is Ok,
            old(self)@.prefix.len() > 20 ==> found is Err,
    {
        let ghost mut turned_down: Seq<Seq<u8>> = Seq::empty();
        let mut attempts: usize = 0;
        while attempts < self.iterations
            invariant
                self@ == old(self)@,
                attempts <= self.iterations,
                turned_down.len() == attempts,
                self@.rejects_all(turned_down),
                self@.prefix.len() == 0 ==> attempts == 0,
            decreases self.iterations - attempts,
        {
            let pair = random_keypair();
            let sender = pair.address();
            if self.accepts(&sender) {
                return Ok(pair);
            }
            proof {
                turned_down = turned_down.push(sender@);
            }
            attempts += 1;
        }
        assert(self@.exhausted_by(turned_down));
        Err(Error::SearchExhausted)
    }

    /// The address of the contract that `sender` creates by its
    /// transaction number `nonce`.
    pub fn mk_contract_address(sender: Address, nonce: U256) -> (derived: Address)
        ensures
            derived@ == contract_address(sender@, nonce@),
    {
        let encoded = encode_sender_nonce(&sender, &nonce);
        let digest = keccak(encoded.as_slice());
        Address::from_digest(&digest)
    }
}

} // verus!
