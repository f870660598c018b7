use vstd::prelude::*;
use vstd::string::*;
use crate::blockchain::block::{Block, BlockView};
use crate::types::blockchain::{all_valid, contents, Transaction, TransactionView};
use crate::utils::json::hex_digit;
use crate::utils::text::{debug_quoted, debug_string, decimal, decimal_text};
use crate::types::time::utc_debug_text;

verus! {

/// The SHA-256 digest of a message: 32 bytes.
pub uninterp spec fn sha256(message: Seq<u8>) -> Seq<u8>;

/// The bytes in lower-case hexadecimal, two digits for each byte, the high half first.
pub open spec fn hex(bytes: Seq<u8>) -> Seq<char> {
    Seq::new(
        2 * bytes.len(),
        |i: int|
            if i % 2 == 0 {
                hex_digit(bytes[i / 2] as int / 16)
            } else {
                hex_digit(bytes[i / 2] as int % 16)
            },
    )
}

/// The digest that stands for a text: the SHA-256 of its UTF-8 bytes, in hexadecimal.
pub open spec fn digest_of(text: Seq<char>) -> Seq<char> {
    hex(sha256(vstd::utf8::encode_utf8(text)))
}

/// The SHA-256 digest of `message`. This is `sha2::Sha256::digest`; the digest depends on
/// the bytes of the message alone and is 32 bytes long.
#[verifier::external_body]
fn sha256_of(message: &[u8]) -> (r: Vec<u8>)
    ensures
        r@ == sha256(message@),
        r@.len() == 32,
{
    <sha2::Sha256 as sha2::Digest>::digest(message).to_vec()
}

/// The bytes in lower-case hexadecimal. This is `hex::encode`, which writes for each byte
/// the digit of its high half and then the digit of its low half, from `0123456789abcdef`.
#[verifier::external_body]
fn hex_of(bytes: &[u8]) -> (r: String)
    ensures
        r@ == hex(bytes@),
{
    hex::encode(bytes)
}

/// The digest of `input`: the SHA-256 of its bytes, as 64 lower-case hexadecimal digits.
pub fn hasher(input: String) -> (r: String)
    ensures
        r@ == digest_of(input@),
        r@.len() == 64,
{
    let digest = sha256_of(input.as_str().as_bytes());
    hex_of(digest.as_slice())
}

/// The JSON texts of the transactions, with a comma between each two.
pub open spec fn joined(transactions: Seq<TransactionView>) -> Seq<char>
    decreases transactions.len(),
{
    if transactions.len() == 0 {
        Seq::empty()
    } else if transactions.len() == 1 {
        transactions[0].json()
    } else {
        joined(transactions.drop_last()) + ","@ + transactions.last().json()
    }
}

/// The JSON array of the transactions, in their order and without white space.
pub open spec fn transactions_json(transactions: Seq<TransactionView>) -> Seq<char> {
    "["@ + joined(transactions) + "]"@
}

/// The digest of a sequence of transactions: that of their JSON array.
pub open spec fn transactions_digest(transactions: Seq<TransactionView>) -> Seq<char> {
    digest_of(transactions_json(transactions))
}

/// What Rust prints for an optional string under `{:?}`.
pub open spec fn debug_optional(s: Option<Seq<char>>) -> Seq<char> {
    match s {
        Some(t) => "Some("@ + debug_quoted(t) + ")"@,
        None => "None"@,
    }
}

/// The text that is hashed for a block: its index, its previous hash, its hash field, the
/// JSON array of its transactions and its timestamp, each as Rust prints it under `{:?}`,
/// one behind the other.
pub open spec fn block_preimage(block: BlockView) -> Seq<char> {
    decimal(block.index as nat) + debug_quoted(block.prev_hash) + debug_optional(block.hash)
        + debug_quoted(transactions_json(block.transactions)) + utc_debug_text(
        block.timestamp.spec_seconds(),
        block.timestamp.spec_nanoseconds(),
    )
}

/// The digest of a block. The block's `merkle_root` has no part in it.
pub open spec fn block_digest(block: BlockView) -> Seq<char> {
    digest_of(block_preimage(block))
}

/// The JSON array of the transactions, in their order and without white space. The
/// figures in the transactions are numbers, so the array tells the transactions: see
/// `lemma_transactions_json_tells`.
pub fn transaction_serialize(transactions: &Vec<Transaction>) -> (r: String)
    ensures
        r@ == transactions_json(contents(transactions@)),
        all_valid(contents(transactions@)),
{
    let mut r = String::from_str("[");
    let mut i: usize = 0;
    while i < transactions.len()
        invariant
            i <= transactions.len(),
            r@ == "["@ + joined(contents(transactions@).take(i as int)),
            all_valid(contents(transactions@).take(i as int)),
        decreases transactions.len() - i,
    {
        let ghost done = contents(transactions@).take(i as int);
        let ghost next = contents(transactions@).take(i + 1);
        assert(next.drop_last() =~= done);
        assert(next.last() == transactions@[i as int]@);
        if i > 0 {
            r.append(",");
        }
        r.append(transactions[i].to_json().as_str());
        assert(r@ =~= "["@ + joined(next));
        assert forall|k: int| 0 <= k < next.len() implies (#[trigger] next[k]).valid() by {
            if k < i {
                assert(next[k] == done[k]);
            }
        }
        i = i + 1;
    }
    assert(contents(transactions@).take(i as int) =~= contents(transactions@));
    r.append("]");
    r
}

/// An optional string as Rust prints it under `{:?}`.
fn debug_optional_string(s: &Option<String>) -> (r: String)
    ensures
        r@ == debug_optional(
            match *s {
                Some(t) => Some(t@),
                None => None,
            },
        ),
{
    match s {
        Some(t) => {
            let mut r = String::from_str("Some(");
            r.append(debug_string(t.as_str()).as_str());
            r.append(")");
            r
        },
        None => String::from_str("None"),
    }
}

/// The digest of a block: the hash of its index, previous hash, hash field, transactions
/// and timestamp. Nothing of the block changes, and the same block gives the same digest.
pub fn block_hasher(block: &Block) -> (r: String)
    ensures
        r@ == block_digest(block@),
        r@.len() == 64,
{
    let transaction = transaction_serialize(&block.transactions);
    let mut input = decimal_text(block.index as u64);
    input.append(debug_string(block.prev_hash.as_str()).as_str());
    input.append(debug_optional_string(&block.hash).as_str());
    input.append(debug_string(transaction.as_str()).as_str());
    input.append(block.timestamp.debug_text().as_str());
    hasher(input)
}

/// The digest of a sequence of transactions: the hash of their JSON array.
pub fn transactions_hasher(transactions: &Vec<Transaction>) -> (r: String)
    ensures
        r@ == transactions_digest(contents(transactions@)),
        r@.len() == 64,
{
    let transaction = transaction_serialize(transactions);
    hasher(transaction)
}

/// The same transactions in the same order have the same digest, whatever strings hold
/// them.
pub proof fn lemma_transactions_digest_is_a_function(a: Seq<Transaction>, b: Seq<Transaction>)
    requires
        contents(a) == contents(b),
    ensures
        transactions_digest(contents(a)) == transactions_digest(contents(b)),
{
}

} // verus!
