//! A block of data with a proof-of-work puzzle that a nonce search solves.

use crate::digest::{fingerprint, fingerprint_spec, DIGEST_BYTES};
use crate::text::{decimal, decimal_string};
use vstd::prelude::*;
use vstd::string::{StrSliceExecFns, StringExecFns};
use vstd::utf8::encode_utf8;

verus! {

/// What a block holds.
pub struct BlockView {
    pub index: u64,
    pub previous_hash: Seq<char>,
    pub timestamp: u128,
    pub data: Seq<char>,
    pub nonce: u64,
    pub hash: Seq<char>,
}

impl BlockView {
    /// The text that is hashed: index, previous hash, timestamp, data and
    /// nonce, the numbers in decimal, one after the other with nothing
    /// between them. As with a transfer's canonical message, the text does
    /// not say where one field ends and the next begins.
    pub open spec fn preimage(self) -> Seq<char> {
        decimal(self.index as nat) + self.previous_hash + decimal(self.timestamp as nat)
            + self.data + decimal(self.nonce as nat)
    }

    /// The hash that belongs to the contents: the lowercase hexadecimal
    /// SHA-256 digest of the UTF-8 bytes of the preimage. The stored hash
    /// has no part in it.
    pub open spec fn digest(self) -> Seq<char> {
        fingerprint_spec(encode_utf8(self.preimage()))
    }

    /// The same block with another nonce.
    pub open spec fn with_nonce(self, nonce: u64) -> BlockView {
        BlockView { nonce, ..self }
    }
}

/// Whether a hash solves the puzzle at a difficulty: its first `difficulty`
/// characters, or all of them if it has fewer, are `'0'`.
pub open spec fn meets_difficulty(hash: Seq<char>, difficulty: nat) -> bool {
    forall|i: int| 0 <= i < difficulty && i < hash.len() ==> hash[i] == '0'
}

/// Checks a hash against a difficulty.
pub fn has_leading_zeros(hash: &str, difficulty: usize) -> (ok: bool)
    ensures
        ok == meets_difficulty(hash@, difficulty as nat),
{
    let len = hash.unicode_len();
    let limit = if difficulty < len {
        difficulty
    } else {
        len
    };
    let mut i: usize = 0;
    while i < limit
        invariant
            i <= limit <= hash@.len(),
            limit <= difficulty,
            limit == difficulty || limit == hash@.len(),
            forall|k: int| 0 <= k < i ==> hash@[k] == '0',
        decreases limit - i,
    {
        if hash.get_char(i) != '0' {
            return false;
        }
        i = i + 1;
    }
    true
}

/// Reads the clock with `std::time::SystemTime::now` and gives the
/// milliseconds since the Unix epoch, or nothing where the clock reads
/// earlier than the epoch. Nothing is promised of the value.
#[verifier::external_body]
fn unix_millis() -> Option<u128> {
    match std::time::SystemTime::now().duration_since(std::time::UNIX_EPOCH) {
        Ok(elapsed) => Some(elapsed.as_millis()),
        Err(_) => None,
    }
}

/// A block: a position in a sequence, the hash of the block before it, the
/// time of its making, a payload, and the nonce and hash of its proof of
/// work. The hash is empty until the block is mined.
#[derive(Debug)]
pub struct Block {
    index: u64,
    previous_hash: String,
    timestamp: u128,
    data: String,
    nonce: u64,
    pub hash: String,
}

impl View for Block {
    type V = BlockView;

    closed spec fn view(&self) -> BlockView {
        BlockView {
            index: self.index,
            previous_hash: self.previous_hash@,
            timestamp: self.timestamp,
            data: self.data@,
            nonce: self.nonce,
            hash: self.hash@,
        }
    }
}

impl Block {
    /// An unmined block stamped with the current time in milliseconds since
    /// the Unix epoch, or with zero where the clock reads earlier than that.
    pub fn new(index: u64, previous_hash: String, data: String) -> (block: Self)
        ensures
            block@ == (BlockView {
                index,
                previous_hash: previous_hash@,
                timestamp: block@.timestamp,
                data: data@,
                nonce: 0,
                hash: Seq::empty(),
            }),
    {
        let timestamp = match unix_millis() {
            Some(millis) => millis,
            None => 0,
        };
        Block::with_timestamp(index, previous_hash, timestamp, data)
    }

    /// An unmined block with a given timestamp.
    pub fn with_timestamp(
        index: u64,
        previous_hash: String,
        timestamp: u128,
        data: String,
    ) -> (block: Self)
        ensures
            block@ == (BlockView {
                index,
                previous_hash: previous_hash@,
                timestamp,
                data: data@,
                nonce: 0,
                hash: Seq::empty(),
            }),
    {
        Block { index, previous_hash, timestamp, data, nonce: 0, hash: String::new() }
    }

    /// The position of the block.
    pub fn index(&self) -> (index: u64)
        ensures
            index == self@.index,
    {
        self.index
    }

    /// The hash of the block before this one.
    pub fn previous_hash(&self) -> (previous_hash: &str)
        ensures
            previous_hash@ == self@.previous_hash,
    {
        self.previous_hash.as_str()
    }

    /// The time of the block's making, in milliseconds since the Unix epoch.
    pub fn timestamp(&self) -> (timestamp: u128)
        ensures
            timestamp == self@.timestamp,
    {
        self.timestamp
    }

    /// The payload.
    pub fn data(&self) -> (data: &str)
        ensures
            data@ == self@.data,
    {
        self.data.as_str()
    }

    /// The nonce that the last search stopped at.
    pub fn nonce(&self) -> (nonce: u64)
        ensures
            nonce == self@.nonce,
    {
        self.nonce
    }

    /// The hash that belongs to the block's contents and nonce as they stand.
    pub fn calculate_hash(&self) -> (hash: String)
        ensures
            hash@ == self@.digest(),
            hash@.len() == 2 * DIGEST_BYTES,
    {
        let mut preimage = decimal_string(self.index as u128);
        preimage.append(self.previous_hash.as_str());
        let timestamp = decimal_string(self.timestamp);
        preimage.append(timestamp.as_str());
        preimage.append(self.data.as_str());
        let nonce = decimal_string(self.nonce as u128);
        preimage.append(nonce.as_str());
        fingerprint(preimage.as_str().as_bytes())
    }

    /// Searches for a proof of work: starting at the nonce that the block
    /// holds, tries one nonce after the other until the hash meets the
    /// difficulty, and stores the nonce and hash it stopped at.
    ///
    /// The result tells whether a nonce was found. It is `false` only when
    /// every nonce from the starting one up to the largest has failed; the
    /// block then holds the largest nonce and its hash. Either way no nonce
    /// between the starting one and the final one meets the difficulty.
    pub fn mine_block(&mut self, difficulty: usize) -> (mined: bool)
        ensures
            final(self)@ == (BlockView {
                nonce: final(self)@.nonce,
                hash: final(self)@.digest(),
                ..old(self)@
            }),
            old(self)@.nonce <= final(self)@.nonce,
            forall|nonce: u64|
                old(self)@.nonce <= nonce < final(self)@.nonce ==> !meets_difficulty(
                    #[trigger] old(self)@.with_nonce(nonce).digest(),
                    difficulty as nat,
                ),
            mined == meets_difficulty(final(self)@.hash, difficulty as nat),
            mined <==> exists|nonce: u64|
                old(self)@.nonce <= nonce && meets_difficulty(
                    #[trigger] old(self)@.with_nonce(nonce).digest(),
                    difficulty as nat,
                ),
            !mined ==> final(self)@.nonce == u64::MAX,
    {
        self.hash = self.calculate_hash();
        while !has_leading_zeros(self.hash.as_str(), difficulty)
            invariant
                self@ == (BlockView { nonce: self@.nonce, hash: self@.digest(), ..old(self)@ }),
                old(self)@.nonce <= self@.nonce,
                forall|nonce: u64|
                    old(self)@.nonce <= nonce < self@.nonce ==> !meets_difficulty(
                        #[trigger] old(self)@.with_nonce(nonce).digest(),
                        difficulty as nat,
                    ),
            decreases u64::MAX - self@.nonce,
        {
            assert(self@.digest() == old(self)@.with_nonce(self@.nonce).digest());
            if self.nonce == u64::MAX {
                return false;
            }
            self.nonce = self.nonce + 1;
            self.hash = self.calculate_hash();
        }
        assert(self@.digest() == old(self)@.with_nonce(self@.nonce).digest());
        true
    }
}

} // verus!
