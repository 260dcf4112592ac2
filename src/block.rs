//! Blocks: records sealed by a proof-of-work search over their nonce.
use vstd::prelude::*;
use vstd::string::StringExecFns;

use crate::clock::unix_time_secs;
use crate::digest::{digest_hex, has_zero_prefix, meets_target, sha256_hex};
use crate::encoding::{encodable, field_bytes, lemma_field_bytes_injective, serialize_fields};

verus! {

/// Leading zero hex digits that a block's digest needs by default.
pub const DEFAULT_DIFFICULTY: usize = 4;

/// The payload of every genesis block, as characters.
pub open spec fn genesis_payload() -> Seq<char> {
    "Genesis block"@
}

/// Why a block could not be made.
#[derive(Debug, Clone, Copy, PartialEq, Eq, Structural)]
pub enum ChainError {
    /// The wall clock could not be read as seconds since the Unix epoch.
    Clock,
    /// The fields could not be put in their canonical byte form.
    Encoding,
    /// No nonce gives a digest that meets the target.
    PuzzleUnsolved,
}

/// A sealed record: its payload, the identity of its predecessor, and the
/// nonce that makes its digest meet the difficulty target.
#[derive(Debug)]
pub struct Block {
    timestamp: u64,
    transactions: String,
    prev_block_hash: String,
    hash: String,
    height: usize,
    nonce: u64,
    difficulty: usize,
}

/// The fields of a block as mathematical values.
pub struct BlockView {
    pub timestamp: u64,
    pub payload: Seq<char>,
    pub prev_hash: Seq<char>,
    pub hash: Seq<char>,
    pub height: usize,
    pub nonce: u64,
    pub difficulty: usize,
}

/// The digest of the fields `(prev_hash, payload, timestamp, difficulty, nonce)`.
pub open spec fn fields_digest(
    prev_hash: Seq<char>,
    payload: Seq<char>,
    timestamp: u64,
    difficulty: usize,
    nonce: u64,
) -> Seq<char> {
    sha256_hex(field_bytes(prev_hash, payload, timestamp, difficulty, nonce))
}

/// `nonce` solves the puzzle posed by the other fields.
pub open spec fn solves(
    prev_hash: Seq<char>,
    payload: Seq<char>,
    timestamp: u64,
    difficulty: usize,
    nonce: u64,
) -> bool {
    meets_target(fields_digest(prev_hash, payload, timestamp, difficulty, nonce), difficulty as nat)
}

/// No nonce solves the puzzle posed by the other fields.
pub open spec fn unsolvable(
    prev_hash: Seq<char>,
    payload: Seq<char>,
    timestamp: u64,
    difficulty: usize,
) -> bool {
    forall|n: u64| !#[trigger] solves(prev_hash, payload, timestamp, difficulty, n)
}

impl BlockView {
    /// The digest recomputed from the stored fields.
    pub open spec fn digest(self) -> Seq<char> {
        fields_digest(self.prev_hash, self.payload, self.timestamp, self.difficulty, self.nonce)
    }

    /// The recomputed digest meets the difficulty target.
    pub open spec fn is_valid(self) -> bool {
        solves(self.prev_hash, self.payload, self.timestamp, self.difficulty, self.nonce)
    }

    /// Valid, and the stored hash is the recomputed digest: 64 hex
    /// characters.
    pub open spec fn is_sealed(self) -> bool {
        &&& self.is_valid()
        &&& self.hash == self.digest()
        &&& self.hash.len() == 64
    }

    /// Sealed with the least nonce that solves its puzzle: what the search
    /// from nonce 0 finds.
    pub open spec fn is_mined(self) -> bool {
        &&& self.is_sealed()
        &&& forall|n: u64|
            n < self.nonce ==> !#[trigger] solves(
                self.prev_hash,
                self.payload,
                self.timestamp,
                self.difficulty,
                n,
            )
    }
}

impl View for Block {
    type V = BlockView;

    closed spec fn view(&self) -> BlockView {
        BlockView {
            timestamp: self.timestamp,
            payload: self.transactions@,
            prev_hash: self.prev_block_hash@,
            hash: self.hash@,
            height: self.height,
            nonce: self.nonce,
            difficulty: self.difficulty,
        }
    }
}

/// The digest of the given fields in their canonical byte form.
fn field_digest(
    prev_hash: &String,
    payload: &String,
    timestamp: u64,
    difficulty: usize,
    nonce: u64,
) -> (r: Result<String, ChainError>)
    ensures
        r matches Ok(h) && h@ == fields_digest(prev_hash@, payload@, timestamp, difficulty, nonce)
            && h@.len() == 64,
{
    match serialize_fields(prev_hash, payload, timestamp, difficulty, nonce) {
        Ok(bytes) => Ok(digest_hex(&bytes)),
        Err(_) => Err(ChainError::Encoding),
    }
}

impl Block {
    /// The block's identity: its hash.
    pub fn get_hash(&self) -> (r: String)
        ensures
            r@ == self@.hash,
    {
        self.hash.clone()
    }

    /// Seals a block stamped with the current wall-clock time, at the
    /// default difficulty.
    pub fn new_block(data: String, prev_block_hash: String, height: usize) -> (r: Result<
        Block,
        ChainError,
    >)
        ensures
            match r {
                Ok(b) => {
                    &&& b@.payload == data@
                    &&& b@.prev_hash == prev_block_hash@
                    &&& b@.height == height
                    &&& b@.difficulty == DEFAULT_DIFFICULTY
                    &&& b@.hash.len() == 64
                    &&& b@.is_mined()
                },
                Err(e) => e == ChainError::Clock || (e == ChainError::PuzzleUnsolved && exists|
                    t: u64,
                | #[trigger] unsolvable(prev_block_hash@, data@, t, DEFAULT_DIFFICULTY)),
            },
    {
        match unix_time_secs() {
            Some(timestamp) => Block::mine(
                data,
                prev_block_hash,
                height,
                timestamp,
                DEFAULT_DIFFICULTY,
            ),
            None => Err(ChainError::Clock),
        }
    }

    /// Seals the first block of a chain at the given time: the payload
    /// `"Genesis block"`, an empty previous hash, height 0, the default
    /// difficulty.
    pub fn genesis_at(timestamp: u64) -> (r: Result<Block, ChainError>)
        ensures
            match r {
                Ok(b) => {
                    &&& b@.payload == genesis_payload()
                    &&& b@.prev_hash.len() == 0
                    &&& b@.height == 0
                    &&& b@.timestamp == timestamp
                    &&& b@.difficulty == DEFAULT_DIFFICULTY
                    &&& b@.hash.len() == 64
                    &&& b@.is_mined()
                },
                Err(e) => e == ChainError::PuzzleUnsolved && unsolvable(
                    Seq::empty(),
                    genesis_payload(),
                    timestamp,
                    DEFAULT_DIFFICULTY,
                ),
            },
    {
        let prev = String::new();
        assert(prev@ =~= Seq::<char>::empty());
        Block::mine(String::from_str("Genesis block"), prev, 0, timestamp, DEFAULT_DIFFICULTY)
    }

    /// Seals the first block of a chain, stamped with the current
    /// wall-clock time.
    pub fn new_genesis_block() -> (r: Result<Block, ChainError>)
        ensures
            match r {
                Ok(b) => {
                    &&& b@.payload == genesis_payload()
                    &&& b@.prev_hash.len() == 0
                    &&& b@.height == 0
                    &&& b@.difficulty == DEFAULT_DIFFICULTY
                    &&& b@.hash.len() == 64
                    &&& b@.is_mined()
                },
                Err(e) => e == ChainError::Clock || (e == ChainError::PuzzleUnsolved && exists|
                    t: u64,
                | #[trigger] unsolvable(Seq::empty(), genesis_payload(), t, DEFAULT_DIFFICULTY)),
            },
    {
        match unix_time_secs() {
            Some(timestamp) => Block::genesis_at(timestamp),
            None => Err(ChainError::Clock),
        }
    }

    /// Recomputes the digest from the stored fields and tells whether it
    /// meets the block's difficulty target.
    pub fn is_valid(&self) -> (r: bool)
        ensures
            r == self@.is_valid(),
    {
        match field_digest(
            &self.prev_block_hash,
            &self.transactions,
            self.timestamp,
            self.difficulty,
            self.nonce,
        ) {
            Ok(h) => has_zero_prefix(&h, self.difficulty),
            Err(_) => false,
        }
    }

    /// A block with the given fields, as stored; nothing is checked.
    pub fn from_parts(
        timestamp: u64,
        data: String,
        prev_block_hash: String,
        hash: String,
        height: usize,
        nonce: u64,
        difficulty: usize,
    ) -> (r: Block)
        ensures
            r@ == (BlockView {
                timestamp,
                payload: data@,
                prev_hash: prev_block_hash@,
                hash: hash@,
                height,
                nonce,
                difficulty,
            }),
    {
        Block { timestamp, transactions: data, prev_block_hash, hash, height, nonce, difficulty }
    }

    /// The payload.
    pub fn data(&self) -> (r: &String)
        ensures
            r@ == self@.payload,
    {
        &self.transactions
    }

    /// The identity of the preceding block; empty for a genesis block.
    pub fn prev_hash(&self) -> (r: &String)
        ensures
            r@ == self@.prev_hash,
    {
        &self.prev_block_hash
    }

    /// Seconds since the Unix epoch when the block was sealed.
    pub fn timestamp(&self) -> (r: u64)
        ensures
            r == self@.timestamp,
    {
        self.timestamp
    }

    /// Position in the chain; 0 for a genesis block.
    pub fn height(&self) -> (r: usize)
        ensures
            r == self@.height,
    {
        self.height
    }

    /// The nonce that the search found.
    pub fn nonce(&self) -> (r: u64)
        ensures
            r == self@.nonce,
    {
        self.nonce
    }

    /// Leading zero hex digits that the block's digest needs.
    pub fn difficulty(&self) -> (r: usize)
        ensures
            r == self@.difficulty,
    {
        self.difficulty
    }

    /// Seals a block at the given time: searches the nonces upward from 0
    /// for the first whose digest meets the target, and stores that digest
    /// as the hash. Fails only when no nonce solves the puzzle.
    pub fn mine(
        data: String,
        prev_block_hash: String,
        height: usize,
        timestamp: u64,
        difficulty: usize,
    ) -> (r: Result<Block, ChainError>)
        ensures
            match r {
                Ok(b) => {
                    &&& b@.payload == data@
                    &&& b@.prev_hash == prev_block_hash@
                    &&& b@.height == height
                    &&& b@.timestamp == timestamp
                    &&& b@.difficulty == difficulty
                    &&& b@.hash.len() == 64
                    &&& b@.is_mined()
                },
                Err(e) => e == ChainError::PuzzleUnsolved && unsolvable(
                    prev_block_hash@,
                    data@,
                    timestamp,
                    difficulty,
                ),
            },
    {
        let mut nonce: u64 = 0;
        loop
            invariant
                forall|n: u64|
                    n < nonce ==> !#[trigger] solves(
                        prev_block_hash@,
                        data@,
                        timestamp,
                        difficulty,
                        n,
                    ),
            decreases u64::MAX - nonce,
        {
            let hash = match field_digest(&prev_block_hash, &data, timestamp, difficulty, nonce) {
                Ok(h) => h,
                Err(e) => return Err(e),
            };
            if has_zero_prefix(&hash, difficulty) {
                return Ok(
                    Block {
                        timestamp,
                        transactions: data,
                        prev_block_hash,
                        hash,
                        height,
                        nonce,
                        difficulty,
                    },
                );
            }
            if nonce == u64::MAX {
                assert forall|n: u64|
                    !#[trigger] solves(prev_block_hash@, data@, timestamp, difficulty, n) by {
                    if n == nonce {
                    }
                }
                return Err(ChainError::PuzzleUnsolved);
            }
            nonce = nonce + 1;
        }
    }
}

/// Mining is deterministic: two blocks mined from the same previous hash,
/// payload, timestamp and difficulty have the same nonce and the same hash.
pub proof fn lemma_mining_deterministic(a: BlockView, b: BlockView)
    requires
        a.is_mined(),
        b.is_mined(),
        a.prev_hash == b.prev_hash,
        a.payload == b.payload,
        a.timestamp == b.timestamp,
        a.difficulty == b.difficulty,
    ensures
        a.nonce == b.nonce,
        a.hash == b.hash,
{
    if a.nonce < b.nonce {
        assert(!solves(b.prev_hash, b.payload, b.timestamp, b.difficulty, a.nonce));
    }
    if b.nonce < a.nonce {
        assert(!solves(a.prev_hash, a.payload, a.timestamp, a.difficulty, b.nonce));
    }
}

/// Changing any sealed field of a block (previous hash, payload, timestamp,
/// difficulty or nonce) changes the bytes whose digest validation checks.
pub proof fn lemma_changed_fields_change_digest_input(a: BlockView, b: BlockView)
    requires
        encodable(a.prev_hash),
        encodable(a.payload),
        encodable(b.prev_hash),
        encodable(b.payload),
        a.prev_hash != b.prev_hash || a.payload != b.payload || a.timestamp != b.timestamp
            || a.difficulty != b.difficulty || a.nonce != b.nonce,
    ensures
        field_bytes(a.prev_hash, a.payload, a.timestamp, a.difficulty, a.nonce) != field_bytes(
            b.prev_hash,
            b.payload,
            b.timestamp,
            b.difficulty,
            b.nonce,
        ),
{
    if field_bytes(a.prev_hash, a.payload, a.timestamp, a.difficulty, a.nonce) == field_bytes(
        b.prev_hash,
        b.payload,
        b.timestamp,
        b.difficulty,
        b.nonce,
    ) {
        lemma_field_bytes_injective(
            a.prev_hash,
            a.payload,
            a.timestamp,
            a.difficulty,
            a.nonce,
            b.prev_hash,
            b.payload,
            b.timestamp,
            b.difficulty,
            b.nonce,
        );
    }
}

} // verus!
