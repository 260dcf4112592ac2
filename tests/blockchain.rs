use crypto::digest::Digest;
use crypto::sha2::Sha256;
use ethereum_client::block::{Block, DEFAULT_DIFFICULTY};
use ethereum_client::chain::Blockchain;
use ethereum_client::digest::has_zero_prefix;

const T0: u64 = 1_700_000_000;

fn le(x: u64) -> Vec<u8> {
    x.to_le_bytes().to_vec()
}

fn expected_bytes(prev: &str, payload: &str, ts: u64, difficulty: u64, nonce: u64) -> Vec<u8> {
    let mut v = Vec::new();
    v.extend(le(prev.len() as u64));
    v.extend(prev.as_bytes());
    v.extend(le(payload.len() as u64));
    v.extend(payload.as_bytes());
    v.extend(le(ts));
    v.extend(le(difficulty));
    v.extend(le(nonce));
    v
}

fn sha256_hex(bytes: &[u8]) -> String {
    let mut h = Sha256::new();
    h.input(bytes);
    h.result_str()
}

#[test]
fn test_blockchain() {
    let mut blockchain = Blockchain::new().unwrap();
    blockchain.add_block("First block".to_string()).unwrap();
    blockchain.add_block("Second block".to_string()).unwrap();
    assert_eq!(blockchain.len(), 3);
}

#[test]
fn genesis_chain_has_one_valid_block() {
    let chain = Blockchain::new().unwrap();
    assert_eq!(chain.len(), 1);
    let tip = chain.tip();
    assert_eq!(tip.height(), 0);
    assert_eq!(tip.prev_hash(), "");
    assert_eq!(tip.data(), "Genesis block");
    assert_eq!(tip.difficulty(), DEFAULT_DIFFICULTY);
    assert!(tip.is_valid());
    assert!(tip.get_hash().starts_with("0000"));
}

#[test]
fn two_appends_link_and_validate() {
    let mut chain = Blockchain::new().unwrap();
    chain.add_block("First block".to_string()).unwrap();
    chain.add_block("Second block".to_string()).unwrap();
    assert_eq!(chain.len(), 3);
    let b0 = chain.block(0).unwrap();
    let b1 = chain.block(1).unwrap();
    let b2 = chain.block(2).unwrap();
    assert!(chain.block(3).is_none());
    assert_eq!(b1.prev_hash(), &b0.get_hash());
    assert_eq!(b2.prev_hash(), &b1.get_hash());
    assert_eq!(b1.height(), 1);
    assert_eq!(b2.height(), 2);
    assert_eq!(b1.data(), "First block");
    assert_eq!(b2.data(), "Second block");
    assert_eq!(chain.tip().get_hash(), b2.get_hash());
    for b in [b0, b1, b2] {
        assert!(b.is_valid());
        assert_eq!(b.get_hash().len(), 64);
        assert!(b.get_hash().starts_with("0000"));
    }
}

#[test]
fn append_keeps_existing_blocks() {
    let mut chain = Blockchain::new().unwrap();
    let genesis_hash = chain.tip().get_hash();
    let genesis_nonce = chain.tip().nonce();
    chain.add_block("payload".to_string()).unwrap();
    assert_eq!(chain.len(), 2);
    assert_eq!(chain.block(0).unwrap().get_hash(), genesis_hash);
    assert_eq!(chain.block(0).unwrap().nonce(), genesis_nonce);
}

#[test]
fn difficulty_four_is_solved_within_bound() {
    let b = Block::mine("bound".to_string(), String::new(), 0, T0, 4).unwrap();
    assert!(b.nonce() < 64 * 16u64.pow(4));
    assert!(b.get_hash().starts_with("0000"));
    assert!(b.is_valid());
}

#[test]
fn mined_hash_is_digest_of_canonical_bytes() {
    let b = Block::mine("tx".to_string(), "ab".to_string(), 7, T0, 2).unwrap();
    let bytes = expected_bytes("ab", "tx", T0, 2, b.nonce());
    assert_eq!(b.get_hash(), sha256_hex(&bytes));
    assert_eq!(b.height(), 7);
    assert_eq!(b.timestamp(), T0);
    for n in 0..b.nonce() {
        let h = sha256_hex(&expected_bytes("ab", "tx", T0, 2, n));
        assert!(!h.starts_with("00"));
    }
}

#[test]
fn difficulty_zero_takes_first_nonce() {
    let b = Block::mine("anything".to_string(), "p".to_string(), 1, T0, 0).unwrap();
    assert_eq!(b.nonce(), 0);
    assert_eq!(b.get_hash(), sha256_hex(&expected_bytes("p", "anything", T0, 0, 0)));
    assert!(b.is_valid());
}

#[test]
fn identical_inputs_reproduce_hash() {
    let a = Block::mine("same".to_string(), "prev".to_string(), 3, T0, 2).unwrap();
    let b = Block::mine("same".to_string(), "prev".to_string(), 3, T0, 2).unwrap();
    assert_eq!(a.nonce(), b.nonce());
    assert_eq!(a.get_hash(), b.get_hash());
}

#[test]
fn different_timestamps_give_different_hashes() {
    let a = Block::mine("same".to_string(), "prev".to_string(), 3, T0, 2).unwrap();
    let b = Block::mine("same".to_string(), "prev".to_string(), 3, T0 + 1, 2).unwrap();
    assert_ne!(a.get_hash(), b.get_hash());
}

fn tampered_copies(b: &Block) -> Vec<Block> {
    let d = b.difficulty();
    let part = |ts: u64, data: &str, prev: &str, nonce: u64| {
        Block::from_parts(ts, data.to_string(), prev.to_string(), b.get_hash(), b.height(), nonce, d)
    };
    vec![
        part(b.timestamp(), "tampered", b.prev_hash(), b.nonce()),
        part(b.timestamp(), b.data(), "forged", b.nonce()),
        part(b.timestamp() + 1, b.data(), b.prev_hash(), b.nonce()),
        part(b.timestamp(), b.data(), b.prev_hash(), b.nonce() + 1),
    ]
}

#[test]
fn tampering_breaks_validity() {
    let b = Block::mine("honest".to_string(), "prev".to_string(), 1, T0, 4).unwrap();
    assert!(b.is_valid());
    let same = Block::from_parts(
        b.timestamp(),
        b.data().clone(),
        b.prev_hash().clone(),
        b.get_hash(),
        b.height(),
        b.nonce(),
        b.difficulty(),
    );
    assert!(same.is_valid());
    for t in tampered_copies(&b) {
        assert!(!t.is_valid());
    }
}

#[test]
fn validity_is_recomputed_not_read_from_hash() {
    let b = Block::from_parts(T0, "x".to_string(), String::new(), "0000".repeat(16), 0, 0, 4);
    let digest = sha256_hex(&expected_bytes("", "x", T0, 4, 0));
    assert_eq!(b.is_valid(), digest.starts_with("0000"));
}

#[test]
fn zero_prefix_check() {
    assert!(has_zero_prefix(&"00ab".to_string(), 2));
    assert!(!has_zero_prefix(&"0a0b".to_string(), 2));
    assert!(has_zero_prefix(&"abc".to_string(), 0));
    assert!(!has_zero_prefix(&"00".to_string(), 3));
}

#[test]
fn chains_sealed_at_fixed_times_are_identical() {
    let mut a = Blockchain::new_at(T0).unwrap();
    let mut b = Blockchain::new_at(T0).unwrap();
    a.add_block_at("First block".to_string(), T0 + 10).unwrap();
    b.add_block_at("First block".to_string(), T0 + 10).unwrap();
    assert_eq!(a.len(), 2);
    assert_eq!(a.tip().get_hash(), b.tip().get_hash());
    assert_eq!(a.tip().timestamp(), T0 + 10);
    assert_eq!(a.tip().height(), 1);
    assert_eq!(a.tip().prev_hash(), &a.block(0).unwrap().get_hash());
    let genesis = Block::genesis_at(T0).unwrap();
    assert_eq!(genesis.get_hash(), a.block(0).unwrap().get_hash());
    let expected = sha256_hex(&expected_bytes("", "Genesis block", T0, 4, genesis.nonce()));
    assert_eq!(genesis.get_hash(), expected);
}

#[test]
fn new_genesis_block_is_sealed() {
    let g = Block::new_genesis_block().unwrap();
    assert_eq!(g.height(), 0);
    assert_eq!(g.prev_hash(), "");
    assert!(g.is_valid());
    let expected = sha256_hex(&expected_bytes("", "Genesis block", g.timestamp(), 4, g.nonce()));
    assert_eq!(g.get_hash(), expected);
}

#[test]
fn new_block_uses_default_difficulty() {
    let b = Block::new_block("data".to_string(), "prev".to_string(), 5).unwrap();
    assert_eq!(b.difficulty(), DEFAULT_DIFFICULTY);
    assert_eq!(b.height(), 5);
    assert_eq!(b.prev_hash(), "prev");
    assert!(b.is_valid());
}
