use blockc::block::Block;
use blockc::blockchain::Blockchain;
use blockc::clock::get_time;
use blockc::clock::saturate_to_u32;
use blockc::digits::u64_to_string;
use blockc::entity::Entity;
use blockc::transaction::Transaction;
use sha2::Digest;

fn entity(name: &str, balance: u64) -> Entity {
    Entity::new(
        name.to_string(),
        balance,
        Vec::new(),
        format!("{}_public", name),
        format!("{}_private", name),
    )
}

fn sha_hex(data: &str) -> String {
    let mut hasher = sha2::Sha256::new();
    hasher.update(data.as_bytes());
    let digest = hasher.finalize();
    let mut out = String::new();
    for byte in digest {
        out.push_str(&format!("{:02x}", byte));
    }
    out
}

fn record(name: &str, sender: &str, receiver: &str, amount: u64, timestamp: u32) -> Transaction {
    Transaction {
        sender_address: sender.to_string(),
        receiver_address: receiver.to_string(),
        amount,
        timestamp,
        signature: format!("{}_signature", name),
    }
}

#[test]
fn spend_within_balance_succeeds() {
    let mut alice = entity("Alice", 100);
    assert!(alice.can_send(40));
    assert!(alice.send_amount(40).is_ok());
    assert_eq!(alice.get_balance(), 60);
    assert!(alice.send_amount(60).is_ok());
    assert_eq!(alice.get_balance(), 0);
}

#[test]
fn spend_over_balance_fails_and_changes_nothing() {
    let mut alice = entity("Alice", 100);
    assert!(!alice.can_send(101));
    let err = alice.send_amount(101).unwrap_err();
    assert_eq!(err.have, 100);
    assert_eq!(err.need, 101);
    assert_eq!(alice.get_balance(), 100);
    assert_eq!(alice.history.len(), 0);
}

#[test]
fn transfer_with_insufficient_balance_changes_nothing() {
    let mut alice = entity("Alice", 30);
    let mut bob = entity("Bob", 5);
    let err = Transaction::create_and_execute(&mut alice, &mut bob, 31).unwrap_err();
    assert_eq!(err.have, 30);
    assert_eq!(err.need, 31);
    assert_eq!(alice.get_balance(), 30);
    assert_eq!(bob.get_balance(), 5);
    assert_eq!(alice.history.len(), 0);
    assert_eq!(bob.history.len(), 0);
}

#[test]
fn transfer_moves_balance_and_records_history() {
    let mut alice = entity("Alice", 100);
    let mut bob = entity("Bob", 0);
    let tx = Transaction::create_and_execute(&mut alice, &mut bob, 40).unwrap();
    assert_eq!(tx.sender_address, "Alice");
    assert_eq!(tx.receiver_address, "Bob");
    assert_eq!(tx.amount, 40);
    assert_eq!(alice.get_balance(), 60);
    assert_eq!(bob.get_balance(), 40);
    assert_eq!(alice.history.len(), 1);
    assert_eq!(bob.history.len(), 1);
    for copy in [&alice.history[0], &bob.history[0]] {
        assert_eq!(copy.sender_address, tx.sender_address);
        assert_eq!(copy.receiver_address, tx.receiver_address);
        assert_eq!(copy.amount, tx.amount);
        assert_eq!(copy.timestamp, tx.timestamp);
        assert_eq!(copy.signature, tx.signature);
    }
}

#[test]
fn transfer_signature_commits_to_payload_and_private_key() {
    let mut alice = entity("Alice", 100);
    let mut bob = entity("Bob", 0);
    let tx = Transaction::create_and_execute(&mut alice, &mut bob, 40).unwrap();
    let payload = format!("AliceBob40{}", tx.timestamp);
    assert_eq!(tx.signature, sha_hex(&format!("{}Alice_private", payload)));
}

#[test]
fn sign_matches_reference_digest() {
    let alice = entity("Alice", 0);
    let signature = alice.sign("some data");
    assert_eq!(signature, sha_hex("some dataAlice_private"));
    assert_eq!(signature.len(), 64);
    assert_ne!(signature, "some data");
    assert_eq!(signature, alice.sign("some data"));
}

#[test]
fn block_hash_matches_reference_digest_empty() {
    let hash = Block::hash("abc", 123, 0, &Vec::new());
    assert_eq!(hash, sha_hex("abc1230"));
    assert_eq!(hash.len(), 64);
}

#[test]
fn block_hash_joins_records_with_commas() {
    let txs = vec![record("t1", "Alice", "Bob", 40, 7), record("t2", "Bob", "Carol", 9, 8)];
    let hash = Block::hash("prev", 100, 2, &txs);
    assert_eq!(hash, sha_hex("prev1002AliceBob407,BobCarol98"));
}

#[test]
fn new_block_is_self_consistent() {
    let txs = vec![record("t1", "Alice", "Bob", 40, 7)];
    let block = Block::new(txs, "prev".to_string());
    assert_eq!(block.previous_block_hash, "prev");
    assert_eq!(block.nonce, 0);
    assert_eq!(block.block_hash, block.calculate_hash());
}

#[test]
fn changing_any_field_changes_the_hash() {
    let txs = vec![record("t1", "Alice", "Bob", 40, 7)];
    let base = Block::hash("prev", 100, 0, &txs);
    assert_ne!(Block::hash("prey", 100, 0, &txs), base);
    assert_ne!(Block::hash("prev", 101, 0, &txs), base);
    assert_ne!(Block::hash("prev", 100, 1, &txs), base);
    assert_ne!(Block::hash("prev", 100, 0, &vec![record("t1", "Alice", "Bob", 41, 7)]), base);
    assert_ne!(Block::hash("prev", 100, 0, &vec![record("t1", "Alice", "Bob", 40, 8)]), base);
    assert_ne!(Block::hash("prev", 100, 0, &vec![record("t1", "Alicf", "Bob", 40, 7)]), base);
    assert_ne!(Block::hash("prev", 100, 0, &vec![record("t1", "Alice", "Boc", 40, 7)]), base);
    assert_ne!(Block::hash("prev", 100, 0, &Vec::new()), base);
}

#[test]
fn fresh_chain_is_valid() {
    let chain = Blockchain::new();
    assert!(chain.is_valid());
    assert_eq!(chain.chain.len(), 1);
    assert_eq!(chain.chain[0].previous_block_hash, "0");
    assert_eq!(chain.difficulty, 3);
}

#[test]
fn chain_stays_valid_across_appends() {
    let mut chain = Blockchain::new();
    let mut alice = entity("Alice", 1000);
    let mut bob = entity("Bob", 0);
    for step in 0..5u64 {
        let tx = Transaction::create_and_execute(&mut alice, &mut bob, step + 1).unwrap();
        chain.add_block(vec![tx]);
        assert!(chain.is_valid());
    }
    chain.add_block(Vec::new());
    assert!(chain.is_valid());
    assert_eq!(chain.chain.len(), 7);
}

#[test]
fn appended_block_links_to_previous_tip() {
    let mut chain = Blockchain::new();
    let genesis_hash = chain.get_latest_hash();
    chain.add_block(Vec::new());
    assert_eq!(chain.chain[1].previous_block_hash, genesis_hash);
    assert_eq!(chain.get_latest_hash(), chain.chain[1].block_hash);
    assert_eq!(chain.get_latest_block().block_hash, chain.chain[1].block_hash);
}

#[test]
fn tampering_with_a_link_invalidates_the_chain() {
    let mut chain = Blockchain::new();
    chain.add_block(Vec::new());
    chain.add_block(Vec::new());
    assert!(chain.is_valid());
    chain.chain[1].previous_block_hash = "forged".to_string();
    assert!(!chain.is_valid());
}

#[test]
fn tampering_with_a_stored_hash_invalidates_the_chain() {
    let mut chain = Blockchain::new();
    chain.add_block(Vec::new());
    chain.add_block(Vec::new());
    assert!(chain.is_valid());
    chain.chain[2].block_hash = "0000000000000000000000000000000000000000000000000000000000000000"
        .to_string();
    assert!(!chain.is_valid());
}

#[test]
fn tampering_with_the_genesis_anchor_invalidates_the_chain() {
    let mut chain = Blockchain::new();
    chain.add_block(Vec::new());
    assert!(chain.is_valid());
    chain.chain[0].previous_block_hash = "1".to_string();
    assert!(!chain.is_valid());
}

#[test]
fn transfer_then_append_then_corrupt_nonce() {
    let mut chain = Blockchain::new();
    let genesis_hash = chain.chain[0].block_hash.clone();
    assert_eq!(
        genesis_hash,
        Block::hash("0", chain.chain[0].time_stamp, 0, &Vec::new())
    );
    let mut alice = entity("Alice", 100);
    let mut bob = entity("Bob", 0);
    let tx = Transaction::create_and_execute(&mut alice, &mut bob, 40).unwrap();
    assert_eq!(tx.sender_address, "Alice");
    assert_eq!(tx.receiver_address, "Bob");
    assert_eq!(tx.amount, 40);
    assert_eq!(alice.get_balance(), 60);
    assert_eq!(bob.get_balance(), 40);
    chain.add_block(vec![tx]);
    assert_eq!(chain.chain[1].previous_block_hash, genesis_hash);
    assert!(chain.is_valid());
    chain.chain[1].nonce = chain.chain[1].nonce.wrapping_add(1);
    assert!(!chain.is_valid());
}

#[test]
fn decimal_rendering_is_exact() {
    assert_eq!(u64_to_string(0), "0");
    assert_eq!(u64_to_string(7), "7");
    assert_eq!(u64_to_string(10), "10");
    assert_eq!(u64_to_string(1234567890), "1234567890");
    assert_eq!(u64_to_string(u64::MAX), "18446744073709551615");
}

#[test]
fn clock_saturation_is_exact() {
    assert_eq!(saturate_to_u32(Some(0)), 0);
    assert_eq!(saturate_to_u32(Some(1_700_000_000)), 1_700_000_000);
    assert_eq!(saturate_to_u32(Some(u32::MAX as u64)), u32::MAX);
    assert_eq!(saturate_to_u32(Some(u32::MAX as u64 + 1)), u32::MAX);
    assert_eq!(saturate_to_u32(Some(u64::MAX)), u32::MAX);
    assert_eq!(saturate_to_u32(None), 0);
}

#[test]
fn clock_reads_a_plausible_time() {
    let now = get_time();
    assert!(now > 1_600_000_000);
    assert!(get_time() >= now);
}
