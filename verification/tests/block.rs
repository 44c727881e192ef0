use quantum_bitcoin::block::has_leading_zeros;
use quantum_bitcoin::signing::secp256k1::Secp256k1Algorithm;
use quantum_bitcoin::{Block, Transaction, Wallet};

const STAMP: u128 = 1_700_000_000_000;

fn genesis() -> Block {
    Block::with_timestamp(0, "0".to_string(), STAMP, "Genesis Block".to_string())
}

#[test]
fn new_block_is_unmined() {
    let block = Block::new(7, "abc".to_string(), "payload".to_string());
    assert_eq!(block.index(), 7);
    assert_eq!(block.previous_hash(), "abc");
    assert_eq!(block.data(), "payload");
    assert_eq!(block.nonce(), 0);
    assert_eq!(block.hash, "");
}

#[test]
fn new_block_is_stamped_with_the_clock() {
    let before: u128 = std::time::SystemTime::now()
        .duration_since(std::time::UNIX_EPOCH)
        .unwrap()
        .as_millis();
    let block = Block::new(0, "0".to_string(), "x".to_string());
    let after: u128 = std::time::SystemTime::now()
        .duration_since(std::time::UNIX_EPOCH)
        .unwrap()
        .as_millis();
    assert!(before <= block.timestamp());
    assert!(block.timestamp() <= after);
}

#[test]
fn block_with_given_timestamp() {
    let block = genesis();
    assert_eq!(block.index(), 0);
    assert_eq!(block.previous_hash(), "0");
    assert_eq!(block.timestamp(), STAMP);
    assert_eq!(block.data(), "Genesis Block");
    assert_eq!(block.nonce(), 0);
    assert_eq!(block.hash, "");
}

#[test]
fn hash_of_known_contents() {
    // SHA-256 of "001700000000000Genesis Block0".
    assert_eq!(
        genesis().calculate_hash(),
        "e5157b4caf76ea477f2fa8d3496a9391c1726f00cd9c7db49697e428a85ed4de"
    );
}

#[test]
fn hash_does_not_change_the_block() {
    let block = genesis();
    let first = block.calculate_hash();
    let second = block.calculate_hash();
    assert_eq!(first, second);
    assert_eq!(block.hash, "");
    assert_eq!(block.nonce(), 0);
}

#[test]
fn hash_ignores_field_boundaries() {
    let a = Block::with_timestamp(1, "23".to_string(), 4, "5".to_string());
    let b = Block::with_timestamp(12, "3".to_string(), 45, "".to_string());
    assert_eq!(a.calculate_hash(), b.calculate_hash());
}

#[test]
fn hash_covers_text_that_is_not_ascii() {
    let block = Block::with_timestamp(0, "zürich→".to_string(), 0, "東京".to_string());
    // SHA-256 of the UTF-8 bytes of "0zürich→0東京0".
    assert_eq!(
        block.calculate_hash(),
        "a5a0986a4706aa69bb0f7ca9311c2b30ac89a42f5035b320acb8f9d8dabbc507"
    );
}

#[test]
fn mining_at_difficulty_zero_keeps_the_first_nonce() {
    let mut block = genesis();
    assert!(block.mine_block(0));
    assert_eq!(block.nonce(), 0);
    assert_eq!(
        block.hash,
        "e5157b4caf76ea477f2fa8d3496a9391c1726f00cd9c7db49697e428a85ed4de"
    );
}

#[test]
fn mining_finds_the_first_winning_nonce() {
    let mut block = genesis();
    assert!(block.mine_block(1));
    assert_eq!(block.nonce(), 28);
    assert_eq!(
        block.hash,
        "0bd98c7825602aa61b7f3d093d58b6eb3244b7266f39379f4c4c49ecf5b6768b"
    );

    let mut block = genesis();
    assert!(block.mine_block(2));
    assert_eq!(block.nonce(), 640);
    assert_eq!(
        block.hash,
        "00770bfe4769238db2f692ed51dd6d5cfb9bbab155049b3502c5feb726e9d299"
    );
}

#[test]
fn mining_leaves_the_contents_alone() {
    let mut block = genesis();
    assert!(block.mine_block(2));
    assert_eq!(block.index(), 0);
    assert_eq!(block.previous_hash(), "0");
    assert_eq!(block.timestamp(), STAMP);
    assert_eq!(block.data(), "Genesis Block");
    assert_eq!(block.hash, block.calculate_hash());
}

#[test]
fn mining_again_goes_on_from_the_stored_nonce() {
    let mut block = genesis();
    assert!(block.mine_block(2));
    assert!(block.mine_block(2));
    assert_eq!(block.nonce(), 640);
    assert!(block.mine_block(1));
    assert_eq!(block.nonce(), 640);
    assert!(block.mine_block(3));
    assert_eq!(block.nonce(), 6325);
    assert_eq!(
        block.hash,
        "00080f51d3738f20b6c27a6ddebf783456e0b5d7c1b76f5b6b42e41d1fc914be"
    );
}

#[test]
fn mined_hash_meets_each_difficulty() {
    let mut difficulty: usize = 0;
    while difficulty <= 3 {
        let mut block = Block::new(3, "prev".to_string(), "some payload".to_string());
        assert!(block.mine_block(difficulty));
        assert!(has_leading_zeros(&block.hash, difficulty));
        assert!(block.hash.starts_with(&"0".repeat(difficulty)));
        assert_eq!(block.hash, block.calculate_hash());
        difficulty += 1;
    }
}

#[test]
fn mining_replaces_a_hash_that_was_written_by_hand() {
    let mut block = genesis();
    block.hash = "00ffff".to_string();
    assert!(block.mine_block(2));
    assert_eq!(block.nonce(), 640);
    assert_eq!(block.hash, block.calculate_hash());
}

#[test]
fn genesis_and_a_block_that_carries_a_signed_transfer() {
    let difficulty: usize = 2;
    let mut first = Block::new(0, "0".to_string(), "Genesis Block".to_string());
    assert!(first.mine_block(difficulty));
    assert!(first.hash.starts_with("00"));

    let sender: Wallet<Secp256k1Algorithm> = Wallet::new();
    let receiver: Wallet<Secp256k1Algorithm> = Wallet::new();
    let mut transfer: Transaction<Secp256k1Algorithm> =
        Transaction::new(sender.get_address(), receiver.get_address(), 100);
    transfer.sign_transaction(&sender);
    assert!(transfer.is_valid(&sender));

    let mut second = Block::new(1, first.hash.clone(), transfer.printable());
    assert!(second.mine_block(difficulty));
    assert!(second.hash.starts_with("00"));
    assert_eq!(second.previous_hash(), first.hash);
    assert_eq!(second.index(), 1);
    assert_eq!(second.data(), transfer.printable());
}

#[test]
fn chained_blocks_with_known_contents() {
    let mut first = genesis();
    assert!(first.mine_block(2));
    let mut second =
        Block::with_timestamp(1, first.hash.clone(), STAMP + 1, "payload".to_string());
    assert!(second.mine_block(2));
    assert_eq!(second.nonce(), 608);
    assert_eq!(
        second.hash,
        "00c72e29e346b55bf5900622cc7d8c236b92fe05e7b2acb4ff46ec9a6933f5f6"
    );
    assert_eq!(second.previous_hash(), first.hash);
}
