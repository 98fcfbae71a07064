use evm_indexer::fingerprint::{filter_id, LogFilter};
use sha2::Digest;

fn word(n: u8) -> [u8; 32] {
    let mut w = [0u8; 32];
    w[0] = n;
    w[31] = n.wrapping_mul(3);
    w
}

fn address(n: u8) -> [u8; 20] {
    [n; 20]
}

fn filter(addresses: Vec<[u8; 20]>, topic0: Vec<[u8; 32]>, from_block: Option<u64>) -> LogFilter {
    LogFilter {
        addresses,
        topics: [topic0, Vec::new(), Vec::new(), Vec::new()],
        from_block,
    }
}

fn be_word(n: u64) -> Vec<u8> {
    let mut v = vec![0u8; 24];
    v.extend_from_slice(&n.to_be_bytes());
    v
}

fn expected_id(bytes: &[u8]) -> String {
    let first: [u8; 32] = sha2::Sha256::digest(bytes).into();
    let second = alloy::primitives::keccak256(first);
    let mut s = String::from("0x");
    for b in second.0.iter() {
        s.push_str(&format!("{:02x}", b));
    }
    s
}

#[test]
fn filter_id_matches_hand_built_preimage() {
    let f = filter(vec![address(9), address(2)], vec![word(7), word(1)], Some(5));
    let mut bytes = be_word(1);
    bytes.extend(be_word(5));
    bytes.extend_from_slice(&word(1));
    bytes.extend_from_slice(&word(7));
    for a in [address(2), address(9)] {
        bytes.extend_from_slice(&[0u8; 12]);
        bytes.extend_from_slice(&a);
    }
    assert_eq!(filter_id(&f, 1), expected_id(&bytes));
}

#[test]
fn filter_id_defaults_from_block_to_one() {
    let f = filter(Vec::new(), Vec::new(), None);
    let g = filter(Vec::new(), Vec::new(), Some(1));
    let mut bytes = be_word(31337);
    bytes.extend(be_word(1));
    assert_eq!(filter_id(&f, 31337), expected_id(&bytes));
    assert_eq!(filter_id(&f, 31337), filter_id(&g, 31337));
}

#[test]
fn filter_id_is_hex_text() {
    let id = filter_id(&filter(vec![address(1)], vec![word(4)], Some(10)), 1);
    assert_eq!(id.len(), 66);
    assert!(id.starts_with("0x"));
    assert!(id[2..].chars().all(|c| c.is_ascii_digit() || ('a'..='f').contains(&c)));
}

#[test]
fn filter_id_address_order_is_irrelevant() {
    let a = address(0xaa);
    let b = address(0x0b);
    let f = filter(vec![a, b], Vec::new(), Some(1));
    let g = filter(vec![b, a], Vec::new(), Some(1));
    assert_eq!(filter_id(&f, 1), filter_id(&g, 1));
}

#[test]
fn filter_id_topic_order_is_irrelevant() {
    let t1 = word(0x11);
    let t2 = word(0x22);
    let mut f = filter(Vec::new(), vec![t1, t2], Some(1));
    let mut g = filter(Vec::new(), vec![t2, t1], Some(1));
    assert_eq!(filter_id(&f, 1), filter_id(&g, 1));
    f.topics[2] = vec![t2, t1, word(3)];
    g.topics[2] = vec![word(3), t1, t2];
    assert_eq!(filter_id(&f, 1), filter_id(&g, 1));
}

#[test]
fn filter_id_is_deterministic() {
    let f = filter(vec![address(3)], vec![word(8)], Some(42));
    let g = filter(vec![address(3)], vec![word(8)], Some(42));
    assert_eq!(filter_id(&f, 10), filter_id(&f, 10));
    assert_eq!(filter_id(&f, 10), filter_id(&g, 10));
}

#[test]
fn filter_id_depends_on_chain_and_start() {
    let f = filter(vec![address(3)], vec![word(8)], Some(42));
    assert_ne!(filter_id(&f, 1), filter_id(&f, 2));
    let g = filter(vec![address(3)], vec![word(8)], Some(43));
    assert_ne!(filter_id(&f, 1), filter_id(&g, 1));
    let h = filter(vec![address(4)], vec![word(8)], Some(42));
    assert_ne!(filter_id(&f, 1), filter_id(&h, 1));
}
