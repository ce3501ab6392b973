use blockchainlib::{u32_bytes, Hashable};

struct TestData {
    value: u32,
    name: String,
}

impl Hashable for TestData {
    fn bytes(&self) -> Vec<u8> {
        let mut bytes = vec![];
        bytes.extend(&u32_bytes(&self.value));
        bytes.extend(self.name.as_bytes());
        bytes
    }
}

struct EmptyData;

impl Hashable for EmptyData {
    fn bytes(&self) -> Vec<u8> {
        vec![]
    }
}

#[test]
fn test_hashable_trait_produces_hash() {
    let data = TestData { value: 42, name: "test".to_string() };
    let hash = data.hash();
    assert_eq!(hash.len(), 32);
}

#[test]
fn test_hashable_trait_consistency() {
    let data1 = TestData { value: 42, name: "test".to_string() };
    let data2 = TestData { value: 42, name: "test".to_string() };
    assert_eq!(data1.hash(), data2.hash());
}

#[test]
fn test_hashable_trait_different_data() {
    let data1 = TestData { value: 42, name: "test".to_string() };
    let data2 = TestData { value: 43, name: "test".to_string() };
    assert_ne!(data1.hash(), data2.hash());
}

#[test]
fn test_hashable_trait_deterministic() {
    let data = TestData { value: 42, name: "test".to_string() };
    let hash1 = data.hash();
    let hash2 = data.hash();
    assert_eq!(hash1, hash2);
}

#[test]
fn test_hashable_empty_bytes() {
    let data = EmptyData;
    let hash = data.hash();
    assert_eq!(hash.len(), 32);
    assert_eq!(hash, crypto_hash::digest(crypto_hash::Algorithm::SHA256, &[]));
}
