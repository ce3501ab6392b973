use blockchainlib::{
    check_blockhash, BlockResultType, MinerAction, MinerClient, MinerEvent, MinerMessage,
    MinerState, RoundInfoData, ValidatorMessage,
};

fn round(tonce: Option<u8>) -> RoundInfoData {
    RoundInfoData {
        round_start: 0,
        tonce,
        challenge_seconds_remaining: 0,
        attempted_miners: 0,
        active_lockouts: 0,
        difficulty: "0x0".to_string(),
    }
}

#[test]
fn test_miner_client_creation() {
    let client = MinerClient::new("test_miner".to_string(), "127.0.0.1:8080".to_string());
    assert_eq!(client.miner_id, "test_miner");
    assert_eq!(client.validator_address, "127.0.0.1:8080");
}

#[test]
fn miner_step_decisions() {
    let mut state = MinerState { prev_hash: vec![0; 32], index: 0 };
    assert_eq!(
        state.step(MinerEvent::LockoutStatus { is_locked: true, seconds_remaining: 10 }),
        MinerAction::Sleep { seconds: 11 }
    );
    assert_eq!(
        state.step(MinerEvent::LockoutStatus { is_locked: false, seconds_remaining: 0 }),
        MinerAction::Mine
    );
    assert_eq!(
        state.step(MinerEvent::BlockResult { result: BlockResultType::Accepted, block_hash: vec![7; 32] }),
        MinerAction::CheckLockout
    );
    assert_eq!(state.index, 1);
    assert_eq!(state.prev_hash, vec![7; 32]);
    assert_eq!(
        state.step(MinerEvent::BlockResult {
            result: BlockResultType::RejectedTonceChallenge,
            block_hash: vec![9; 32],
        }),
        MinerAction::Sleep { seconds: 5 }
    );
    assert_eq!(state.prev_hash, vec![7; 32]);
    assert_eq!(state.step(MinerEvent::Failed), MinerAction::Sleep { seconds: 5 });
    assert_eq!(state.step(MinerEvent::UnexpectedResponse), MinerAction::CheckLockout);
    assert_eq!(state.index, 1);
    let mut last = MinerState { prev_hash: vec![], index: u32::MAX };
    last.step(MinerEvent::BlockResult { result: BlockResultType::Accepted, block_hash: vec![1] });
    assert_eq!(last.index, 0);
    assert_eq!(
        state.step(MinerEvent::LockoutStatus { is_locked: true, seconds_remaining: u64::MAX }),
        MinerAction::Sleep { seconds: u64::MAX }
    );
}

#[test]
fn miner_reads_responses() {
    let ok = MinerClient::lockout_from(ValidatorMessage::LockoutStatus { is_locked: true, seconds_remaining: 7 });
    assert_eq!(ok, Ok((true, 7)));
    let err = MinerClient::lockout_from(ValidatorMessage::Error { message: "boom".to_string() });
    assert_eq!(err, Err("boom".to_string()));
    let odd = MinerClient::round_info_from(ValidatorMessage::LockoutStatus { is_locked: false, seconds_remaining: 0 });
    assert_eq!(odd.unwrap_err(), "Unexpected response");
    let info = MinerClient::round_info_from(ValidatorMessage::RoundInfo(round(Some(3)))).unwrap();
    assert_eq!(info.tonce, Some(3));
}

#[test]
fn miner_prepares_a_valid_submission() {
    let client = MinerClient::new("m1".to_string(), "127.0.0.1:8080".to_string());
    assert_eq!(
        client.prepare_submission(&round(None), 1_000, vec![0; 32], 0, u128::MAX, "m1").unwrap_err(),
        "No tonce available"
    );
    let msg = client.prepare_submission(&round(Some(5)), 1_000, vec![0; 32], 2, u128::MAX, "addr").unwrap();
    match msg {
        MinerMessage::SubmitBlock { miner_id, block } => {
            assert_eq!(miner_id, "m1");
            assert_eq!(block.index, 2);
            let b = block.to_block().unwrap();
            assert!(check_blockhash(&b.hash, u128::MAX));
            assert_eq!(b.hash, b.hash());
            let hash = crypto_hash::digest(
                crypto_hash::Algorithm::SHA256,
                &blockchainlib::u128_bytes(&b.timestamp),
            );
            assert_eq!(u32::from_be_bytes([hash[28], hash[29], hash[30], hash[31]]) % 5, 0);
            assert_eq!(b.transactions[0].outputs[0].to_addr, "addr");
            assert_eq!(f64::from_bits(b.transactions[0].outputs[0].value_bits), 2.0);
        }
        _ => panic!("Wrong message type"),
    }
}

#[test]
fn miner_requests_name_the_miner() {
    let client = MinerClient::new("m2".to_string(), "x".to_string());
    match client.lockout_request() {
        MinerMessage::CheckLockout { miner_id } => assert_eq!(miner_id, "m2"),
        _ => panic!("Wrong message type"),
    }
    match client.round_info_request() {
        MinerMessage::GetRoundInfo { miner_id } => assert_eq!(miner_id, "m2"),
        _ => panic!("Wrong message type"),
    }
}
