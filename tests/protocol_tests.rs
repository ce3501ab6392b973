use blockchainlib::text::digits_text;
use blockchainlib::protocol::{decode_frame, encode_frame, frame_length, FrameError, MAX_FRAME_LEN};
use blockchainlib::{
    process_message, Block, BlockData, BlockResultType, MinerMessage, MinerSession, Output,
    RoundInfoData, Transaction, ValidationResult, Validator, ValidatorMessage,
};

fn sample_block() -> Block {
    let tx = Transaction {
        inputs: vec![Output { to_addr: "Miner".to_string(), value_bits: 2.0f64.to_bits(), timestamp: 999 }],
        outputs: vec![Output { to_addr: "Bob".to_string(), value_bits: 0.5f64.to_bits(), timestamp: 1000 }],
    };
    Block {
        index: 4,
        timestamp: 1000,
        hash: vec![0xAB, 0x01, 0xFF, 0x00],
        prev_block_hash: vec![0x0F, 0xF0],
        nonce: 123,
        transactions: vec![tx],
    }
}

#[test]
fn block_data_round_trip_keeps_every_field() {
    let block = sample_block();
    let data = BlockData::from_block(&block);
    assert_eq!(data.hash, "ab01ff00");
    assert_eq!(data.prev_block_hash, "0ff0");
    let back = data.to_block().unwrap();
    assert_eq!(back.index, block.index);
    assert_eq!(back.timestamp, block.timestamp);
    assert_eq!(back.nonce, block.nonce);
    assert_eq!(back.hash, block.hash);
    assert_eq!(back.prev_block_hash, block.prev_block_hash);
    assert_eq!(back.transactions.len(), 1);
    assert_eq!(back.transactions[0].inputs[0].to_addr, "Miner");
    assert_eq!(back.transactions[0].inputs[0].value_bits, 2.0f64.to_bits());
    assert_eq!(back.transactions[0].outputs[0].timestamp, 1000);
    assert_eq!(back.hash(), block.hash());
}

#[test]
fn block_data_accepts_uppercase_and_rejects_bad_hex() {
    let mut data = BlockData::from_block(&sample_block());
    data.hash = "AB01FF00".to_string();
    assert_eq!(data.to_block().unwrap().hash, vec![0xAB, 0x01, 0xFF, 0x00]);
    data.hash = "abc".to_string();
    let err = data.to_block().unwrap_err();
    assert!(err.starts_with("Invalid hash hex: "));
    data.hash = "ab".to_string();
    data.prev_block_hash = "zz".to_string();
    let err = data.to_block().unwrap_err();
    assert!(err.starts_with("Invalid prev_block_hash hex: "));
}

#[test]
fn frame_round_trip() {
    let payload = b"{\"GetBlockchainInfo\":null}".to_vec();
    let framed = encode_frame(&payload);
    assert_eq!(&framed[0..4], &(payload.len() as u32).to_be_bytes());
    assert_eq!(frame_length(&framed), payload.len() as u32);
    assert_eq!(decode_frame(&framed, MAX_FRAME_LEN), Ok(payload.clone()));
    assert_eq!(decode_frame(&encode_frame(&vec![]), 0), Ok(vec![]));
}

#[test]
fn frame_errors() {
    assert_eq!(decode_frame(&vec![0, 0, 1], 10), Err(FrameError::Truncated));
    assert_eq!(decode_frame(&vec![0, 0, 0, 11, 1, 2], 10), Err(FrameError::TooLarge));
    assert_eq!(decode_frame(&vec![0, 0, 0, 3, 1, 2], 10), Err(FrameError::Truncated));
    assert_eq!(decode_frame(&vec![0, 0, 0, 2, 1, 2, 3], 10), Ok(vec![1, 2]));
    assert_eq!(frame_length(&[0x01, 0x00, 0x00, 0x02]), 16_777_218);
}

#[test]
fn round_info_data_formats_difficulty() {
    let validator = Validator::new(0x00FF);
    let info = validator.get_round_info_at(0);
    let data = RoundInfoData::from_round_info(&info, 0x00FFFFFFFFFFFFFFFFFFFFFFFFFFFFFF);
    assert_eq!(data.difficulty, "0xFFFFFFFFFFFFFFFFFFFFFFFFFFFFFF");
    assert_eq!(RoundInfoData::from_round_info(&info, 0).difficulty, "0x0");
    assert_eq!(data.tonce, None);
}

#[test]
fn block_result_type_from_result() {
    assert_eq!(BlockResultType::from_result(&ValidationResult::Accepted), BlockResultType::Accepted);
    assert_eq!(
        BlockResultType::from_result(&ValidationResult::RejectedBlockchainValidation("x".to_string())),
        BlockResultType::RejectedBlockchainValidation
    );
    assert_eq!(
        BlockResultType::from_result(&ValidationResult::RejectedMinerInLockout),
        BlockResultType::RejectedMinerInLockout
    );
}

#[test]
fn server_answers_queries() {
    let mut validator = Validator::new(0x1F);
    validator.start_new_round_at(5_000);
    match process_message(&mut validator, MinerMessage::GetBlockchainInfo, 5_000) {
        ValidatorMessage::BlockchainInfo { block_count, difficulty } => {
            assert_eq!(block_count, 0);
            assert_eq!(difficulty, "0x1F");
        }
        _ => panic!("Wrong message type"),
    }
    match process_message(&mut validator, MinerMessage::GetRoundInfo { miner_id: "m".to_string() }, 35_000) {
        ValidatorMessage::RoundInfo(d) => {
            assert_eq!(d.round_start, 5_000);
            assert_eq!(d.challenge_seconds_remaining, 30);
            assert!(d.tonce.is_some());
        }
        _ => panic!("Wrong message type"),
    }
    validator.insert_session(MinerSession::new("m".to_string(), 5_000));
    match process_message(&mut validator, MinerMessage::CheckLockout { miner_id: "m".to_string() }, 5_500) {
        ValidatorMessage::LockoutStatus { is_locked, seconds_remaining } => {
            assert!(is_locked);
            assert_eq!(seconds_remaining, 3599);
        }
        _ => panic!("Wrong message type"),
    }
}

#[test]
fn server_judges_submissions() {
    let t0: u128 = 10_000_000;
    let mut validator = Validator::new(u128::MAX);
    validator.start_new_round_at(t0);
    let ts = t0 + 61_000;
    let mut block = Block::new(0, ts, vec![0; 32], vec![]);
    block.mine(u128::MAX);
    let data = BlockData::from_block(&block);

    let mut bad = data.clone();
    bad.hash = "xyz".to_string();
    match process_message(&mut validator, MinerMessage::SubmitBlock { miner_id: "a".to_string(), block: bad }, ts) {
        ValidatorMessage::Error { message } => assert!(message.starts_with("Invalid block data: ")),
        _ => panic!("Wrong message type"),
    }

    let submit = MinerMessage::SubmitBlock { miner_id: "a".to_string(), block: data.clone() };
    match process_message(&mut validator, submit, ts) {
        ValidatorMessage::BlockResult { result, message } => {
            assert_eq!(result, BlockResultType::Accepted);
            assert_eq!(message, "Block accepted! You are now in 1-hour lockout.");
        }
        _ => panic!("Wrong message type"),
    }
    let again = MinerMessage::SubmitBlock { miner_id: "a".to_string(), block: data.clone() };
    match process_message(&mut validator, again, ts + 1_000) {
        ValidatorMessage::BlockResult { result, message } => {
            assert_eq!(result, BlockResultType::RejectedMinerInLockout);
            assert_eq!(message, "Miner in lockout. 3599 seconds remaining.");
        }
        _ => panic!("Wrong message type"),
    }
    let other = MinerMessage::SubmitBlock { miner_id: "b".to_string(), block: data };
    match process_message(&mut validator, other, ts + 400_000) {
        ValidatorMessage::BlockResult { result, message } => {
            assert_eq!(result, BlockResultType::RejectedInvalidTimestamp);
            assert_eq!(message, "Invalid timestamp");
        }
        _ => panic!("Wrong message type"),
    }
}

#[test]
fn digits_text_matches_std_formatting() {
    for n in [0u128, 7, 10, 255, 4096, 1_000_000_007, u128::MAX] {
        assert_eq!(digits_text(n, 10), format!("{}", n));
        assert_eq!(digits_text(n, 16), format!("{:X}", n));
    }
    assert_eq!(digits_text(5, 2), "101");
}
