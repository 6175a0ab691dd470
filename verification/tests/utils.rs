use ccconsensus::engine::PowEngine;
use ccconsensus::engine::Round;
use ccconsensus::node::get_setting;
use ccconsensus::node::Guard;
use ccconsensus::node::Guards;
use ccconsensus::node::PowConfig;
use ccconsensus::node::PowState;
use ccconsensus::utils::bytes::append_bytes;
use ccconsensus::utils::bytes::bytes_eq;
use ccconsensus::utils::bytes::copy_bytes;
use ccconsensus::utils::hex::HexError;
use ccconsensus::utils::to_hex;
use ccconsensus::utils::unhex;

fn settings(pairs: &[(&str, &str)]) -> Vec<(String, String)> {
    pairs.iter().map(|(key, value)| (key.to_string(), value.to_string())).collect()
}

#[test]
fn to_hex_writes_two_small_digits_a_byte() {
    assert_eq!(to_hex(&[]), "");
    assert_eq!(to_hex(&[0]), "00");
    assert_eq!(to_hex(&[0x0f, 0xf0, 0xab, 0x09, 0x10]), "0ff0ab0910");
    assert_eq!(to_hex(&[255, 1, 128]), "ff0180");
}

#[test]
fn unhex_reads_pairs_of_digits() {
    assert_eq!(unhex(""), Ok(vec![]));
    assert_eq!(unhex("00"), Ok(vec![0]));
    assert_eq!(unhex("0ff0ab0910"), Ok(vec![0x0f, 0xf0, 0xab, 0x09, 0x10]));
    assert_eq!(unhex("FFaB"), Ok(vec![0xff, 0xab]));
    assert_eq!(unhex("+f"), Ok(vec![15]));
    assert_eq!(unhex("abc"), Err(HexError::OddLength));
    assert_eq!(unhex("0g"), Err(HexError::InvalidDigit));
    assert_eq!(unhex("-1"), Err(HexError::InvalidDigit));
    assert_eq!(unhex("1+"), Err(HexError::InvalidDigit));
    assert_eq!(unhex("++"), Err(HexError::InvalidDigit));
    assert_eq!(unhex(" 1"), Err(HexError::InvalidDigit));
    assert_eq!(unhex("é"), Err(HexError::InvalidDigit));
    for high in 0..=255u8 {
        let bytes: Vec<u8> = vec![high, 255 - high, 7];
        assert_eq!(unhex(&to_hex(&bytes)), Ok(bytes));
    }
}

#[test]
fn unhex_agrees_with_the_standard_reader_on_pairs() {
    let digits: &[u8] = b"0123456789abcdefABCDEFgG+-xX /:@`";
    for high in digits.iter() {
        for low in digits.iter() {
            let text: String = String::from_utf8(vec![*high, *low]).unwrap();
            let expected: Option<Vec<u8>> = u8::from_str_radix(&text, 16).ok().map(|b| vec![b]);
            assert_eq!(unhex(&text).ok(), expected, "{}", text);
        }
    }
}

#[test]
fn byte_helpers() {
    assert_eq!(copy_bytes(&[1, 2, 3]), vec![1, 2, 3]);
    let mut bytes: Vec<u8> = vec![9];
    append_bytes(&mut bytes, &[8, 7]);
    assert_eq!(bytes, vec![9, 8, 7]);
    assert!(bytes_eq(&[1, 2], &[1, 2]));
    assert!(!bytes_eq(&[1, 2], &[1, 3]));
    assert!(!bytes_eq(&[1, 2], &[1, 2, 3]));
    assert!(bytes_eq(&[], &[]));
}

#[test]
fn default_configuration() {
    let config = PowConfig::new();
    assert_eq!(config.initial_difficulty, 22);
    assert_eq!(config.seconds_between_blocks, 60);
    assert_eq!(config.difficulty_adjustment_block_count, 10);
    assert_eq!(config.difficulty_tuning_block_count, 100);
    assert_eq!(config.update_recv_timeout, 10);
    assert_eq!(PowConfig::default(), config);
    assert_eq!(
        PowConfig::keys(),
        vec![
            "sawtooth.consensus.pow.seconds_between_blocks".to_string(),
            "sawtooth.consensus.pow.difficulty_adjustment_block_count".to_string(),
            "sawtooth.consensus.pow.difficulty_tuning_block_count".to_string(),
            "sawtooth.consensus.pow.initial_difficulty".to_string(),
        ]
    );
}

#[test]
fn settings_are_read_as_numbers() {
    let given = settings(&[
        ("sawtooth.consensus.pow.initial_difficulty", "30"),
        ("other", "7"),
        ("bad", "seven"),
        ("big", "4294967296"),
    ]);
    assert_eq!(get_setting("sawtooth.consensus.pow.initial_difficulty", &given, u64::MAX), Some(30));
    assert_eq!(get_setting("other", &given, u64::MAX), Some(7));
    assert_eq!(get_setting("bad", &given, u64::MAX), None);
    assert_eq!(get_setting("missing", &given, u64::MAX), None);
    assert_eq!(get_setting("big", &given, u64::MAX), Some(4294967296));
    assert_eq!(get_setting("big", &given, 4294967295), None);
    assert_eq!(get_setting("othe", &given, u64::MAX), None);
}

#[test]
fn load_takes_over_what_parses_and_keeps_the_rest() {
    let mut config = PowConfig::new();
    let changed: bool = config.load(&settings(&[
        ("sawtooth.consensus.pow.seconds_between_blocks", "15"),
        ("sawtooth.consensus.pow.difficulty_adjustment_block_count", "ten"),
        ("sawtooth.consensus.pow.initial_difficulty", "4294967296"),
        ("sawtooth.consensus.pow.unknown", "1"),
    ]));
    assert!(changed);
    assert_eq!(config.seconds_between_blocks, 15);
    assert_eq!(config.difficulty_adjustment_block_count, 10);
    assert_eq!(config.difficulty_tuning_block_count, 100);
    assert_eq!(config.initial_difficulty, 22);
    assert_eq!(config.update_recv_timeout, 10);
    let changed: bool = config.load(&settings(&[
        ("sawtooth.consensus.pow.seconds_between_blocks", "15"),
    ]));
    assert!(!changed);
    let changed: bool = config.load(&settings(&[
        ("sawtooth.consensus.pow.difficulty_tuning_block_count", "50"),
        ("sawtooth.consensus.pow.difficulty_adjustment_block_count", "5"),
        ("sawtooth.consensus.pow.initial_difficulty", "8"),
    ]));
    assert!(changed);
    assert_eq!(config.difficulty_tuning_block_count, 50);
    assert_eq!(config.difficulty_adjustment_block_count, 5);
    assert_eq!(config.initial_difficulty, 8);
    assert!(!config.load(&Vec::new()));
}

#[test]
fn guards_are_a_set() {
    let mut guards = Guards::new();
    assert!(!guards.contains(&Guard::Publish));
    assert!(guards.insert(Guard::Publish));
    assert!(!guards.insert(Guard::Publish));
    assert!(guards.contains(&Guard::Publish));
    assert!(!guards.contains(&Guard::Summarize));
    assert!(guards.insert(Guard::Finalize));
    assert!(guards.remove(&Guard::Publish));
    assert!(!guards.remove(&Guard::Publish));
    assert!(!guards.contains(&Guard::Publish));
    assert!(guards.contains(&Guard::Finalize));
    let state = PowState::new();
    assert!(state.chain_head.is_empty());
    assert!(state.peer_id.is_empty());
    assert!(!state.guards.contains(&Guard::Summarize));
}

#[test]
fn engine_identity_and_rounds() {
    let mut engine = PowEngine::new();
    assert_eq!(engine.name(), "PoW");
    assert_eq!(engine.version(), "0.1");
    assert!(engine.additional_protocols().is_empty());
    assert_eq!(engine.take_config(), PowConfig::new());
    let mut config = PowConfig::new();
    config.initial_difficulty = 5;
    let mut engine = PowEngine::with_config(config);
    assert_eq!(engine.take_config().initial_difficulty, 5);
    assert_eq!(engine.take_config().initial_difficulty, 22);
    assert!(PowEngine::goes_on(Round::Handled));
    assert!(PowEngine::goes_on(Round::Failed));
    assert!(PowEngine::goes_on(Round::Timeout));
    assert!(!PowEngine::goes_on(Round::Stopped));
    assert!(!PowEngine::goes_on(Round::Disconnected));
}
