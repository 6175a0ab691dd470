use vstd::prelude::*;
use vstd::utf8::encode_utf8;
use crate::utils::bytes::bytes_eq;
use crate::utils::decimal::parse_u64;
use crate::utils::decimal::parse_unsigned;

verus! {

pub const INITIAL_DIFFICULTY: u32 = 22;

pub const SECONDS_BETWEEN_BLOCKS: u64 = 60;

pub const DIFFICULTY_ADJUSTMENT_BLOCK_COUNT: u64 = 10;

pub const DIFFICULTY_TUNING_BLOCK_COUNT: u64 = 100;

/// How long the engine waits for an update before it looks at the miner, in
/// milliseconds.
pub const UPDATE_RECV_TIMEOUT: u64 = 10;

pub const KEY_SECONDS_BETWEEN_BLOCKS: &'static str = "sawtooth.consensus.pow.seconds_between_blocks";

pub const KEY_DIFFICULTY_ADJUSTMENT_BLOCK_COUNT: &'static str =
    "sawtooth.consensus.pow.difficulty_adjustment_block_count";

pub const KEY_DIFFICULTY_TUNING_BLOCK_COUNT: &'static str =
    "sawtooth.consensus.pow.difficulty_tuning_block_count";

pub const KEY_INITIAL_DIFFICULTY: &'static str = "sawtooth.consensus.pow.initial_difficulty";

/// What the engine is run with.
#[derive(Clone, Copy, Debug, PartialEq, Eq, Structural)]
pub struct PowConfig {
    /// The difficulty of a block that follows the first block.
    pub initial_difficulty: u32,
    /// How many seconds should pass from one block to the next.
    pub seconds_between_blocks: u64,
    /// Every this many blocks the difficulty is adjusted.
    pub difficulty_adjustment_block_count: u64,
    /// Every this many blocks the difficulty is tuned.
    pub difficulty_tuning_block_count: u64,
    /// How long the engine waits for an update, in milliseconds.
    pub update_recv_timeout: u64,
}

/// The settings as the validator hands them over: keys with their values.
pub type Settings = Vec<(String, String)>;

/// The value that stands under a key, where one does.
pub open spec fn setting_text(settings: Seq<(String, String)>, key: Seq<u8>) -> Option<Seq<u8>>
    decreases settings.len(),
{
    if settings.len() == 0 {
        None
    } else if encode_utf8(settings[0].0@) == key {
        Some(encode_utf8(settings[0].1@))
    } else {
        setting_text(settings.skip(1), key)
    }
}

/// The number that stands under a key: the value there read as an unsigned
/// decimal numeral no greater than `max`. `None` where the key is missing or
/// its value is no such numeral.
pub open spec fn setting_value(settings: Seq<(String, String)>, key: Seq<u8>, max: nat) -> Option<
    nat,
> {
    match setting_text(settings, key) {
        Some(text) => parse_unsigned(text, max),
        None => None,
    }
}

/// One field after loading: the number under its key where there is one, the
/// old value otherwise.
pub open spec fn loaded_value(
    settings: Seq<(String, String)>,
    key: Seq<u8>,
    max: nat,
    old_value: nat,
) -> nat {
    match setting_value(settings, key, max) {
        Some(value) => value,
        None => old_value,
    }
}

/// The number that stands under a key; `None` where the key is missing or
/// its value is no unsigned decimal numeral up to `max`.
pub fn get_setting(key: &str, settings: &Settings, max: u64) -> (value: Option<u64>)
    ensures
        value.is_some() <==> setting_value(settings@, encode_utf8(key@), max as nat).is_some(),
        value.is_some() ==> value.unwrap() == setting_value(
            settings@,
            encode_utf8(key@),
            max as nat,
        ).unwrap(),
{
    let wanted: &[u8] = key.as_bytes();
    let n: usize = settings.len();
    let mut i: usize = 0;
    assert(settings@.skip(0) =~= settings@);
    while i < n
        invariant
            i <= n,
            n == settings@.len(),
            wanted@ == encode_utf8(key@),
            setting_text(settings@, wanted@) == setting_text(settings@.skip(i as int), wanted@),
        decreases n - i,
    {
        let name: &[u8] = settings[i].0.as_str().as_bytes();
        proof {
            assert(settings@.skip(i as int)[0] == settings@[i as int]);
            assert(settings@.skip(i as int).skip(1) =~= settings@.skip(i as int + 1));
        }
        if bytes_eq(name, wanted) {
            let text: &[u8] = settings[i].1.as_str().as_bytes();
            return match parse_u64(text) {
                Some(v) => if v <= max {
                    Some(v)
                } else {
                    None
                },
                None => None,
            };
        }
        i = i + 1;
    }
    None
}

impl PowConfig {
    /// The settings that the engine starts with.
    pub open spec fn initial() -> PowConfig {
        PowConfig {
            initial_difficulty: INITIAL_DIFFICULTY,
            seconds_between_blocks: SECONDS_BETWEEN_BLOCKS,
            difficulty_adjustment_block_count: DIFFICULTY_ADJUSTMENT_BLOCK_COUNT,
            difficulty_tuning_block_count: DIFFICULTY_TUNING_BLOCK_COUNT,
            update_recv_timeout: UPDATE_RECV_TIMEOUT,
        }
    }

    /// The configuration after the settings of the chain were loaded: each of
    /// the four values is the number under its key, or stays as it was.
    pub open spec fn loaded(self, settings: Seq<(String, String)>) -> PowConfig {
        PowConfig {
            initial_difficulty: loaded_value(
                settings,
                encode_utf8(KEY_INITIAL_DIFFICULTY@),
                u32::MAX as nat,
                self.initial_difficulty as nat,
            ) as u32,
            seconds_between_blocks: loaded_value(
                settings,
                encode_utf8(KEY_SECONDS_BETWEEN_BLOCKS@),
                u64::MAX as nat,
                self.seconds_between_blocks as nat,
            ) as u64,
            difficulty_adjustment_block_count: loaded_value(
                settings,
                encode_utf8(KEY_DIFFICULTY_ADJUSTMENT_BLOCK_COUNT@),
                u64::MAX as nat,
                self.difficulty_adjustment_block_count as nat,
            ) as u64,
            difficulty_tuning_block_count: loaded_value(
                settings,
                encode_utf8(KEY_DIFFICULTY_TUNING_BLOCK_COUNT@),
                u64::MAX as nat,
                self.difficulty_tuning_block_count as nat,
            ) as u64,
            update_recv_timeout: self.update_recv_timeout,
        }
    }

    /// Whether both block counts can be divided by.
    pub open spec fn wf(self) -> bool {
        self.difficulty_adjustment_block_count > 0 && self.difficulty_tuning_block_count > 0
    }

    /// The settings that the engine starts with.
    pub fn new() -> (config: PowConfig)
        ensures
            config == PowConfig::initial(),
    {
        PowConfig {
            initial_difficulty: INITIAL_DIFFICULTY,
            seconds_between_blocks: SECONDS_BETWEEN_BLOCKS,
            difficulty_adjustment_block_count: DIFFICULTY_ADJUSTMENT_BLOCK_COUNT,
            difficulty_tuning_block_count: DIFFICULTY_TUNING_BLOCK_COUNT,
            update_recv_timeout: UPDATE_RECV_TIMEOUT,
        }
    }

    /// The keys of the settings that `load` reads.
    pub fn keys() -> (keys: Vec<String>)
        ensures
            keys@.len() == 4,
            keys@[0]@ == KEY_SECONDS_BETWEEN_BLOCKS@,
            keys@[1]@ == KEY_DIFFICULTY_ADJUSTMENT_BLOCK_COUNT@,
            keys@[2]@ == KEY_DIFFICULTY_TUNING_BLOCK_COUNT@,
            keys@[3]@ == KEY_INITIAL_DIFFICULTY@,
    {
        let mut keys: Vec<String> = Vec::new();
        keys.push(KEY_SECONDS_BETWEEN_BLOCKS.to_owned());
        keys.push(KEY_DIFFICULTY_ADJUSTMENT_BLOCK_COUNT.to_owned());
        keys.push(KEY_DIFFICULTY_TUNING_BLOCK_COUNT.to_owned());
        keys.push(KEY_INITIAL_DIFFICULTY.to_owned());
        keys
    }

    /// Takes over the settings of the chain, and says whether any value
    /// changed.
    pub fn load(&mut self, settings: &Settings) -> (changes: bool)
        ensures
            *final(self) == old(self).loaded(settings@),
            changes <==> *final(self) != *old(self),
    {
        let mut changes: bool = false;
        if let Some(value) = get_setting(KEY_SECONDS_BETWEEN_BLOCKS, settings, u64::MAX) {
            if self.seconds_between_blocks != value {
                self.seconds_between_blocks = value;
                changes = true;
            }
        }
        if let Some(value) = get_setting(
            KEY_DIFFICULTY_ADJUSTMENT_BLOCK_COUNT,
            settings,
            u64::MAX,
        ) {
            if self.difficulty_adjustment_block_count != value {
                self.difficulty_adjustment_block_count = value;
                changes = true;
            }
        }
        if let Some(value) = get_setting(KEY_DIFFICULTY_TUNING_BLOCK_COUNT, settings, u64::MAX) {
            if self.difficulty_tuning_block_count != value {
                self.difficulty_tuning_block_count = value;
                changes = true;
            }
        }
        if let Some(value) = get_setting(KEY_INITIAL_DIFFICULTY, settings, 0xffff_ffff) {
            if self.initial_difficulty != value as u32 {
                self.initial_difficulty = value as u32;
                changes = true;
            }
        }
        changes
    }
}

impl Default for PowConfig {
    fn default() -> (config: PowConfig)
        ensures
            config == PowConfig::initial(),
    {
        PowConfig::new()
    }
}

} // verus!
