use vstd::prelude::*;
use crate::block::block::Block;
use crate::block::block::BlockView;
use crate::block::block_ancestors::lookup;
use crate::block::block_ancestors::Chain;
use crate::block::block_consensus::decode;
use crate::block::block_consensus::BlockConsensus;
use crate::block::block_header::BlockHeader;
use crate::block::block_header::HeaderView;
use crate::node::config::PowConfig;
use crate::primitives::H256;
use crate::utils::bytes::copy_bytes;
use crate::utils::bytes::append_bytes;
use crate::utils::decimal::decimal;
use crate::utils::decimal::to_decimal;

verus! {

/// The SHA-256 digest of a byte string: what `sha2` gives for it.
pub uninterp spec fn sha256(input: Seq<u8>) -> Seq<u8>;

/// `sha2::Sha256`, the engine of the hash; nothing inside it is seen.
#[verifier::external_type_specification]
#[verifier::external_body]
pub struct ExSha256(sha2::Sha256);

/// A reusable SHA-256 engine.
pub struct Hasher {
    engine: sha2::Sha256,
}

/// `sha2::Digest::new` for `Sha256`: a fresh engine. Nothing is claimed of it.
#[verifier::external_body]
fn new_engine() -> (engine: sha2::Sha256) {
    sha2::Digest::new()
}

/// `sha2::Digest::reset`, `update` and `finalize_reset` on `Sha256`, in that
/// order: whatever the engine had taken in before is dropped, `data` is fed
/// to it, and the 32 bytes it gives out are the SHA-256 digest of `data`.
#[verifier::external_body]
fn digest_of(engine: &mut sha2::Sha256, data: &[u8]) -> (digest: [u8; 32])
    ensures
        digest@ == sha256(data@),
{
    sha2::Digest::reset(engine);
    sha2::Digest::update(engine, data);
    sha2::Digest::finalize_reset(engine).into()
}

/// What the proof-of-work hash is taken of: the block id, the signer's id and
/// the decimal numeral of the nonce, one after the other.
pub open spec fn hash_input(block_id: Seq<u8>, peer_id: Seq<u8>, nonce: u64) -> Seq<u8> {
    block_id + peer_id + decimal(nonce as nat)
}

/// The proof-of-work hash of a block id, a signer and a nonce.
pub open spec fn pow_hash(block_id: Seq<u8>, peer_id: Seq<u8>, nonce: u64) -> Seq<u8> {
    sha256(hash_input(block_id, peer_id, nonce))
}

/// A fresh engine.
pub fn get_hasher() -> (hasher: Hasher) {
    Hasher { engine: new_engine() }
}

/// The proof-of-work hash of a block id, a signer and a nonce.
pub fn mkhash(hasher: &mut Hasher, block_id: &[u8], peer_id: &[u8], nonce: u64) -> (hash: H256)
    ensures
        hash@ == pow_hash(block_id@, peer_id@, nonce),
{
    let mut output: H256 = H256::new();
    mkhash_into(hasher, &mut output, block_id, peer_id, nonce);
    output
}

/// Writes the proof-of-work hash of a block id, a signer and a nonce to
/// `output`.
pub fn mkhash_into(
    hasher: &mut Hasher,
    output: &mut H256,
    block_id: &[u8],
    peer_id: &[u8],
    nonce: u64,
)
    ensures
        final(output)@ == pow_hash(block_id@, peer_id@, nonce),
{
    let mut input: Vec<u8> = Vec::new();
    append_bytes(&mut input, block_id);
    append_bytes(&mut input, peer_id);
    let numeral: Vec<u8> = to_decimal(nonce);
    append_bytes(&mut input, numeral.as_slice());
    assert(input@ =~= hash_input(block_id@, peer_id@, nonce));
    let digest: [u8; 32] = digest_of(&mut hasher.engine, input.as_slice());
    *output = H256::from_bytes(digest);
}

/// The number of zero bits above the highest set bit of a byte; 8 for zero.
pub open spec fn leading_zero_bits(byte: u8) -> nat {
    if byte >= 128 {
        0
    } else if byte >= 64 {
        1
    } else if byte >= 32 {
        2
    } else if byte >= 16 {
        3
    } else if byte >= 8 {
        4
    } else if byte >= 4 {
        5
    } else if byte >= 2 {
        6
    } else if byte >= 1 {
        7
    } else {
        8
    }
}

/// The score of a byte string: the number of zero bits before its first set
/// bit, every bit of it where none is set.
pub open spec fn score(digest: Seq<u8>) -> nat
    decreases digest.len(),
{
    if digest.len() == 0 {
        0
    } else if digest[0] == 0 {
        8 + score(digest.skip(1))
    } else {
        leading_zero_bits(digest[0])
    }
}

/// The number of bytes, from the front, before the first byte that is not zero.
pub open spec fn zero_prefix_len(digest: Seq<u8>) -> nat
    decreases digest.len(),
{
    if digest.len() == 0 || digest[0] != 0 {
        0
    } else {
        1 + zero_prefix_len(digest.skip(1))
    }
}

/// The score is eight for each byte of the zero prefix, plus the leading zero
/// bits of the byte that ends it.
pub proof fn lemma_score_by_prefix(digest: Seq<u8>)
    ensures
        zero_prefix_len(digest) <= digest.len(),
        forall|j: int| 0 <= j < zero_prefix_len(digest) ==> digest[j] == 0,
        zero_prefix_len(digest) < digest.len() ==> digest[zero_prefix_len(digest) as int] != 0,
        score(digest) == 8 * zero_prefix_len(digest) + (if zero_prefix_len(digest)
            < digest.len() {
            leading_zero_bits(digest[zero_prefix_len(digest) as int])
        } else {
            0
        }),
    decreases digest.len(),
{
    if digest.len() == 0 || digest[0] != 0 {
    } else {
        let rest = digest.skip(1);
        lemma_score_by_prefix(rest);
        assert forall|j: int| 0 <= j < zero_prefix_len(digest) implies digest[j] == 0 by {
            if j > 0 {
                assert(rest[j - 1] == digest[j]);
            }
        }
        if zero_prefix_len(rest) < rest.len() {
            assert(rest[zero_prefix_len(rest) as int] == digest[zero_prefix_len(digest) as int]);
        }
    }
}

/// A run of `n` zero bytes at the front puts the first set bit, and so the
/// score, at the byte that follows.
pub proof fn lemma_score_after_zeros(digest: Seq<u8>, n: int)
    requires
        0 <= n <= digest.len(),
        forall|j: int| 0 <= j < n ==> digest[j] == 0,
    ensures
        score(digest) == 8 * n + score(digest.skip(n)),
    decreases n,
{
    if n == 0 {
        assert(digest.skip(0) =~= digest);
    } else {
        let rest = digest.skip(1);
        assert forall|j: int| 0 <= j < n - 1 implies rest[j] == 0 by {
            assert(rest[j] == digest[j + 1]);
        }
        lemma_score_after_zeros(rest, n - 1);
        assert(rest.skip(n - 1) =~= digest.skip(n));
    }
}

/// Setting a bit in a byte of the zero prefix never raises the score: the
/// score of `digest` with the zero byte at `i` replaced by a byte that is not
/// zero is at most the score of `digest`.
pub proof fn lemma_score_monotone(digest: Seq<u8>, i: int, byte: u8)
    requires
        0 <= i < digest.len(),
        forall|j: int| 0 <= j <= i ==> digest[j] == 0,
        byte != 0,
    ensures
        score(digest.update(i, byte)) <= score(digest),
        score(digest.update(i, byte)) == 8 * i + leading_zero_bits(byte),
{
    let changed = digest.update(i, byte);
    lemma_score_after_zeros(changed, i);
    lemma_score_after_zeros(digest, i + 1);
    assert(changed.skip(i)[0] == byte);
}

/// The score of a digest.
pub fn digest_score(digest: &H256) -> (s: u32)
    ensures
        s == score(digest@),
        s <= 256,
{
    let mut total: u32 = 0;
    let mut i: usize = 0;
    proof {
        digest.lemma_len();
        assert(digest@.skip(0) =~= digest@);
    }
    while i < 32
        invariant
            i <= 32,
            digest@.len() == 32,
            total == 8 * i,
            score(digest@) == total + score(digest@.skip(i as int)),
        decreases 32 - i,
    {
        let byte: u8 = digest.byte(i);
        proof {
            assert(digest@.skip(i as int)[0] == byte);
            assert(digest@.skip(i as int).skip(1) =~= digest@.skip(i as int + 1));
        }
        if byte > 0 {
            let extra: u32 = if byte >= 128 {
                0
            } else if byte >= 64 {
                1
            } else if byte >= 32 {
                2
            } else if byte >= 16 {
                3
            } else if byte >= 8 {
                4
            } else if byte >= 4 {
                5
            } else if byte >= 2 {
                6
            } else {
                7
            };
            return total + extra;
        }
        total = total + 8;
        i = i + 1;
    }
    assert(digest@.skip(32).len() == 0);
    total
}

/// Whether a digest meets a difficulty: its score is at least the difficulty.
pub fn is_valid_proof_of_work(hash: &H256, difficulty: u32) -> (valid: bool)
    ensures
        valid <==> score(hash@) >= difficulty,
{
    digest_score(hash) >= difficulty
}

} // verus!

verus! {

/// How the time that a run of blocks took compares with the time it should
/// have taken.
#[derive(Clone, Copy, Debug, PartialEq, Eq, Structural)]
pub enum Pace {
    /// The blocks came faster than the rule allows.
    Fast,
    /// The blocks came slower than the rule allows.
    Slow,
    /// Neither.
    Even,
}

/// The two rules by which the difficulty is retargeted.
#[derive(Clone, Copy, Debug, PartialEq, Eq, Structural)]
pub enum Cadence {
    /// The coarse rule: the blocks are fast where they took less than the
    /// expected time, slow where they took more.
    Tuning,
    /// The fine rule: the blocks are fast where they took less than half the
    /// expected time, slow where they took more than twice that time.
    Adjustment,
}

/// The greatest difficulty.
pub const MAX_DIFFICULTY: u32 = 255;

/// A difficulty held to the greatest one.
pub open spec fn clamped(difficulty: u32) -> u32 {
    if difficulty > MAX_DIFFICULTY {
        MAX_DIFFICULTY
    } else {
        difficulty
    }
}

/// The difficulty after a retarget: one more where the blocks were fast and
/// there is room, one less where they were slow and there is room, else the
/// same.
pub open spec fn retargeted(difficulty: u32, pace: Pace) -> u32 {
    if pace == Pace::Fast && difficulty < MAX_DIFFICULTY {
        (difficulty + 1) as u32
    } else if pace == Pace::Slow && difficulty > 0 {
        (difficulty - 1) as u32
    } else {
        difficulty
    }
}

/// The rule that applies to the block after the one at `block_num`: tuning
/// at the heights that the tuning count divides, adjustment at the others
/// that the adjustment count divides, none elsewhere.
pub open spec fn cadence_of(block_num: u64, config: PowConfig) -> Option<Cadence> {
    if block_num % config.difficulty_tuning_block_count == 0 {
        Some(Cadence::Tuning)
    } else if block_num % config.difficulty_adjustment_block_count == 0 {
        Some(Cadence::Adjustment)
    } else {
        None
    }
}

/// The number of blocks that a rule looks back over.
pub open spec fn span_of(cadence: Cadence, config: PowConfig) -> u64 {
    match cadence {
        Cadence::Tuning => config.difficulty_tuning_block_count,
        Cadence::Adjustment => config.difficulty_adjustment_block_count,
    }
}

/// A retarget moves a difficulty by one at most, and never out of the range
/// from 0 to the greatest difficulty.
pub proof fn lemma_retarget_by_one(difficulty: u32, pace: Pace)
    requires
        difficulty <= MAX_DIFFICULTY,
    ensures
        retargeted(difficulty, pace) <= MAX_DIFFICULTY,
        clamped(retargeted(difficulty, pace)) == retargeted(difficulty, pace),
        retargeted(difficulty, pace) == difficulty || retargeted(difficulty, pace) == difficulty
            + 1 || retargeted(difficulty, pace) == difficulty - 1,
        pace == Pace::Even ==> retargeted(difficulty, pace) == difficulty,
{
}

/// The span of blocks that a retarget is judged by, once it has been walked:
/// what is needed to compare the time taken with the time expected.
#[derive(Debug)]
pub struct Elapsed {
    /// The rule to compare by.
    pub cadence: Cadence,
    /// The difficulty of the block that the walk started at.
    pub difficulty: u32,
    /// The timestamp of the oldest block of the span.
    pub previous_time: Vec<u8>,
    /// The number of blocks that the span covers.
    pub count: u64,
    /// How many seconds should pass from one block to the next.
    pub seconds_between_blocks: u64,
}

/// A walked span as plain values.
pub ghost struct ElapsedView {
    pub cadence: Cadence,
    pub difficulty: u32,
    pub previous_time: Seq<u8>,
    pub count: u64,
    pub seconds_between_blocks: u64,
}

impl View for Elapsed {
    type V = ElapsedView;

    open spec fn view(&self) -> ElapsedView {
        ElapsedView {
            cadence: self.cadence,
            difficulty: self.difficulty,
            previous_time: self.previous_time@,
            count: self.count,
            seconds_between_blocks: self.seconds_between_blocks,
        }
    }
}

impl Elapsed {
    /// The seconds that the span should have taken: its blocks times the
    /// seconds between two blocks.
    pub fn expected_seconds(&self) -> (seconds: u128)
        ensures
            seconds == self.count * self.seconds_between_blocks,
    {
        assert(self.count * self.seconds_between_blocks <= u64::MAX * u64::MAX) by (nonlinear_arith)
            requires
                self.count <= u64::MAX,
                self.seconds_between_blocks <= u64::MAX,
        ;
        (self.count as u128) * (self.seconds_between_blocks as u128)
    }

    /// The difficulty for the next block, given how the time taken compares
    /// with the time expected.
    pub fn settle(&self, pace: Pace) -> (difficulty: u32)
        ensures
            difficulty == clamped(retargeted(self.difficulty, pace)),
    {
        clamp(retarget(self.difficulty, pace))
    }
}

/// The walk over the span of a retarget, from a block up its parents. It
/// names the block it needs next, and is handed what the lookup gave.
#[derive(Debug)]
pub struct Window {
    cadence: Cadence,
    difficulty: u32,
    initial_difficulty: u32,
    count: u64,
    previous_time: Vec<u8>,
    wanted: Vec<u8>,
    total_count: u64,
    seconds_between_blocks: u64,
}

/// A walk as plain values.
pub ghost struct WindowView {
    pub cadence: Cadence,
    pub difficulty: u32,
    pub initial_difficulty: u32,
    pub count: u64,
    pub previous_time: Seq<u8>,
    pub wanted: Seq<u8>,
    pub total_count: u64,
    pub seconds_between_blocks: u64,
}

impl View for Window {
    type V = WindowView;

    closed spec fn view(&self) -> WindowView {
        WindowView {
            cadence: self.cadence,
            difficulty: self.difficulty,
            initial_difficulty: self.initial_difficulty,
            count: self.count,
            previous_time: self.previous_time@,
            wanted: self.wanted@,
            total_count: self.total_count,
            seconds_between_blocks: self.seconds_between_blocks,
        }
    }
}

/// Where finding the difficulty of the next block stands.
#[derive(Debug)]
pub enum DifficultyStep {
    /// The difficulty is known.
    Done(u32),
    /// The walk needs the block that it names.
    Fetch(Window),
    /// The span is walked, and the time it took is to be compared.
    Compare(Elapsed),
}

/// A step as plain values.
pub ghost enum DifficultyStepView {
    Done(u32),
    Fetch(WindowView),
    Compare(ElapsedView),
}

impl View for DifficultyStep {
    type V = DifficultyStepView;

    open spec fn view(&self) -> DifficultyStepView {
        match self {
            DifficultyStep::Done(difficulty) => DifficultyStepView::Done(*difficulty),
            DifficultyStep::Fetch(window) => DifficultyStepView::Fetch(window@),
            DifficultyStep::Compare(elapsed) => DifficultyStepView::Compare(elapsed@),
        }
    }
}

/// What a walk has gathered when it ends where it stands.
pub open spec fn window_elapsed(window: WindowView) -> ElapsedView {
    ElapsedView {
        cadence: window.cadence,
        difficulty: window.difficulty,
        previous_time: window.previous_time,
        count: window.count,
        seconds_between_blocks: window.seconds_between_blocks,
    }
}

/// Where finding the difficulty starts. After the first block the initial
/// difficulty is used; where no rule applies at the parent's height, the
/// parent's difficulty; else the span of the rule is walked, from the parent
/// of the parent on, with two blocks counted already.
pub open spec fn difficulty_start(header: HeaderView, config: PowConfig) -> DifficultyStepView {
    if header.block.block_num == 0 {
        DifficultyStepView::Done(clamped(config.initial_difficulty))
    } else {
        match cadence_of(header.block.block_num, config) {
            None => DifficultyStepView::Done(clamped(header.consensus.difficulty)),
            Some(cadence) => DifficultyStepView::Fetch(
                WindowView {
                    cadence,
                    difficulty: header.consensus.difficulty,
                    initial_difficulty: config.initial_difficulty,
                    count: 2,
                    previous_time: header.consensus.timestamp,
                    wanted: header.block.previous_id,
                    total_count: span_of(cadence, config),
                    seconds_between_blocks: config.seconds_between_blocks,
                },
            ),
        }
    }
}

/// One step of the walk. A block that cannot be had ends the search with the
/// initial difficulty. A block without a proof-of-work payload ends the walk
/// before it; a block that fills the span ends the walk with it; any other
/// block is counted, and the walk goes on at its parent.
pub open spec fn window_step(window: WindowView, fetched: Option<BlockView>) -> DifficultyStepView {
    match fetched {
        None => DifficultyStepView::Done(clamped(window.initial_difficulty)),
        Some(block) => match decode(block.payload) {
            Err(_) => DifficultyStepView::Compare(window_elapsed(window)),
            Ok(consensus) => {
                let grown = WindowView {
                    count: (window.count + 1) as u64,
                    previous_time: consensus.timestamp,
                    wanted: block.previous_id,
                    ..window
                };
                if grown.count >= window.total_count {
                    DifficultyStepView::Compare(window_elapsed(grown))
                } else {
                    DifficultyStepView::Fetch(grown)
                }
            },
        },
    }
}

/// The span that a walk over a chain ends with: the number of blocks and the
/// timestamp of the oldest. `None` where a block of the span cannot be had.
pub open spec fn span_over(chain: Chain, window: WindowView) -> Option<(u64, Seq<u8>)>
    decreases window.total_count - window.count,
{
    match lookup(chain, window.wanted) {
        None => None,
        Some(block) => match decode(block.payload) {
            Err(_) => Some((window.count, window.previous_time)),
            Ok(consensus) => if window.count + 1 >= window.total_count {
                Some(((window.count + 1) as u64, consensus.timestamp))
            } else {
                span_over(
                    chain,
                    WindowView {
                        count: (window.count + 1) as u64,
                        previous_time: consensus.timestamp,
                        wanted: block.previous_id,
                        ..window
                    },
                )
            },
        },
    }
}

/// A walk that is handed the blocks of a chain ends with the span over that
/// chain: each step either ends with it, or leaves it as it was.
pub proof fn lemma_window_step(chain: Chain, window: WindowView)
    requires
        window.count < u64::MAX,
    ensures
        match window_step(window, lookup(chain, window.wanted)) {
            DifficultyStepView::Done(difficulty) => span_over(chain, window).is_none()
                && difficulty == clamped(window.initial_difficulty),
            DifficultyStepView::Compare(elapsed) => span_over(chain, window) == Some(
                (elapsed.count, elapsed.previous_time),
            ) && elapsed.cadence == window.cadence && elapsed.difficulty == window.difficulty
                && elapsed.seconds_between_blocks == window.seconds_between_blocks,
            DifficultyStepView::Fetch(next) => span_over(chain, window) == span_over(chain, next)
                && next.count == window.count + 1 && next.count < next.total_count,
        },
{
}

/// What finding the difficulty comes to when every block it asks for is
/// looked up in one chain: the step at which it stops asking, or `None` where
/// it still asks after `fuel` lookups.
pub open spec fn walk_over(chain: Chain, step: DifficultyStepView, fuel: nat) -> Option<
    DifficultyStepView,
>
    decreases fuel,
{
    match step {
        DifficultyStepView::Fetch(window) => if fuel == 0 {
            None
        } else {
            walk_over(
                chain,
                window_step(window, lookup(chain, window.wanted)),
                (fuel - 1) as nat,
            )
        },
        ended => Some(ended),
    }
}

/// The difficulty of the block after `header` over a chain, where the time
/// its span took compares to the expected time as `pace` says: the initial
/// difficulty after the first block and where the span cannot be walked, the
/// parent's difficulty off the cadence, the parent's difficulty retargeted on
/// it; never more than the greatest difficulty.
pub open spec fn difficulty_over(chain: Chain, header: HeaderView, config: PowConfig, pace: Pace) -> u32 {
    match difficulty_start(header, config) {
        DifficultyStepView::Fetch(window) => match span_over(chain, window) {
            Some(_) => clamped(retargeted(header.consensus.difficulty, pace)),
            None => clamped(config.initial_difficulty),
        },
        DifficultyStepView::Done(difficulty) => difficulty,
        DifficultyStepView::Compare(elapsed) => clamped(retargeted(elapsed.difficulty, pace)),
    }
}

/// A walk that is fed from one chain stops with the span over that chain:
/// where it has stopped asking within `fuel` lookups, it has stopped to have
/// that span compared, or, where the span cannot be walked, with the initial
/// difficulty.
pub proof fn lemma_walk_over(chain: Chain, window: WindowView, fuel: nat)
    requires
        window.count < u64::MAX,
        walk_over(chain, DifficultyStepView::Fetch(window), fuel).is_some(),
    ensures
        walk_over(chain, DifficultyStepView::Fetch(window), fuel) == Some(
            match span_over(chain, window) {
                Some((count, previous_time)) => DifficultyStepView::Compare(
                    ElapsedView { count, previous_time, ..window_elapsed(window) },
                ),
                None => DifficultyStepView::Done(clamped(window.initial_difficulty)),
            },
        ),
    decreases fuel,
{
    reveal_with_fuel(walk_over, 2);
    lemma_window_step(chain, window);
    match window_step(window, lookup(chain, window.wanted)) {
        DifficultyStepView::Fetch(next) => {
            lemma_walk_over(chain, next, (fuel - 1) as nat);
        },
        _ => {},
    }
}

/// Mining over a chain asks for the difficulty that the chain gives: where
/// finding the difficulty of the block after `header`, fed from one chain,
/// has stopped asking within `fuel` lookups, what it settles on for a pace is
/// the difficulty over that chain.
pub proof fn lemma_difficulty_over(
    chain: Chain,
    header: HeaderView,
    config: PowConfig,
    pace: Pace,
    fuel: nat,
)
    requires
        walk_over(chain, difficulty_start(header, config), fuel).is_some(),
    ensures
        !(walk_over(chain, difficulty_start(header, config), fuel).unwrap() is Fetch),
        walk_over(chain, difficulty_start(header, config), fuel).unwrap() is Done ==> walk_over(
            chain,
            difficulty_start(header, config),
            fuel,
        ).unwrap()->Done_0 == difficulty_over(chain, header, config, pace),
        walk_over(chain, difficulty_start(header, config), fuel).unwrap() is Compare ==> clamped(
            retargeted(
                walk_over(
                    chain,
                    difficulty_start(header, config),
                    fuel,
                ).unwrap()->Compare_0.difficulty,
                pace,
            ),
        ) == difficulty_over(chain, header, config, pace),
        difficulty_over(chain, header, config, pace) <= MAX_DIFFICULTY,
{
    reveal_with_fuel(walk_over, 2);
    match difficulty_start(header, config) {
        DifficultyStepView::Fetch(window) => {
            lemma_walk_over(chain, window, fuel);
        },
        _ => {},
    }
}

/// Whether the rule of tuning applies after the block at `block_num`.
pub fn is_tuning_block(block_num: u64, config: &PowConfig) -> (tuning: bool)
    requires
        config.difficulty_tuning_block_count > 0,
    ensures
        tuning <==> block_num % config.difficulty_tuning_block_count == 0,
{
    block_num % config.difficulty_tuning_block_count == 0
}

/// Whether the adjustment count divides `block_num`.
pub fn is_adjustment_block(block_num: u64, config: &PowConfig) -> (adjustment: bool)
    requires
        config.difficulty_adjustment_block_count > 0,
    ensures
        adjustment <==> block_num % config.difficulty_adjustment_block_count == 0,
{
    block_num % config.difficulty_adjustment_block_count == 0
}

/// A difficulty held to the greatest one.
pub fn clamp(difficulty: u32) -> (held: u32)
    ensures
        held == clamped(difficulty),
{
    if difficulty > MAX_DIFFICULTY {
        MAX_DIFFICULTY
    } else {
        difficulty
    }
}

/// The difficulty after a retarget.
pub fn retarget(difficulty: u32, pace: Pace) -> (next: u32)
    ensures
        next == retargeted(difficulty, pace),
{
    match pace {
        Pace::Fast => if difficulty < MAX_DIFFICULTY {
            difficulty + 1
        } else {
            difficulty
        },
        Pace::Slow => if difficulty > 0 {
            difficulty - 1
        } else {
            difficulty
        },
        Pace::Even => difficulty,
    }
}

/// Starts finding the difficulty of the block that follows `header`.
pub fn get_difficulty(header: &BlockHeader, config: &PowConfig) -> (step: DifficultyStep)
    requires
        config.wf(),
    ensures
        step@ == difficulty_start(header@, *config),
        step@ is Done ==> step@->Done_0 <= MAX_DIFFICULTY,
        step@ is Fetch ==> step@->Fetch_0.count < u64::MAX,
{
    if header.is_genesis() {
        return DifficultyStep::Done(clamp(config.initial_difficulty));
    }
    calculate_difficulty(header, config)
}

fn calculate_difficulty(header: &BlockHeader, config: &PowConfig) -> (step: DifficultyStep)
    requires
        config.wf(),
        header@.block.block_num != 0,
    ensures
        step@ == difficulty_start(header@, *config),
{
    let block_num: u64 = header.block().block_num;
    let cadence: Cadence = if is_tuning_block(block_num, config) {
        Cadence::Tuning
    } else if is_adjustment_block(block_num, config) {
        Cadence::Adjustment
    } else {
        return DifficultyStep::Done(clamp(header.consensus.difficulty));
    };
    let total_count: u64 = match cadence {
        Cadence::Tuning => config.difficulty_tuning_block_count,
        Cadence::Adjustment => config.difficulty_adjustment_block_count,
    };
    DifficultyStep::Fetch(
        Window {
            cadence,
            difficulty: header.consensus.difficulty,
            initial_difficulty: config.initial_difficulty,
            count: 2,
            previous_time: copy_bytes(header.consensus.timestamp.as_slice()),
            wanted: copy_bytes(header.block().previous_id.as_slice()),
            total_count,
            seconds_between_blocks: config.seconds_between_blocks,
        },
    )
}

impl Window {
    #[verifier::type_invariant]
    spec fn inv(self) -> bool {
        self.count < u64::MAX
    }

    /// The id of the block that the walk needs next.
    pub fn wanted(&self) -> (block_id: &Vec<u8>)
        ensures
            block_id@ == self@.wanted,
    {
        &self.wanted
    }

    /// Takes what looking up the wanted block gave, and says how the search
    /// goes on.
    pub fn step(self, fetched: Option<Block>) -> (step: DifficultyStep)
        ensures
            step@ == window_step(
                self@,
                match fetched {
                    Some(block) => Some(block@),
                    None => None,
                },
            ),
            step@ is Done ==> step@->Done_0 <= MAX_DIFFICULTY,
            step@ is Fetch ==> step@->Fetch_0.count < u64::MAX,
    {
        proof {
            use_type_invariant(&self);
        }
        let block: Block = match fetched {
            Some(block) => block,
            None => {
                return DifficultyStep::Done(clamp(self.initial_difficulty));
            },
        };
        let consensus: BlockConsensus = match BlockConsensus::deserialize(block.payload.as_slice()) {
            Ok(consensus) => consensus,
            Err(_) => {
                return DifficultyStep::Compare(
                    Elapsed {
                        cadence: self.cadence,
                        difficulty: self.difficulty,
                        previous_time: self.previous_time,
                        count: self.count,
                        seconds_between_blocks: self.seconds_between_blocks,
                    },
                );
            },
        };
        let count: u64 = self.count + 1;
        if count >= self.total_count {
            DifficultyStep::Compare(
                Elapsed {
                    cadence: self.cadence,
                    difficulty: self.difficulty,
                    previous_time: consensus.timestamp,
                    count,
                    seconds_between_blocks: self.seconds_between_blocks,
                },
            )
        } else {
            DifficultyStep::Fetch(
                Window {
                    cadence: self.cadence,
                    difficulty: self.difficulty,
                    initial_difficulty: self.initial_difficulty,
                    count,
                    previous_time: consensus.timestamp,
                    wanted: block.previous_id,
                    total_count: self.total_count,
                    seconds_between_blocks: self.seconds_between_blocks,
                },
            )
        }
    }
}

} // verus!
