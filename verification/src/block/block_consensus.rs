use vstd::prelude::*;
use vstd::utf8::valid_utf8;
use crate::utils::bytes::append_bytes;
use crate::utils::bytes::copy_bytes;
use crate::utils::decimal::decimal;
use crate::utils::decimal::is_digit;
use crate::utils::decimal::lemma_decimal_reads_back;
use crate::utils::decimal::lemma_parse_decimal;
use crate::utils::decimal::parse_u32;
use crate::utils::decimal::parse_u64;
use crate::utils::decimal::parse_unsigned;
use crate::utils::decimal::to_decimal;
use crate::utils::decimal::unsigned_digits;
use crate::utils::numeral::is_real_text;
use crate::utils::numeral::lemma_real_text_bytes;
use crate::utils::numeral::real_text;

verus! {

/// The byte that separates the parts of a payload: `:`.
pub const GLUE_BYTE: u8 = 58;

/// The three bytes that a payload starts with.
pub type ByteTag = [u8; 3];

/// The tag of a proof-of-work payload: the bytes of `PoW`.
pub open spec fn pow_tag() -> Seq<u8> {
    seq![80u8, 111u8, 87u8]
}

/// The numeric fields of a payload.
#[derive(Clone, Copy, Debug, PartialEq, Eq, Structural)]
pub enum Field {
    Difficulty,
    Nonce,
    Timestamp,
}

/// Why a payload was not read.
#[derive(Clone, Copy, Debug, PartialEq, Eq, Structural)]
pub enum ConsensusError {
    /// The payload does not start with the tag and one separator.
    InvalidTag,
    /// A field is not UTF-8.
    InvalidEncoding,
    /// A field is not a numeral of its type.
    InvalidField(Field),
}

/// The consensus payload of a block, read.
#[derive(Debug)]
pub struct BlockConsensus {
    /// The tag that the payload starts with.
    pub tag: ByteTag,
    /// The difficulty that the block's proof of work had to meet.
    pub difficulty: u32,
    /// When the block was made, in seconds since the epoch: the numeral of a
    /// real number.
    pub timestamp: Vec<u8>,
    /// The nonce of the proof of work.
    pub nonce: u64,
}

/// A payload as plain values.
pub ghost struct ConsensusView {
    pub tag: Seq<u8>,
    pub difficulty: u32,
    pub timestamp: Seq<u8>,
    pub nonce: u64,
}

impl View for BlockConsensus {
    type V = ConsensusView;

    open spec fn view(&self) -> ConsensusView {
        ConsensusView {
            tag: self.tag@,
            difficulty: self.difficulty,
            timestamp: self.timestamp@,
            nonce: self.nonce,
        }
    }
}

/// The payload of a block that has none: the tag all zero, the numbers zero.
pub open spec fn empty_consensus() -> ConsensusView {
    ConsensusView { tag: seq![0u8, 0u8, 0u8], difficulty: 0, timestamp: seq![48u8], nonce: 0 }
}

/// The first position at or after `from` that holds `terminator`, or the
/// length of `bytes` where none does.
pub open spec fn sequence_end(bytes: Seq<u8>, from: int, terminator: u8) -> int
    decreases bytes.len() - from,
{
    if 0 <= from < bytes.len() && bytes[from] != terminator {
        sequence_end(bytes, from + 1, terminator)
    } else {
        from
    }
}

/// The bytes from `from` up to the next `terminator` or the end.
pub open spec fn sequence_at(bytes: Seq<u8>, from: int, terminator: u8) -> Seq<u8> {
    if 0 <= from <= bytes.len() {
        bytes.subrange(from, sequence_end(bytes, from, terminator))
    } else {
        Seq::empty()
    }
}

/// Where reading goes on after the sequence at `from`: behind its terminator,
/// or at the end of `bytes`.
pub open spec fn after_sequence(bytes: Seq<u8>, from: int, terminator: u8) -> int {
    let end = sequence_end(bytes, from, terminator);
    if 0 <= from && end < bytes.len() {
        end + 1
    } else {
        end
    }
}

/// What the three fields of a payload, taken as texts, are read as. The
/// difficulty is judged first, then the timestamp, then the nonce; of each, its
/// encoding before its value.
pub open spec fn decode_fields(
    difficulty: Seq<u8>,
    nonce: Seq<u8>,
    timestamp: Seq<u8>,
) -> Result<ConsensusView, ConsensusError> {
    if !valid_utf8(difficulty) {
        Err(ConsensusError::InvalidEncoding)
    } else if parse_unsigned(difficulty, u32::MAX as nat).is_none() {
        Err(ConsensusError::InvalidField(Field::Difficulty))
    } else if !valid_utf8(timestamp) {
        Err(ConsensusError::InvalidEncoding)
    } else if !real_text(timestamp) {
        Err(ConsensusError::InvalidField(Field::Timestamp))
    } else if !valid_utf8(nonce) {
        Err(ConsensusError::InvalidEncoding)
    } else if parse_unsigned(nonce, u64::MAX as nat).is_none() {
        Err(ConsensusError::InvalidField(Field::Nonce))
    } else {
        Ok(
            ConsensusView {
                tag: pow_tag(),
                difficulty: parse_unsigned(difficulty, u32::MAX as nat).unwrap() as u32,
                timestamp,
                nonce: parse_unsigned(nonce, u64::MAX as nat).unwrap() as u64,
            },
        )
    }
}

/// Whether a payload starts with the tag `PoW` and one `:`.
pub open spec fn tagged(bytes: Seq<u8>) -> bool {
    bytes.len() >= 4 && bytes.take(3) == pow_tag() && bytes[3] == GLUE_BYTE
}

/// The text of a payload's difficulty: what follows the tag and its `:`, up
/// to the next `:` or the end.
pub open spec fn difficulty_text(bytes: Seq<u8>) -> Seq<u8> {
    sequence_at(bytes, 4, GLUE_BYTE)
}

/// The text of a payload's nonce: what follows the difficulty.
pub open spec fn nonce_text(bytes: Seq<u8>) -> Seq<u8> {
    sequence_at(bytes, after_sequence(bytes, 4, GLUE_BYTE), GLUE_BYTE)
}

/// The text of a payload's timestamp: what follows the nonce. What follows
/// the timestamp and one more `:` counts for nothing.
pub open spec fn timestamp_text(bytes: Seq<u8>) -> Seq<u8> {
    sequence_at(
        bytes,
        after_sequence(bytes, after_sequence(bytes, 4, GLUE_BYTE), GLUE_BYTE),
        GLUE_BYTE,
    )
}

/// What a payload is read as: the tag `PoW`, one `:`, then the difficulty, the
/// nonce and the timestamp, each up to the next `:` or the end.
pub open spec fn decode(bytes: Seq<u8>) -> Result<ConsensusView, ConsensusError> {
    if !tagged(bytes) {
        Err(ConsensusError::InvalidTag)
    } else {
        decode_fields(difficulty_text(bytes), nonce_text(bytes), timestamp_text(bytes))
    }
}

/// The payload that carries a difficulty, a nonce and a timestamp.
pub open spec fn encode(difficulty: u32, timestamp: Seq<u8>, nonce: u64) -> Seq<u8> {
    pow_tag() + seq![GLUE_BYTE] + decimal(difficulty as nat) + seq![GLUE_BYTE] + decimal(
        nonce as nat,
    ) + seq![GLUE_BYTE] + timestamp
}

/// A stretch without the terminator, closed by the terminator or by the end
/// of `bytes`, is the sequence that is read at its start.
pub proof fn lemma_sequence_end(bytes: Seq<u8>, from: int, end: int, terminator: u8)
    requires
        0 <= from <= end <= bytes.len(),
        forall|i: int| from <= i < end ==> bytes[i] != terminator,
        end == bytes.len() || bytes[end] == terminator,
    ensures
        sequence_end(bytes, from, terminator) == end,
    decreases end - from,
{
    if from < end {
        lemma_sequence_end(bytes, from + 1, end, terminator);
    }
}

/// Bytes below 128 are well-formed UTF-8.
pub proof fn lemma_ascii_is_utf8(bytes: Seq<u8>)
    requires
        forall|i: int| 0 <= i < bytes.len() ==> bytes[i] < 128,
    ensures
        valid_utf8(bytes),
{
    assert(bytes.subrange(0, 0) =~= Seq::<u8>::empty());
    assert(vstd::utf8::partial_valid_utf8(bytes, 0));
    assert forall|i: int| 0 <= i < bytes.len() implies #[trigger] vstd::utf8::is_leading_byte_width_1(
        bytes[i],
    ) by {}
    vstd::utf8::partial_valid_utf8_extend_ascii_block(bytes, 0, bytes.len() as int);
    assert(bytes.subrange(0, bytes.len() as int) =~= bytes);
}

/// An unsigned decimal numeral is well-formed UTF-8.
pub proof fn lemma_numeral_is_utf8(text: Seq<u8>, max: nat)
    requires
        parse_unsigned(text, max).is_some(),
    ensures
        valid_utf8(text),
{
    let digits = unsigned_digits(text);
    assert forall|i: int| 0 <= i < text.len() implies text[i] < 128 by {
        if digits.len() == text.len() {
            assert(is_digit(digits[i]));
        } else if i > 0 {
            assert(digits[i - 1] == text[i]);
            assert(is_digit(digits[i - 1]));
        }
    }
    lemma_ascii_is_utf8(text);
}

/// The numeral of a real number is well-formed UTF-8 and holds no `:`.
pub proof fn lemma_real_text_is_utf8(text: Seq<u8>)
    requires
        real_text(text),
    ensures
        valid_utf8(text),
        forall|i: int| 0 <= i < text.len() ==> text[i] != GLUE_BYTE,
{
    assert forall|i: int| 0 <= i < text.len() implies text[i] < 128 && text[i] != GLUE_BYTE by {
        lemma_real_text_bytes(text, i);
    }
    lemma_ascii_is_utf8(text);
}

/// A payload is read exactly where it has the shape of one: the tag `PoW`
/// and a `:`, then a numeral of 32 bits, a numeral of 64 bits and the numeral
/// of a real number, with a `:` between them. The tag is at fault exactly
/// where the payload does not start with it; the encoding never is where all
/// three fields are numerals.
pub proof fn lemma_decode_accepts(bytes: Seq<u8>)
    ensures
        decode(bytes).is_ok() <==> (tagged(bytes) && parse_unsigned(
            difficulty_text(bytes),
            u32::MAX as nat,
        ).is_some() && parse_unsigned(nonce_text(bytes), u64::MAX as nat).is_some() && real_text(
            timestamp_text(bytes),
        )),
        decode(bytes) == Err::<ConsensusView, ConsensusError>(ConsensusError::InvalidTag)
            <==> !tagged(bytes),
        decode(bytes).is_ok() ==> decode(bytes).unwrap() == (ConsensusView {
            tag: pow_tag(),
            difficulty: parse_unsigned(difficulty_text(bytes), u32::MAX as nat).unwrap() as u32,
            timestamp: timestamp_text(bytes),
            nonce: parse_unsigned(nonce_text(bytes), u64::MAX as nat).unwrap() as u64,
        }),
{
    if parse_unsigned(difficulty_text(bytes), u32::MAX as nat).is_some() {
        lemma_numeral_is_utf8(difficulty_text(bytes), u32::MAX as nat);
    }
    if parse_unsigned(nonce_text(bytes), u64::MAX as nat).is_some() {
        lemma_numeral_is_utf8(nonce_text(bytes), u64::MAX as nat);
    }
    if real_text(timestamp_text(bytes)) {
        lemma_real_text_is_utf8(timestamp_text(bytes));
    }
}

/// Reading what was written gives it back: the payload made of a difficulty,
/// a nonce and the numeral of a timestamp reads as exactly these three, under
/// the tag `PoW`.
pub proof fn lemma_decode_encode(difficulty: u32, timestamp: Seq<u8>, nonce: u64)
    requires
        real_text(timestamp),
    ensures
        decode(encode(difficulty, timestamp, nonce)) == Ok::<ConsensusView, ConsensusError>(
            ConsensusView { tag: pow_tag(), difficulty, timestamp, nonce },
        ),
{
    let d = decimal(difficulty as nat);
    let n = decimal(nonce as nat);
    let bytes = encode(difficulty, timestamp, nonce);
    lemma_decimal_reads_back(difficulty as nat);
    lemma_decimal_reads_back(nonce as nat);
    lemma_parse_decimal(difficulty as nat, u32::MAX as nat);
    lemma_parse_decimal(nonce as nat, u64::MAX as nat);
    let d_at = 4int;
    let d_end = d_at + d.len();
    let n_at = d_end + 1;
    let n_end = n_at + n.len();
    let t_at = n_end + 1;
    let t_end = t_at + timestamp.len();
    assert(bytes.len() == t_end);
    assert(bytes.take(3) =~= pow_tag());
    assert(bytes[3] == GLUE_BYTE);
    assert forall|i: int| d_at <= i < d_end implies bytes[i] != GLUE_BYTE by {
        assert(bytes[i] == d[i - d_at]);
        assert(is_digit(d[i - d_at]));
    }
    assert(bytes[d_end] == GLUE_BYTE);
    lemma_sequence_end(bytes, d_at, d_end, GLUE_BYTE);
    assert forall|i: int| n_at <= i < n_end implies bytes[i] != GLUE_BYTE by {
        assert(bytes[i] == n[i - n_at]);
        assert(is_digit(n[i - n_at]));
    }
    assert(bytes[n_end] == GLUE_BYTE);
    lemma_sequence_end(bytes, n_at, n_end, GLUE_BYTE);
    assert forall|i: int| t_at <= i < t_end implies bytes[i] != GLUE_BYTE by {
        assert(bytes[i] == timestamp[i - t_at]);
        lemma_real_text_bytes(timestamp, i - t_at);
    }
    lemma_sequence_end(bytes, t_at, t_end, GLUE_BYTE);
    assert(sequence_at(bytes, d_at, GLUE_BYTE) =~= d);
    assert(sequence_at(bytes, n_at, GLUE_BYTE) =~= n);
    assert(sequence_at(bytes, t_at, GLUE_BYTE) =~= timestamp);
    assert forall|i: int| 0 <= i < d.len() implies d[i] < 128 by {
        assert(is_digit(d[i]));
    }
    assert forall|i: int| 0 <= i < n.len() implies n[i] < 128 by {
        assert(is_digit(n[i]));
    }
    assert forall|i: int| 0 <= i < timestamp.len() implies timestamp[i] < 128 by {
        lemma_real_text_bytes(timestamp, i);
    }
    lemma_ascii_is_utf8(d);
    lemma_ascii_is_utf8(n);
    lemma_ascii_is_utf8(timestamp);
}

/// `core::str::from_utf8`: whether the bytes are well-formed UTF-8.
#[verifier::external_body]
fn is_utf8(bytes: &[u8]) -> (ok: bool)
    ensures
        ok == valid_utf8(bytes@),
{
    core::str::from_utf8(bytes).is_ok()
}

impl ConsensusError {
    /// What `message` says of each error.
    pub open spec fn message_text(&self) -> Seq<char> {
        match self {
            ConsensusError::InvalidTag => "Consensus has invalid tag"@,
            ConsensusError::InvalidEncoding => "Consensus has invalid utf-8"@,
            ConsensusError::InvalidField(Field::Difficulty) => "Failed to parse consensus difficulty"@,
            ConsensusError::InvalidField(Field::Nonce) => "Failed to parse consensus nonce"@,
            ConsensusError::InvalidField(Field::Timestamp) => "Failed to parse consensus timestamp"@,
        }
    }

    /// The error in words.
    pub fn message(&self) -> (text: String)
        ensures
            text@ == self.message_text(),
    {
        match self {
            ConsensusError::InvalidTag => "Consensus has invalid tag".to_owned(),
            ConsensusError::InvalidEncoding => "Consensus has invalid utf-8".to_owned(),
            ConsensusError::InvalidField(Field::Difficulty) => "Failed to parse consensus difficulty".to_owned(),
            ConsensusError::InvalidField(Field::Nonce) => "Failed to parse consensus nonce".to_owned(),
            ConsensusError::InvalidField(Field::Timestamp) => "Failed to parse consensus timestamp".to_owned(),
        }
    }
}

impl BlockConsensus {
    /// Whether a payload reads as proof-of-work consensus.
    pub fn is_pow_consensus(payload: &[u8]) -> (pow: bool)
        ensures
            pow <==> decode(payload@).is_ok(),
    {
        match Self::deserialize(payload) {
            Ok(consensus) => consensus.is_pow(),
            Err(_) => false,
        }
    }

    /// The payload for a difficulty, a timestamp and a nonce.
    pub fn serialize(difficulty: u32, timestamp: &[u8], nonce: u64) -> (payload: Vec<u8>)
        ensures
            payload@ == encode(difficulty, timestamp@, nonce),
    {
        let mut payload: Vec<u8> = Vec::new();
        payload.push(80);
        payload.push(111);
        payload.push(87);
        payload.push(GLUE_BYTE);
        let difficulty_text: Vec<u8> = to_decimal(difficulty as u64);
        append_bytes(&mut payload, difficulty_text.as_slice());
        payload.push(GLUE_BYTE);
        let nonce_text: Vec<u8> = to_decimal(nonce);
        append_bytes(&mut payload, nonce_text.as_slice());
        payload.push(GLUE_BYTE);
        append_bytes(&mut payload, timestamp);
        assert(payload@ =~= encode(difficulty, timestamp@, nonce));
        payload
    }

    /// Reads a payload.
    pub fn deserialize(slice: &[u8]) -> (result: Result<BlockConsensus, ConsensusError>)
        ensures
            match decode(slice@) {
                Ok(view) => result.is_ok() && result.unwrap()@ == view,
                Err(error) => result == Err::<BlockConsensus, ConsensusError>(error),
            },
    {
        if slice.len() < 3 {
            return Err(ConsensusError::InvalidTag);
        }
        let tag: ByteTag = [slice[0], slice[1], slice[2]];
        assert(tag@ =~= slice@.take(3));
        match Self::verify_tag(tag.as_slice()) {
            Err(error) => {
                return Err(error);
            },
            Ok(()) => {},
        }
        if slice.len() < 4 || slice[3] != GLUE_BYTE {
            return Err(ConsensusError::InvalidTag);
        }
        let mut position: usize = 4;
        let difficulty: Vec<u8> = Self::read_sequence(slice, &mut position, GLUE_BYTE);
        let nonce: Vec<u8> = Self::read_sequence(slice, &mut position, GLUE_BYTE);
        let timestamp: Vec<u8> = Self::read_sequence(slice, &mut position, GLUE_BYTE);
        let difficulty: u32 = match Self::parse_from_utf8(Field::Difficulty, difficulty.as_slice()) {
            Ok(value) => value as u32,
            Err(error) => {
                return Err(error);
            },
        };
        if !is_utf8(timestamp.as_slice()) {
            return Err(ConsensusError::InvalidEncoding);
        }
        if !is_real_text(timestamp.as_slice()) {
            return Err(ConsensusError::InvalidField(Field::Timestamp));
        }
        let nonce: u64 = match Self::parse_from_utf8(Field::Nonce, nonce.as_slice()) {
            Ok(value) => value,
            Err(error) => {
                return Err(error);
            },
        };
        Ok(BlockConsensus { tag, difficulty, timestamp, nonce })
    }

    /// The payload of a block that has none.
    pub fn new() -> (consensus: BlockConsensus)
        ensures
            consensus@ == empty_consensus(),
    {
        let mut timestamp: Vec<u8> = Vec::new();
        timestamp.push(48);
        let consensus = BlockConsensus { tag: [0u8; 3], timestamp, difficulty: 0, nonce: 0 };
        assert(consensus@.tag =~= empty_consensus().tag);
        assert(consensus@.timestamp =~= empty_consensus().timestamp);
        consensus
    }

    /// Whether the payload is tagged as proof of work.
    pub fn is_pow(&self) -> (pow: bool)
        ensures
            pow <==> self@.tag == pow_tag(),
    {
        let pow: bool = self.tag[0] == 80 && self.tag[1] == 111 && self.tag[2] == 87;
        assert(pow ==> self.tag@ =~= pow_tag());
        pow
    }

    /// A copy of the payload.
    pub fn duplicate(&self) -> (copy: BlockConsensus)
        ensures
            copy@ == self@,
    {
        BlockConsensus {
            tag: self.tag,
            difficulty: self.difficulty,
            timestamp: copy_bytes(self.timestamp.as_slice()),
            nonce: self.nonce,
        }
    }

    /// Reads from `position` up to the next `terminator` or the end of
    /// `bytes`, and moves `position` behind what was read, terminator included.
    pub fn read_sequence(bytes: &[u8], position: &mut usize, terminator: u8) -> (sequence: Vec<u8>)
        ensures
            sequence@ == sequence_at(bytes@, *old(position) as int, terminator),
            *final(position) == after_sequence(bytes@, *old(position) as int, terminator),
    {
        let mut sequence: Vec<u8> = Vec::new();
        let n: usize = bytes.len();
        let start: usize = *position;
        if start > n {
            return sequence;
        }
        let mut i: usize = start;
        assert(sequence@ =~= bytes@.subrange(start as int, i as int));
        while i < n && bytes[i] != terminator
            invariant
                start <= i <= n,
                n == bytes@.len(),
                sequence_end(bytes@, start as int, terminator) == sequence_end(
                    bytes@,
                    i as int,
                    terminator,
                ),
                sequence@ == bytes@.subrange(start as int, i as int),
            decreases n - i,
        {
            sequence.push(bytes[i]);
            i = i + 1;
            assert(sequence@ =~= bytes@.subrange(start as int, i as int));
        }
        *position = if i < n {
            i + 1
        } else {
            i
        };
        sequence
    }

    /// Reads the numeral of an unsigned field: `InvalidEncoding` where the
    /// text is not UTF-8, `InvalidField` where it is no numeral that the
    /// field's type holds: 32 bits for the difficulty, 64 for the others.
    pub fn parse_from_utf8(property: Field, slice: &[u8]) -> (result: Result<u64, ConsensusError>)
        ensures
            !valid_utf8(slice@) ==> result == Err::<u64, ConsensusError>(
                ConsensusError::InvalidEncoding,
            ),
            valid_utf8(slice@) && parse_unsigned(slice@, Self::field_max(property)).is_none()
                ==> result == Err::<u64, ConsensusError>(ConsensusError::InvalidField(property)),
            valid_utf8(slice@) && parse_unsigned(slice@, Self::field_max(property)).is_some()
                ==> result == Ok::<u64, ConsensusError>(
                parse_unsigned(slice@, Self::field_max(property)).unwrap() as u64,
            ),
    {
        if !is_utf8(slice) {
            return Err(ConsensusError::InvalidEncoding);
        }
        let value: Option<u64> = match property {
            Field::Difficulty => match parse_u32(slice) {
                Some(v) => Some(v as u64),
                None => None,
            },
            _ => parse_u64(slice),
        };
        match value {
            Some(v) => Ok(v),
            None => Err(ConsensusError::InvalidField(property)),
        }
    }

    /// The greatest number that a field holds.
    pub open spec fn field_max(property: Field) -> nat {
        match property {
            Field::Difficulty => u32::MAX as nat,
            _ => u64::MAX as nat,
        }
    }

    /// Accepts the tag `PoW` and no other.
    pub fn verify_tag(tag: &[u8]) -> (result: Result<(), ConsensusError>)
        ensures
            tag@ == pow_tag() ==> result.is_ok(),
            tag@ != pow_tag() ==> result == Err::<(), ConsensusError>(ConsensusError::InvalidTag),
    {
        if tag.len() == 3 && tag[0] == 80 && tag[1] == 111 && tag[2] == 87 {
            assert(tag@ =~= pow_tag());
            Ok(())
        } else {
            Err(ConsensusError::InvalidTag)
        }
    }
}

} // verus!
