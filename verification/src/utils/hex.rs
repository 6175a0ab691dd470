use vstd::prelude::*;
use vstd::string::StringExecFns;
use vstd::utf8::encode_utf8;

verus! {

/// The sixteen digits of base 16, small letters for the upper six.
pub open spec fn hex_digits() -> Seq<char> {
    seq!['0', '1', '2', '3', '4', '5', '6', '7', '8', '9', 'a', 'b', 'c', 'd', 'e', 'f']
}

/// The digit of a number below 16.
pub open spec fn hex_digit(nibble: int) -> char
    recommends
        0 <= nibble < 16,
{
    hex_digits()[nibble]
}

/// A byte string in base 16: two digits for each byte, the upper half first.
pub open spec fn hex_of(bytes: Seq<u8>) -> Seq<char>
    decreases bytes.len(),
{
    if bytes.len() == 0 {
        Seq::empty()
    } else {
        hex_of(bytes.drop_last()).push(hex_digit(bytes.last() as int / 16)).push(
            hex_digit(bytes.last() as int % 16),
        )
    }
}

/// The number that a byte stands for as a digit of base 16, capital or small.
pub open spec fn hex_value(byte: u8) -> Option<u8> {
    if 48 <= byte <= 57 {
        Some((byte - 48) as u8)
    } else if 97 <= byte <= 102 {
        Some((byte - 87) as u8)
    } else if 65 <= byte <= 70 {
        Some((byte - 55) as u8)
    } else {
        None
    }
}

/// The byte that two bytes of text stand for: two digits of base 16, the
/// upper half first, or, as the standard reader of numbers has it, `+` and
/// one digit.
pub open spec fn pair_value(high: u8, low: u8) -> Option<u8> {
    if high == 43 {
        hex_value(low)
    } else {
        match (hex_value(high), hex_value(low)) {
            (Some(h), Some(l)) => Some((16 * h + l) as u8),
            _ => None,
        }
    }
}

/// Why a text is not a byte string in base 16.
#[derive(Clone, Copy, Debug, PartialEq, Eq, Structural)]
pub enum HexError {
    /// The text has an odd number of bytes.
    OddLength,
    /// Two bytes of the text stand for no byte.
    InvalidDigit,
}

/// Whether every pair of bytes of a text of even length stands for a byte.
pub open spec fn all_pairs(text: Seq<u8>) -> bool {
    forall|i: int| 0 <= i < text.len() / 2 ==> (#[trigger] pair_value(
        text[2 * i],
        text[2 * i + 1],
    )).is_some()
}

/// The byte string that a text in base 16 stands for.
pub open spec fn unhexed(text: Seq<u8>) -> Result<Seq<u8>, HexError> {
    if text.len() % 2 != 0 {
        Err(HexError::OddLength)
    } else if !all_pairs(text) {
        Err(HexError::InvalidDigit)
    } else {
        Ok(Seq::new((text.len() / 2) as nat, |i: int| pair_value(text[2 * i], text[2 * i + 1]).unwrap()))
    }
}

fn digit_str(nibble: u8) -> (digit: &'static str)
    requires
        nibble < 16,
    ensures
        digit@ == seq![hex_digit(nibble as int)],
{
    proof {
        reveal_strlit("0");
        reveal_strlit("1");
        reveal_strlit("2");
        reveal_strlit("3");
        reveal_strlit("4");
        reveal_strlit("5");
        reveal_strlit("6");
        reveal_strlit("7");
        reveal_strlit("8");
        reveal_strlit("9");
        reveal_strlit("a");
        reveal_strlit("b");
        reveal_strlit("c");
        reveal_strlit("d");
        reveal_strlit("e");
        reveal_strlit("f");
    }
    let digit: &'static str = match nibble {
        0 => "0",
        1 => "1",
        2 => "2",
        3 => "3",
        4 => "4",
        5 => "5",
        6 => "6",
        7 => "7",
        8 => "8",
        9 => "9",
        10 => "a",
        11 => "b",
        12 => "c",
        13 => "d",
        14 => "e",
        _ => "f",
    };
    assert(digit@ =~= seq![hex_digit(nibble as int)]);
    digit
}

/// A byte string in base 16.
pub fn to_hex(bytes: &[u8]) -> (text: String)
    ensures
        text@ == hex_of(bytes@),
{
    let mut text: String = String::new();
    let n: usize = bytes.len();
    let mut i: usize = 0;
    assert(bytes@.take(0) =~= Seq::<u8>::empty());
    while i < n
        invariant
            i <= n,
            n == bytes@.len(),
            text@ == hex_of(bytes@.take(i as int)),
        decreases n - i,
    {
        let byte: u8 = bytes[i];
        proof {
            let upto = bytes@.take(i as int + 1);
            assert(upto.drop_last() =~= bytes@.take(i as int));
            assert(upto.last() == byte);
        }
        let ghost before = text@;
        let high: &'static str = digit_str(byte / 16);
        let low: &'static str = digit_str(byte % 16);
        text.append(high);
        text.append(low);
        assert(text@ =~= before.push(hex_digit(byte as int / 16)).push(hex_digit(byte as int % 16)));
        i = i + 1;
    }
    assert(bytes@.take(n as int) =~= bytes@);
    text
}

fn digit_value(byte: u8) -> (value: Option<u8>)
    ensures
        value == hex_value(byte),
{
    if byte >= 48 && byte <= 57 {
        Some(byte - 48)
    } else if byte >= 97 && byte <= 102 {
        Some(byte - 87)
    } else if byte >= 65 && byte <= 70 {
        Some(byte - 55)
    } else {
        None
    }
}

/// The byte string that a text in base 16 stands for.
pub fn unhex(hexed: &str) -> (result: Result<Vec<u8>, HexError>)
    ensures
        match unhexed(encode_utf8(hexed@)) {
            Ok(bytes) => result.is_ok() && result.unwrap()@ == bytes,
            Err(error) => result == Err::<Vec<u8>, HexError>(error),
        },
{
    let text: &[u8] = hexed.as_bytes();
    let n: usize = text.len();
    if n % 2 != 0 {
        return Err(HexError::OddLength);
    }
    let mut bytes: Vec<u8> = Vec::new();
    let mut index: usize = 0;
    while index < n / 2
        invariant
            index <= n / 2,
            n == text@.len(),
            n % 2 == 0,
            text@ == encode_utf8(hexed@),
            bytes@.len() == index,
            forall|i: int|
                0 <= i < index ==> (#[trigger] pair_value(text@[2 * i], text@[2 * i + 1]))
                    == Some(bytes@[i]),
        decreases n / 2 - index,
    {
        let high: u8 = text[index * 2];
        let low: u8 = text[index * 2 + 1];
        let value: Option<u8> = if high == 43 {
            digit_value(low)
        } else {
            match (digit_value(high), digit_value(low)) {
                (Some(h), Some(l)) => Some(16 * h + l),
                _ => None,
            }
        };
        match value {
            Some(byte) => {
                bytes.push(byte);
            },
            None => {
                proof {
                    let i = index as int;
                    assert(pair_value(text@[2 * i], text@[2 * i + 1]).is_none());
                    assert(i < text@.len() / 2);
                    assert(!all_pairs(text@));
                    assert(text@ == encode_utf8(hexed@));
                }
                return Err(HexError::InvalidDigit);
            },
        }
        index = index + 1;
    }
    assert(all_pairs(text@));
    assert(bytes@ =~= unhexed(text@).unwrap());
    Ok(bytes)
}

} // verus!
