use vstd::prelude::*;

verus! {

/// Whether a byte is an ASCII decimal digit.
pub open spec fn is_digit(byte: u8) -> bool {
    48 <= byte <= 57
}

/// Whether every byte is an ASCII decimal digit.
pub open spec fn all_digits(text: Seq<u8>) -> bool {
    forall|i: int| 0 <= i < text.len() ==> is_digit(#[trigger] text[i])
}

/// The number that a run of decimal digits writes, most significant first.
pub open spec fn digits_value(text: Seq<u8>) -> nat
    decreases text.len(),
{
    if text.len() == 0 {
        0
    } else {
        digits_value(text.drop_last()) * 10 + (text.last() - 48) as nat
    }
}

/// The decimal numeral of a number: no sign, no padding.
pub open spec fn decimal(n: nat) -> Seq<u8>
    decreases n,
{
    if n < 10 {
        seq![(48 + n) as u8]
    } else {
        decimal(n / 10).push((48 + n % 10) as u8)
    }
}

/// The digits of an unsigned numeral: the text without one leading `+`.
pub open spec fn unsigned_digits(text: Seq<u8>) -> Seq<u8> {
    if text.len() > 0 && text[0] == 43 {
        text.skip(1)
    } else {
        text
    }
}

/// The number that a text writes as an unsigned decimal numeral no greater
/// than `max`: an optional `+`, then one or more digits and nothing else.
pub open spec fn parse_unsigned(text: Seq<u8>, max: nat) -> Option<nat> {
    let digits = unsigned_digits(text);
    if digits.len() > 0 && all_digits(digits) && digits_value(digits) <= max {
        Some(digits_value(digits))
    } else {
        None
    }
}

/// A longer run of digits writes no smaller a number than any of its prefixes.
pub proof fn lemma_digits_value_prefix(text: Seq<u8>, k: int)
    requires
        0 <= k <= text.len(),
        all_digits(text),
    ensures
        digits_value(text.take(k)) <= digits_value(text),
    decreases text.len(),
{
    if k == text.len() {
        assert(text.take(k) =~= text);
    } else {
        let front = text.drop_last();
        assert(all_digits(front)) by {
            assert forall|i: int| 0 <= i < front.len() implies is_digit(#[trigger] front[i]) by {
                assert(front[i] == text[i]);
            }
        }
        lemma_digits_value_prefix(front, k);
        assert(front.take(k) =~= text.take(k));
        assert(is_digit(text[text.len() - 1]));
    }
}

/// The numeral of a number is made of digits, is not empty, and writes that
/// number.
pub proof fn lemma_decimal_reads_back(n: nat)
    ensures
        decimal(n).len() >= 1,
        all_digits(decimal(n)),
        digits_value(decimal(n)) == n,
    decreases n,
{
    if n < 10 {
        let s = decimal(n);
        assert(s.drop_last() =~= Seq::<u8>::empty());
        assert(digits_value(s.drop_last()) == 0);
    } else {
        lemma_decimal_reads_back(n / 10);
        let front = decimal(n / 10);
        let s = decimal(n);
        assert(s.drop_last() =~= front);
        assert(s.last() == (48 + n % 10) as u8);
        assert forall|i: int| 0 <= i < s.len() implies is_digit(#[trigger] s[i]) by {
            if i < front.len() {
                assert(s[i] == front[i]);
            }
        }
    }
}

/// Reading the numeral of a number gives the number back.
pub proof fn lemma_parse_decimal(n: nat, max: nat)
    requires
        n <= max,
    ensures
        parse_unsigned(decimal(n), max) == Some(n),
{
    lemma_decimal_reads_back(n);
    assert(is_digit(decimal(n)[0]));
}

/// The decimal numeral of `n`.
pub fn to_decimal(n: u64) -> (text: Vec<u8>)
    ensures
        text@ == decimal(n as nat),
{
    let mut low: Vec<u8> = Vec::new();
    let mut m: u64 = n;
    while m >= 10
        invariant
            decimal(n as nat) == decimal(m as nat) + low@.reverse(),
        decreases m,
    {
        let d: u8 = (m % 10) as u8 + 48;
        proof {
            let grown = low@.push(d);
            assert(decimal((m / 10) as nat).push(d) + low@.reverse() =~= decimal(
                (m / 10) as nat,
            ) + grown.reverse());
        }
        low.push(d);
        m = m / 10;
    }
    let mut text: Vec<u8> = Vec::new();
    text.push(m as u8 + 48);
    let mut i: usize = low.len();
    while i > 0
        invariant
            i <= low.len(),
            text@ == decimal(m as nat) + low@.reverse().take(low.len() - i),
            m < 10,
        decreases i,
    {
        i = i - 1;
        proof {
            let r = low@.reverse();
            let k = low.len() - i - 1;
            assert(r[k] == low@[i as int]);
            assert(r.take(k + 1) =~= r.take(k).push(r[k]));
            assert((decimal(m as nat) + r.take(k)).push(r[k]) =~= decimal(m as nat) + r.take(
                k + 1,
            ));
        }
        text.push(low[i]);
    }
    proof {
        let r = low@.reverse();
        assert(r.take(low.len() as int) =~= r);
    }
    text
}

/// Reads an unsigned decimal numeral below 2^64; `None` where the text is not
/// one.
pub fn parse_u64(text: &[u8]) -> (value: Option<u64>)
    ensures
        value.is_some() <==> parse_unsigned(text@, u64::MAX as nat).is_some(),
        value.is_some() ==> value.unwrap() == parse_unsigned(text@, u64::MAX as nat).unwrap(),
{
    let n: usize = text.len();
    let start: usize = if n > 0 && text[0] == 43 {
        1
    } else {
        0
    };
    let ghost digits = unsigned_digits(text@);
    assert(digits =~= text@.skip(start as int));
    if start == n {
        return None;
    }
    let mut acc: u64 = 0;
    let mut i: usize = start;
    while i < n
        invariant
            start <= i <= n,
            n == text@.len(),
            digits == text@.skip(start as int),
            digits == unsigned_digits(text@),
            digits.len() > 0,
            all_digits(digits.take(i - start)),
            acc == digits_value(digits.take(i - start)),
        decreases n - i,
    {
        let byte: u8 = text[i];
        let ghost k = i - start;
        assert(digits[k] == byte);
        if byte < 48 || byte > 57 {
            assert(!is_digit(digits[k]));
            return None;
        }
        proof {
            let next = digits.take(k + 1);
            assert(next.drop_last() =~= digits.take(k));
            assert(next.last() == byte);
            assert forall|j: int| 0 <= j < next.len() implies is_digit(#[trigger] next[j]) by {
                if j < k {
                    assert(next[j] == digits.take(k)[j]);
                }
            }
        }
        let grown: Option<u64> = match acc.checked_mul(10) {
            Some(tens) => tens.checked_add((byte - 48) as u64),
            None => None,
        };
        match grown {
            Some(v) => {
                acc = v;
            },
            None => {
                proof {
                    assert(digits_value(digits.take(k + 1)) > u64::MAX);
                    if all_digits(digits) {
                        lemma_digits_value_prefix(digits, k + 1);
                    }
                }
                return None;
            },
        }
        i = i + 1;
    }
    assert(digits.take(n - start) =~= digits);
    Some(acc)
}

/// Reads an unsigned decimal numeral below 2^32; `None` where the text is not
/// one.
pub fn parse_u32(text: &[u8]) -> (value: Option<u32>)
    ensures
        value.is_some() <==> parse_unsigned(text@, u32::MAX as nat).is_some(),
        value.is_some() ==> value.unwrap() == parse_unsigned(text@, u32::MAX as nat).unwrap(),
{
    match parse_u64(text) {
        Some(v) => if v <= 0xffff_ffff {
            Some(v as u32)
        } else {
            None
        },
        None => None,
    }
}

} // verus!
