use vstd::prelude::*;
use crate::utils::decimal::is_digit;

verus! {

/// The first position at or after `from` that holds no decimal digit.
pub open spec fn digit_run_end(text: Seq<u8>, from: int) -> int
    decreases text.len() - from,
{
    if 0 <= from < text.len() && is_digit(text[from]) {
        digit_run_end(text, from + 1)
    } else {
        from
    }
}

/// An ASCII capital letter as its small letter; any other byte unchanged.
pub open spec fn lower(byte: u8) -> u8 {
    if 65 <= byte <= 90 {
        (byte + 32) as u8
    } else {
        byte
    }
}

/// Whether the text from `from` to its end is `word`, capitals and small
/// letters taken as the same.
pub open spec fn word_at(text: Seq<u8>, from: int, word: Seq<u8>) -> bool {
    &&& text.len() - from == word.len()
    &&& forall|i: int| 0 <= i < word.len() ==> lower(#[trigger] text[from + i]) == word[i]
}

/// The word `inf`.
pub open spec fn word_inf() -> Seq<u8> {
    seq![105u8, 110u8, 102u8]
}

/// The word `nan`.
pub open spec fn word_nan() -> Seq<u8> {
    seq![110u8, 97u8, 110u8]
}

/// The word `infinity`.
pub open spec fn word_infinity() -> Seq<u8> {
    seq![105u8, 110u8, 102u8, 105u8, 110u8, 105u8, 116u8, 121u8]
}

/// Whether a byte is `+` or `-`.
pub open spec fn is_sign(byte: u8) -> bool {
    byte == 43 || byte == 45
}

/// The position after an optional sign at `from`.
pub open spec fn after_sign(text: Seq<u8>, from: int) -> int {
    if 0 <= from < text.len() && is_sign(text[from]) {
        from + 1
    } else {
        from
    }
}

/// Whether the text from `from` to its end is an exponent: `e` or `E`, an
/// optional sign, then one or more digits.
pub open spec fn exponent_at(text: Seq<u8>, from: int) -> bool {
    &&& 0 <= from < text.len()
    &&& (text[from] == 101 || text[from] == 69)
    &&& after_sign(text, from + 1) < text.len()
    &&& digit_run_end(text, after_sign(text, from + 1)) == text.len()
}

/// Whether the text from `from` to its end is a number: digits with at most
/// one point among them, at least one digit in all, then an optional exponent.
pub open spec fn number_at(text: Seq<u8>, from: int) -> bool {
    let whole_end = digit_run_end(text, from);
    let pointed = whole_end < text.len() && text[whole_end] == 46;
    let mantissa_end = if pointed {
        digit_run_end(text, whole_end + 1)
    } else {
        whole_end
    };
    let digits = if pointed {
        mantissa_end - from - 1
    } else {
        mantissa_end - from
    };
    digits >= 1 && (mantissa_end == text.len() || exponent_at(text, mantissa_end))
}

/// Whether a text is the numeral of a real number as the standard parser of
/// doubles accepts one: an optional sign, then a number, or one of the words
/// `inf`, `infinity` and `nan` in any mix of capitals and small letters.
pub open spec fn real_text(text: Seq<u8>) -> bool {
    let start = after_sign(text, 0);
    ||| number_at(text, start)
    ||| word_at(text, start, word_inf())
    ||| word_at(text, start, word_nan())
    ||| word_at(text, start, word_infinity())
}

/// Every position of a digit run holds a digit, and the run ends inside the
/// text.
pub proof fn lemma_digit_run(text: Seq<u8>, from: int)
    requires
        0 <= from <= text.len(),
    ensures
        from <= digit_run_end(text, from) <= text.len(),
        forall|i: int| from <= i < digit_run_end(text, from) ==> is_digit(#[trigger] text[i]),
        digit_run_end(text, from) < text.len() ==> !is_digit(text[digit_run_end(text, from)]),
    decreases text.len() - from,
{
    if from < text.len() && is_digit(text[from]) {
        lemma_digit_run(text, from + 1);
    }
}

/// Every byte of the numeral of a real number is a digit, a sign, the point
/// or a letter.
pub proof fn lemma_real_text_bytes(text: Seq<u8>, i: int)
    requires
        real_text(text),
        0 <= i < text.len(),
    ensures
        is_digit(text[i]) || is_sign(text[i]) || text[i] == 46 || 97 <= lower(text[i]) <= 122,
{
    let start = after_sign(text, 0);
    if i < start {
    } else if word_at(text, start, word_inf()) {
        assert(lower(text[start + (i - start)]) == word_inf()[i - start]);
    } else if word_at(text, start, word_nan()) {
        assert(lower(text[start + (i - start)]) == word_nan()[i - start]);
    } else if word_at(text, start, word_infinity()) {
        assert(lower(text[start + (i - start)]) == word_infinity()[i - start]);
    } else {
        let whole_end = digit_run_end(text, start);
        lemma_digit_run(text, start);
        let pointed = whole_end < text.len() && text[whole_end] == 46;
        if pointed {
            lemma_digit_run(text, whole_end + 1);
        }
        let mantissa_end = if pointed {
            digit_run_end(text, whole_end + 1)
        } else {
            whole_end
        };
        if i < mantissa_end {
        } else {
            let digits_from = after_sign(text, mantissa_end + 1);
            lemma_digit_run(text, digits_from);
        }
    }
}

/// The first position at or after `from` that holds no decimal digit.
pub fn scan_digits(text: &[u8], from: usize) -> (end: usize)
    requires
        from <= text@.len(),
    ensures
        end == digit_run_end(text@, from as int),
        from <= end <= text@.len(),
{
    let n: usize = text.len();
    let mut i: usize = from;
    while i < n && text[i] >= 48 && text[i] <= 57
        invariant
            from <= i <= n,
            n == text@.len(),
            digit_run_end(text@, from as int) == digit_run_end(text@, i as int),
        decreases n - i,
    {
        i = i + 1;
    }
    i
}

/// Whether the text from `from` to its end is `word`, capitals and small
/// letters taken as the same.
pub fn is_word_at(text: &[u8], from: usize, word: &[u8]) -> (found: bool)
    requires
        from <= text@.len(),
    ensures
        found == word_at(text@, from as int, word@),
{
    let n: usize = word.len();
    let total: usize = text.len();
    if total - from != n {
        return false;
    }
    let mut i: usize = 0;
    while i < n
        invariant
            i <= n,
            n == word@.len(),
            text@.len() - from == n,
            from <= total,
            total == text@.len(),
            forall|j: int| 0 <= j < i ==> lower(#[trigger] text@[from + j]) == word@[j],
        decreases n - i,
    {
        let byte: u8 = text[from + i];
        let small: u8 = if byte >= 65 && byte <= 90 {
            byte + 32
        } else {
            byte
        };
        if small != word[i] {
            assert(lower(text@[from + i]) != word@[i as int]);
            return false;
        }
        i = i + 1;
    }
    true
}

/// Whether a text is the numeral of a real number.
pub fn is_real_text(text: &[u8]) -> (valid: bool)
    ensures
        valid == real_text(text@),
{
    let n: usize = text.len();
    let start: usize = if n > 0 && (text[0] == 43 || text[0] == 45) {
        1
    } else {
        0
    };
    let inf: [u8; 3] = [105, 110, 102];
    let nan: [u8; 3] = [110, 97, 110];
    let infinity: [u8; 8] = [105, 110, 102, 105, 110, 105, 116, 121];
    assert(inf@ =~= word_inf());
    assert(nan@ =~= word_nan());
    assert(infinity@ =~= word_infinity());
    if is_word_at(text, start, inf.as_slice()) || is_word_at(text, start, nan.as_slice())
        || is_word_at(text, start, infinity.as_slice()) {
        return true;
    }
    let whole_end: usize = scan_digits(text, start);
    let pointed: bool = whole_end < n && text[whole_end] == 46;
    let mantissa_end: usize = if pointed {
        scan_digits(text, whole_end + 1)
    } else {
        whole_end
    };
    let digits: usize = if pointed {
        mantissa_end - start - 1
    } else {
        mantissa_end - start
    };
    if digits < 1 {
        return false;
    }
    if mantissa_end == n {
        return true;
    }
    if text[mantissa_end] != 101 && text[mantissa_end] != 69 {
        return false;
    }
    let sign_at: usize = mantissa_end + 1;
    let digits_from: usize = if sign_at < n && (text[sign_at] == 43 || text[sign_at] == 45) {
        sign_at + 1
    } else {
        sign_at
    };
    if digits_from >= n {
        return false;
    }
    scan_digits(text, digits_from) == n
}

} // verus!
