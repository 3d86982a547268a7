use vstd::prelude::*;

verus! {

/// Number of digits an unlock code has, whether typed on the keypad or
/// read from a QR code.
pub const KEYPAD_CODE_LEN: usize = 7;

/// `c` is one of the ASCII digits '0'–'9'.
pub open spec fn spec_is_ascii_digit(c: char) -> bool {
    '0' <= c && c <= '9'
}

/// Every character of `s` is an ASCII digit.
pub open spec fn spec_all_ascii_digits(s: Seq<char>) -> bool {
    forall|i: int| 0 <= i < s.len() ==> #[trigger] spec_is_ascii_digit(s[i])
}

/// `s` is an unlock code: exactly seven ASCII digits.
pub open spec fn spec_is_valid_code(s: Seq<char>) -> bool {
    s.len() == KEYPAD_CODE_LEN && spec_all_ascii_digits(s)
}

/// Whether every character of `text` is an ASCII digit. (For such text
/// the bytes and the characters coincide, so this is also the byte-wise
/// check.)
pub fn all_ascii_digits(text: &str) -> (ok: bool)
    ensures
        ok == spec_all_ascii_digits(text@),
        ok <==> forall|i: int| 0 <= i < text@.len() ==> '0' <= #[trigger] text@[i] && text@[i] <= '9',
{
    proof {
        lemma_all_digits_is_char_range(text@);
    }
    let n = text.unicode_len();
    let mut i: usize = 0;
    while i < n
        invariant
            n == text@.len(),
            i <= n,
            forall|j: int| 0 <= j < i ==> #[trigger] spec_is_ascii_digit(text@[j]),
        decreases n - i,
    {
        let c = text.get_char(i);
        if !(c >= '0' && c <= '9') {
            assert(!spec_is_ascii_digit(text@[i as int]));
            return false;
        }
        i = i + 1;
    }
    true
}

/// Whether a decoded QR text is an unlock code: seven ASCII digits.
pub fn is_valid_code(text: &str) -> (ok: bool)
    ensures
        ok == spec_is_valid_code(text@),
        ok <==> (text@.len() == 7 && forall|i: int|
            0 <= i < text@.len() ==> '0' <= #[trigger] text@[i] && text@[i] <= '9'),
{
    proof {
        lemma_valid_code_is_seven_digits(text@);
    }
    let n = text.unicode_len();
    if n != KEYPAD_CODE_LEN {
        return false;
    }
    all_ascii_digits(text)
}

} // verus!

verus! {

/// A character sequence is all digits exactly when each of its characters
/// lies in '0'..='9'.
pub proof fn lemma_all_digits_is_char_range(s: Seq<char>)
    ensures
        spec_all_ascii_digits(s) <==> forall|i: int|
            0 <= i < s.len() ==> '0' <= #[trigger] s[i] && s[i] <= '9',
{
    if !spec_all_ascii_digits(s) {
        let w = choose|i: int| 0 <= i < s.len() && !spec_is_ascii_digit(s[i]);
        assert(!('0' <= s[w] && s[w] <= '9'));
    } else {
        assert forall|i: int| 0 <= i < s.len() implies '0' <= #[trigger] s[i] && s[i] <= '9' by {
            assert(spec_is_ascii_digit(s[i]));
        }
    }
}

/// The unlock codes are exactly the sequences of seven characters, each
/// one of '0'..='9': every such sequence is a code and nothing else is.
pub proof fn lemma_valid_code_is_seven_digits(s: Seq<char>)
    ensures
        spec_is_valid_code(s) <==> (s.len() == 7 && forall|i: int|
            0 <= i < s.len() ==> '0' <= #[trigger] s[i] && s[i] <= '9'),
{
    lemma_all_digits_is_char_range(s);
}

} // verus!
