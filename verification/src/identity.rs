//! The shape of a claimed identity: a SteamID64 behind the provider's
//! identity URL.

use crate::text::chars_of;
use vstd::prelude::*;
use vstd::string::StringExecFns;

verus! {

/// How many decimal digits a SteamID64 has in an identity URL.
pub const ID_DIGITS: usize = 17;

/// An ASCII decimal digit.
pub open spec fn is_digit(c: char) -> bool {
    '0' <= c && c <= '9'
}

/// Ten to the power `n`.
pub open spec fn pow10(n: nat) -> nat
    decreases n,
{
    if n == 0 {
        1
    } else {
        10 * pow10((n - 1) as nat)
    }
}

/// The number that a sequence of decimal digits writes, the first digit
/// being the most significant.
pub open spec fn digits_value(digits: Seq<char>) -> nat
    decreases digits.len(),
{
    if digits.len() == 0 {
        0
    } else {
        10 * digits_value(digits.drop_last()) + (digits.last() as nat - '0' as nat) as nat
    }
}

/// `claimed` is `prefix` followed by exactly `ID_DIGITS` decimal digits and
/// nothing else.
pub open spec fn is_identity_under(claimed: Seq<char>, prefix: Seq<char>) -> bool {
    &&& claimed.len() == prefix.len() + ID_DIGITS
    &&& claimed.take(prefix.len() as int) == prefix
    &&& forall|k: int| prefix.len() <= k < claimed.len() ==> is_digit(#[trigger] claimed[k])
}

/// The digits of an identity URL: what follows
/// `http://steamcommunity.com/openid/id/` or
/// `https://steamcommunity.com/openid/id/`, where the whole text is one of
/// the two followed by `ID_DIGITS` decimal digits; `None` for any other text.
pub open spec fn claimed_digits(claimed: Seq<char>) -> Option<Seq<char>> {
    if is_identity_under(claimed, "http://steamcommunity.com/openid/id/"@) {
        Some(claimed.skip("http://steamcommunity.com/openid/id/"@.len() as int))
    } else if is_identity_under(claimed, "https://steamcommunity.com/openid/id/"@) {
        Some(claimed.skip("https://steamcommunity.com/openid/id/"@.len() as int))
    } else {
        None
    }
}

/// The SteamID64 that an identity URL claims.
pub open spec fn claimed_id(claimed: Seq<char>) -> Option<nat> {
    match claimed_digits(claimed) {
        Some(digits) => Some(digits_value(digits)),
        None => None,
    }
}

/// A number written with `n` digits is below ten to the `n`.
pub proof fn lemma_digits_value_bound(digits: Seq<char>)
    requires
        forall|k: int| 0 <= k < digits.len() ==> is_digit(#[trigger] digits[k]),
    ensures
        digits_value(digits) < pow10(digits.len()),
    decreases digits.len(),
{
    if digits.len() > 0 {
        lemma_digits_value_bound(digits.drop_last());
    }
}

/// Whether `claimed` is `prefix` followed by `ID_DIGITS` more characters.
fn starts_with_room(claimed: &Vec<char>, prefix: &Vec<char>) -> (yes: bool)
    requires
        prefix.len() + ID_DIGITS <= usize::MAX,
    ensures
        yes == (claimed@.len() == prefix@.len() + ID_DIGITS && claimed@.take(prefix@.len() as int)
            == prefix@),
{
    if claimed.len() != prefix.len() + ID_DIGITS {
        return false;
    }
    let mut i: usize = 0;
    while i < prefix.len()
        invariant
            claimed.len() == prefix.len() + ID_DIGITS,
            i <= prefix.len(),
            forall|k: int| 0 <= k < i ==> claimed@[k] == prefix@[k],
        decreases prefix.len() - i,
    {
        if claimed[i] != prefix[i] {
            return false;
        }
        i = i + 1;
    }
    assert(claimed@.take(prefix@.len() as int) =~= prefix@);
    true
}

/// Reads the digits `claimed[from..]` as a number; `None` if one of them is
/// no decimal digit.
fn read_digits(claimed: &Vec<char>, from: usize) -> (id: Option<u64>)
    requires
        from + ID_DIGITS == claimed.len(),
    ensures
        id is Some <==> forall|k: int| from <= k < claimed.len() ==> is_digit(#[trigger] claimed@[k]),
        id matches Some(n) ==> n == digits_value(claimed@.skip(from as int)),
{
    let mut value: u64 = 0;
    let mut i: usize = from;
    while i < claimed.len()
        invariant
            from <= i <= claimed.len(),
            from + ID_DIGITS == claimed.len(),
            forall|k: int| from <= k < i ==> is_digit(#[trigger] claimed@[k]),
            value == digits_value(claimed@.subrange(from as int, i as int)),
            value < pow10((i - from) as nat),
        decreases claimed.len() - i,
    {
        let c = claimed[i];
        if c < '0' || c > '9' {
            return None;
        }
        let ghost before = claimed@.subrange(from as int, i as int);
        let ghost after = claimed@.subrange(from as int, i + 1);
        assert(after.drop_last() =~= before);
        assert(pow10((i - from) as nat) <= pow10(16)) by {
            lemma_pow10_monotonic((i - from) as nat, 16);
        }
        assert(pow10(16) == 10_000_000_000_000_000) by {
            reveal_with_fuel(pow10, 17);
        }
        value = value * 10 + (c as u64 - '0' as u64);
        i = i + 1;
    }
    Some(value)
}

/// Ten to the `n` grows with `n`.
pub proof fn lemma_pow10_monotonic(low: nat, high: nat)
    requires
        low <= high,
    ensures
        pow10(low) <= pow10(high),
    decreases high,
{
    if low < high {
        lemma_pow10_monotonic(low, (high - 1) as nat);
    }
}

/// The SteamID64 that `claimed` names: `Some` exactly for the identity URLs,
/// `http://steamcommunity.com/openid/id/` or its `https` form followed by
/// `ID_DIGITS` decimal digits and nothing more, with the number that the
/// digits write.
pub fn claimed_identity(claimed: &str) -> (id: Option<u64>)
    ensures
        id is Some <==> claimed_id(claimed@) is Some,
        id matches Some(n) ==> claimed_id(claimed@) == Some(n as nat),
{
    let text = chars_of(claimed);
    let plain = chars_of("http://steamcommunity.com/openid/id/");
    let secure = chars_of("https://steamcommunity.com/openid/id/");
    proof {
        reveal_strlit("http://steamcommunity.com/openid/id/");
        reveal_strlit("https://steamcommunity.com/openid/id/");
    }
    if starts_with_room(&text, &plain) {
        read_digits(&text, plain.len())
    } else if starts_with_room(&text, &secure) {
        read_digits(&text, secure.len())
    } else {
        None
    }
}

/// The character that writes a digit below ten.
pub open spec fn digit_char(digit: nat) -> char {
    if digit == 0 {
        '0'
    } else if digit == 1 {
        '1'
    } else if digit == 2 {
        '2'
    } else if digit == 3 {
        '3'
    } else if digit == 4 {
        '4'
    } else if digit == 5 {
        '5'
    } else if digit == 6 {
        '6'
    } else if digit == 7 {
        '7'
    } else if digit == 8 {
        '8'
    } else {
        '9'
    }
}

/// A number in decimal, without leading zeros; zero is `0`.
pub open spec fn decimal(n: nat) -> Seq<char>
    decreases n,
{
    if n < 10 {
        seq![digit_char(n)]
    } else {
        decimal(n / 10).push(digit_char(n % 10))
    }
}

/// The text of one digit.
fn digit_text(digit: u64) -> (text: &'static str)
    requires
        digit < 10,
    ensures
        text@ == seq![digit_char(digit as nat)],
{
    proof {
        reveal_strlit("0");
        reveal_strlit("1");
        reveal_strlit("2");
        reveal_strlit("3");
        reveal_strlit("4");
        reveal_strlit("5");
        reveal_strlit("6");
        reveal_strlit("7");
        reveal_strlit("8");
        reveal_strlit("9");
    }
    let text = if digit == 0 {
        "0"
    } else if digit == 1 {
        "1"
    } else if digit == 2 {
        "2"
    } else if digit == 3 {
        "3"
    } else if digit == 4 {
        "4"
    } else if digit == 5 {
        "5"
    } else if digit == 6 {
        "6"
    } else if digit == 7 {
        "7"
    } else if digit == 8 {
        "8"
    } else {
        "9"
    };
    text
}

/// Writes a number in decimal.
pub fn to_decimal(n: u64) -> (text: String)
    ensures
        text@ == decimal(n as nat),
    decreases n,
{
    if n < 10 {
        digit_text(n).to_owned()
    } else {
        let mut text = to_decimal(n / 10);
        text.append(digit_text(n % 10));
        text
    }
}

/// The decimal form of a number is made of digits, and reads back as the
/// number.
pub proof fn lemma_decimal_reads_back(n: nat)
    ensures
        forall|k: int| 0 <= k < decimal(n).len() ==> is_digit(#[trigger] decimal(n)[k]),
        digits_value(decimal(n)) == n,
    decreases n,
{
    if n < 10 {
        assert(digits_value(decimal(n).drop_last()) == 0);
    } else {
        lemma_decimal_reads_back(n / 10);
        assert(decimal(n).drop_last() =~= decimal(n / 10));
    }
}

/// An identity URL claims a number below ten to the `ID_DIGITS`, so every
/// claim fits 64 bits.
pub proof fn lemma_claimed_id_bound(claimed: Seq<char>)
    ensures
        claimed_id(claimed) matches Some(id) ==> id < pow10(ID_DIGITS as nat) && id <= u64::MAX,
{
    if claimed_digits(claimed) is Some {
        lemma_digits_value_bound(claimed_digits(claimed)->0);
        assert(pow10(17) == 100_000_000_000_000_000) by {
            reveal_with_fuel(pow10, 18);
        }
    }
}

} // verus!
