//! What is left to chance: the codes of games and the ids of activities.
use crate::text::{decimal, decimal_text, digit};
use rand::Rng;
use rand::distr::Alphanumeric;
use vstd::prelude::*;

verus! {

/// Whether a character is one of the letters A to Z and a to z or a decimal digit.
pub open spec fn is_alphanumeric(c: char) -> bool {
    ||| 'A' <= c <= 'Z'
    ||| 'a' <= c <= 'z'
    ||| '0' <= c <= '9'
}

/// Whether a text is made of letters and digits alone.
pub open spec fn all_alphanumeric(text: Seq<char>) -> bool {
    forall|i: int| 0 <= i < text.len() ==> is_alphanumeric(#[trigger] text[i])
}

/// `Rng::sample` of `Alphanumeric` on `rand::rng()`, as a text: one letter or digit. Which one it
/// is rests on chance.
#[verifier::external_body]
fn random_alphanumeric() -> (text: String)
    ensures
        text@.len() == 1,
        is_alphanumeric(text@[0]),
{
    char::from(rand::rng().sample(Alphanumeric)).to_string()
}

/// `Rng::random_range` on `rand::rng()`: a number in the range, both ends included. Which one it is
/// rests on chance.
#[verifier::external_body]
fn random_number(low: u64, high: u64) -> (number: u64)
    requires
        low <= high,
    ensures
        low <= number <= high,
{
    rand::rng().random_range(low..=high)
}

/// A text of `n` letters and digits. Which ones they are rests on chance.
pub fn random(n: usize) -> (text: String)
    ensures
        text@.len() == n,
        all_alphanumeric(text@),
{
    let mut text = String::new();
    for i in 0..n
        invariant
            text@.len() == i,
            all_alphanumeric(text@),
    {
        let next = random_alphanumeric();
        text.append(next.as_str());
    }
    text
}

/// The least number that makes a game code.
pub const FIRST_CODE: u64 = 1000;

/// The greatest number that makes a game code.
pub const LAST_CODE: u64 = 9999;

/// Whether a text can be the code of a game.
pub open spec fn is_code(code: Seq<char>) -> bool {
    exists|n: u64| FIRST_CODE <= n <= LAST_CODE && code == #[trigger] decimal(n as nat)
}

/// A code for a game. Which one it is rests on chance.
pub fn new_code() -> (code: String)
    ensures
        is_code(code@),
{
    decimal_text(random_number(FIRST_CODE, LAST_CODE))
}

/// A code has four decimal digits, and the first is not zero.
pub proof fn law_code_has_four_digits(code: Seq<char>)
    requires
        is_code(code),
    ensures
        code.len() == 4,
        forall|i: int| 0 <= i < 4 ==> '0' <= #[trigger] code[i] <= '9',
        code[0] != '0',
{
    let n = choose|n: u64| FIRST_CODE <= n <= LAST_CODE && code == #[trigger] decimal(n as nat);
    let n = n as nat;
    assert(decimal(n / 1000) == seq![digit(n / 1000)]);
    assert(n / 100 / 10 == n / 1000);
    assert(decimal(n / 100) == decimal(n / 1000).push(digit(n / 100 % 10)));
    assert(n / 10 / 10 == n / 100);
    assert(decimal(n / 10) == decimal(n / 100).push(digit(n / 10 % 10)));
    assert(decimal(n) == decimal(n / 10).push(digit(n % 10)));
}

/// What counts as a letter or a digit: nothing but the 62 characters of ASCII that are one.
pub proof fn law_letters_and_digits(c: char)
    ensures
        is_alphanumeric(c) <==> (65 <= c as nat <= 90 || 97 <= c as nat <= 122 || 48 <= c as nat
            <= 57),
{
}

/// A text of letters and digits has one of them in every place.
pub proof fn law_every_place_is_alphanumeric(text: Seq<char>)
    ensures
        all_alphanumeric(text) <==> forall|i: int|
            0 <= i < text.len() ==> is_alphanumeric(#[trigger] text[i]),
{
}

/// The codes are the decimal notations of the numbers from 1000 to 9999, of all of them and of no
/// others.
pub proof fn law_codes_are_the_four_digit_numbers(n: u64, code: Seq<char>)
    ensures
        is_code(decimal(n as nat)) <==> 1000 <= n <= 9999,
        is_code(code) ==> exists|m: u64| 1000 <= m <= 9999 && code == #[trigger] decimal(m as nat),
{
    if is_code(decimal(n as nat)) {
        let m = choose|m: u64|
            FIRST_CODE <= m <= LAST_CODE && decimal(n as nat) == #[trigger] decimal(m as nat);
        crate::text::law_decimal_is_unambiguous(n as nat, m as nat);
    }
}

} // verus!
