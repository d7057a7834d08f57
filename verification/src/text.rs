//! Plain text: comparison, decimal numbers, sequences of strings.
use vstd::prelude::*;

verus! {

/// The characters of each of `strings`, in their order.
pub open spec fn texts(strings: Seq<String>) -> Seq<Seq<char>> {
    Seq::new(strings.len(), |i: int| strings[i]@)
}

/// Whether two texts hold the same characters.
pub fn same_text(a: &str, b: &str) -> (same: bool)
    ensures
        same == (a@ == b@),
{
    a.to_owned() == b.to_owned()
}

/// Whether `wanted` is one of `strings`.
pub fn contains_text(strings: &Vec<String>, wanted: &str) -> (found: bool)
    ensures
        found == texts(strings@).contains(wanted@),
{
    for i in 0..strings.len()
        invariant
            forall|j: int| 0 <= j < i ==> (#[trigger] strings@[j])@ != wanted@,
    {
        if same_text(strings[i].as_str(), wanted) {
            assert(texts(strings@)[i as int] == wanted@);
            return true;
        }
    }
    false
}

/// The digit for a number below ten.
pub open spec fn digit(n: nat) -> char {
    ('0' as nat + n) as char
}

/// A number in decimal notation, without leading zeros.
pub open spec fn decimal(n: nat) -> Seq<char>
    decreases n,
{
    if n < 10 {
        seq![digit(n)]
    } else {
        decimal(n / 10).push(digit(n % 10))
    }
}

/// A single decimal digit.
fn digit_text(n: u64) -> (text: String)
    requires
        n < 10,
    ensures
        text@ == seq![digit(n as nat)],
{
    proof {
        reveal_strlit("0");
        reveal_strlit("1");
        reveal_strlit("2");
        reveal_strlit("3");
        reveal_strlit("4");
        reveal_strlit("5");
        reveal_strlit("6");
        reveal_strlit("7");
        reveal_strlit("8");
        reveal_strlit("9");
    }
    let text = match n {
        0 => "0",
        1 => "1",
        2 => "2",
        3 => "3",
        4 => "4",
        5 => "5",
        6 => "6",
        7 => "7",
        8 => "8",
        _ => "9",
    };
    assert(text@ =~= seq![digit(n as nat)]);
    text.to_owned()
}

/// Writes a number in decimal notation.
pub fn decimal_text(n: u64) -> (text: String)
    ensures
        text@ == decimal(n as nat),
    decreases n,
{
    if n < 10 {
        digit_text(n)
    } else {
        let mut text = decimal_text(n / 10);
        let last = digit_text(n % 10);
        text.append(last.as_str());
        assert(text@ =~= decimal((n / 10) as nat).push(digit((n % 10) as nat)));
        text
    }
}

/// Different numbers have different decimal notations.
pub proof fn law_decimal_is_unambiguous(a: nat, b: nat)
    requires
        decimal(a) == decimal(b),
    ensures
        a == b,
    decreases a,
{
    lemma_decimal_len(a);
    lemma_decimal_len(b);
    if a < 10 {
        assert(decimal(a)[0] == digit(a));
        assert(b < 10);
        assert(decimal(b)[0] == digit(b));
    } else {
        assert(decimal(a).last() == digit(a % 10));
        assert(b >= 10);
        assert(decimal(b).last() == digit(b % 10));
        assert(decimal(a).drop_last() =~= decimal(a / 10));
        assert(decimal(b).drop_last() =~= decimal(b / 10));
        law_decimal_is_unambiguous(a / 10, b / 10);
    }
}

/// A decimal notation has one digit exactly where the number is below ten.
proof fn lemma_decimal_len(n: nat)
    ensures
        decimal(n).len() >= 1,
        n >= 10 ==> decimal(n).len() >= 2,
    decreases n,
{
    if n >= 10 {
        lemma_decimal_len(n / 10);
    }
}

/// The view of a list of strings has one text for each string, in the same place.
pub proof fn law_strings_are_viewed_whole(strings: Seq<String>)
    ensures
        texts(strings).len() == strings.len(),
        forall|i: int| 0 <= i < strings.len() ==> #[trigger] texts(strings)[i] == strings[i]@,
{
}

/// The notation of a number is that of its tenth with the last digit behind it; a number below ten
/// is its own digit.
pub proof fn law_decimal_appends_digits(n: nat, last: nat)
    requires
        last < 10,
    ensures
        decimal(last) == seq![('0' as nat + last) as char],
        n > 0 ==> decimal(10 * n + last) == decimal(n).push(('0' as nat + last) as char),
{
    assert((10 * n + last) / 10 == n);
    assert((10 * n + last) % 10 == last);
}

} // verus!
