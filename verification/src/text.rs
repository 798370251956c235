//! Texts as they are shown to a reader.

use vstd::prelude::*;
use vstd::utf8::{decode_utf8, valid_utf8};

verus! {

/// `text` in quotes, with whatever would not show plainly written as an
/// escape: the form that `std`'s `Debug` gives a string.
pub uninterp spec fn quoted(text: Seq<char>) -> Seq<char>;

/// Writes `text` in quotes, by `std`'s `Debug` for `str`.
///
/// The contract claims that what is written rests on `text` alone. It does not
/// say which characters are escaped.
#[verifier::external_body]
pub(crate) fn quote(text: &str) -> (shown: String)
    ensures
        shown@ == quoted(text@),
{
    format!("{:#?}", text)
}

/// The number that decimal digits spell.
pub open spec fn number_of(digits: Seq<char>) -> int
    decreases digits.len(),
{
    if digits.len() == 0 {
        0
    } else {
        10 * number_of(digits.drop_last()) + (digits.last() as int - '0' as int)
    }
}

/// Decimal digits spell the number that they were made of. They are digits all of
/// them, and none leads with a 0 but the 0 itself.
pub proof fn law_decimal_spells_the_number(n: nat)
    ensures
        number_of(decimal(n)) == n,
        decimal(n).len() > 0,
        forall|i: int| 0 <= i < decimal(n).len() ==> '0' <= #[trigger] decimal(n)[i] <= '9',
        n > 0 ==> decimal(n)[0] != '0',
    decreases n,
{
    reveal_with_fuel(number_of, 2);
    if n >= 10 {
        law_decimal_spells_the_number(n / 10);
        assert(decimal(n).drop_last() =~= decimal(n / 10));
    }
}

/// A list of bytes begins with an opening and ends with a closing bracket. One
/// byte more comes before the closing bracket, with a comma and a space between
/// it and the ones before.
pub proof fn law_byte_list_grows_at_the_end(bytes: Seq<u8>, byte: u8)
    ensures
        byte_list(Seq::empty()) == seq!['[', ']'],
        byte_list(seq![byte]) == seq!['['] + decimal(byte as nat) + seq![']'],
        bytes.len() > 0 ==> byte_list(bytes.push(byte)) == byte_list(bytes).drop_last() + seq![
            ',',
            ' ',
        ] + decimal(byte as nat) + seq![']'],
{
    reveal_strlit("[");
    reveal_strlit("]");
    reveal_strlit(", ");
    assert(bytes.push(byte).drop_last() =~= bytes);
    assert("["@ =~= seq!['[']);
    assert("]"@ =~= seq![']']);
    assert(", "@ =~= seq![',', ' ']);
    assert(byte_list(Seq::empty()) =~= seq!['[', ']']);
    if bytes.len() > 0 {
        assert(byte_list(bytes).drop_last() =~= "["@ + comma_separated(bytes));
    }
}

/// Reads `bytes` as UTF-8, by `std::str::from_utf8`.
///
/// The contract claims that this succeeds exactly where `bytes` is valid UTF-8,
/// and that the text is then the one that `bytes` encodes.
#[verifier::external_body]
pub(crate) fn utf8_text(bytes: &[u8]) -> (text: Option<&str>)
    ensures
        match text {
            Some(text) => valid_utf8(bytes@) && text@ == decode_utf8(bytes@),
            None => !valid_utf8(bytes@),
        },
{
    std::str::from_utf8(bytes).ok()
}

/// The digit `d`.
pub open spec fn digit(d: nat) -> char {
    ('0' as int + d) as char
}

/// `n` in decimal digits.
pub open spec fn decimal(n: nat) -> Seq<char>
    decreases n,
{
    if n < 10 {
        seq![digit(n)]
    } else {
        decimal(n / 10).push(digit(n % 10))
    }
}

/// Writes the digit `d`.
fn show_digit(d: u64) -> (shown: &'static str)
    requires
        d < 10,
    ensures
        shown@ == seq![digit(d as nat)],
{
    proof {
        reveal_strlit("0");
        reveal_strlit("1");
        reveal_strlit("2");
        reveal_strlit("3");
        reveal_strlit("4");
        reveal_strlit("5");
        reveal_strlit("6");
        reveal_strlit("7");
        reveal_strlit("8");
        reveal_strlit("9");
    }
    match d {
        0 => "0",
        1 => "1",
        2 => "2",
        3 => "3",
        4 => "4",
        5 => "5",
        6 => "6",
        7 => "7",
        8 => "8",
        _ => "9",
    }
}

/// Writes `n` in decimal digits.
pub(crate) fn show_decimal(n: u64) -> (shown: String)
    ensures
        shown@ == decimal(n as nat),
    decreases n,
{
    if n < 10 {
        show_digit(n).to_string()
    } else {
        let mut shown = show_decimal(n / 10);
        shown.append(show_digit(n % 10));
        shown
    }
}

/// Numbers in decimal digits, with a comma and a space between each two.
pub open spec fn comma_separated(bytes: Seq<u8>) -> Seq<char>
    decreases bytes.len(),
{
    if bytes.len() == 0 {
        Seq::empty()
    } else if bytes.len() == 1 {
        decimal(bytes[0] as nat)
    } else {
        comma_separated(bytes.drop_last()) + ", "@ + decimal(bytes.last() as nat)
    }
}

/// Bytes as a list in square brackets.
pub open spec fn byte_list(bytes: Seq<u8>) -> Seq<char> {
    "["@ + comma_separated(bytes) + "]"@
}

/// Writes bytes as a list in square brackets.
pub(crate) fn show_bytes(bytes: &Vec<u8>) -> (shown: String)
    ensures
        shown@ == byte_list(bytes@),
{
    let mut shown = "[".to_string();
    let mut at: usize = 0;
    while at < bytes.len()
        invariant
            at <= bytes.len(),
            shown@ == "["@ + comma_separated(bytes@.take(at as int)),
        decreases bytes.len() - at,
    {
        let ghost before = bytes@.take(at as int);
        if at > 0 {
            shown.append(", ");
        }
        shown.append(show_decimal(bytes[at] as u64).as_str());
        at = at + 1;
        proof {
            assert(bytes@.take(at as int).drop_last() == before);
        }
    }
    shown.append("]");
    proof {
        assert(bytes@.take(at as int) == bytes@);
    }
    shown
}

} // verus!
