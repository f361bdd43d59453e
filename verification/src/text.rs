//! Numbers as decimal text.
use vstd::prelude::*;

verus! {

/// The character of the decimal digit `digit`.
pub open spec fn digit_char(digit: nat) -> char {
    if digit == 0 {
        '0'
    } else if digit == 1 {
        '1'
    } else if digit == 2 {
        '2'
    } else if digit == 3 {
        '3'
    } else if digit == 4 {
        '4'
    } else if digit == 5 {
        '5'
    } else if digit == 6 {
        '6'
    } else if digit == 7 {
        '7'
    } else if digit == 8 {
        '8'
    } else {
        '9'
    }
}

/// `number` in decimal digits, most significant first, without leading zeros.
pub open spec fn decimal_text(number: nat) -> Seq<char>
    decreases number,
{
    if number < 10 {
        seq![digit_char(number)]
    } else {
        decimal_text(number / 10).push(digit_char(number % 10))
    }
}

/// `Uint128`'s `to_string` from `cosmwasm_std`: the amount in decimal digits,
/// as the `Display` of the `u128` inside it gives them.
#[verifier::external_body]
pub(crate) fn amount_text(amount: u128) -> (text: String)
    ensures
        text@ == decimal_text(amount as nat),
{
    cosmwasm_std::Uint128::new(amount).to_string()
}

/// `u64`'s `to_string` from std: the identifier in decimal digits.
#[verifier::external_body]
pub(crate) fn id_text(id: u64) -> (text: String)
    ensures
        text@ == decimal_text(id as nat),
{
    id.to_string()
}

} // verus!
