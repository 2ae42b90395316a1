//! The sentences that the ledger hands out, and the numbers in them.

use vstd::prelude::*;
use vstd::string::StringExecFns;

verus! {

/// The character for one decimal digit.
pub open spec fn digit(d: nat) -> char {
    if d == 0 {
        '0'
    } else if d == 1 {
        '1'
    } else if d == 2 {
        '2'
    } else if d == 3 {
        '3'
    } else if d == 4 {
        '4'
    } else if d == 5 {
        '5'
    } else if d == 6 {
        '6'
    } else if d == 7 {
        '7'
    } else if d == 8 {
        '8'
    } else {
        '9'
    }
}

/// A number in decimal notation, without leading zeros.
pub open spec fn decimal(n: nat) -> Seq<char>
    decreases n,
{
    if n < 10 {
        seq![digit(n)]
    } else {
        decimal(n / 10) + seq![digit(n % 10)]
    }
}

/// Ten to the power of `e`.
pub open spec fn pow10(e: nat) -> nat
    decreases e,
{
    if e == 0 {
        1
    } else {
        10 * pow10((e - 1) as nat)
    }
}

/// How many whole tokens `amount` smallest units make when a token has
/// `decimals` decimal places.
pub open spec fn whole_tokens(amount: nat, decimals: nat) -> nat {
    amount / pow10(decimals)
}

/// What a receiver is told after a mint.
pub open spec fn confirmation(tokens: nat, receiver: Seq<char>) -> Seq<char> {
    decimal(tokens) + " tokens for "@ + receiver + " are minted"@
}

/// The note on the record of a mint.
pub open spec fn mint_memo(receiver: Seq<char>) -> Seq<char> {
    "Token for "@ + receiver + " is minted"@
}

/// The note on the record of a burn.
pub open spec fn burn_memo(owner: Seq<char>) -> Seq<char> {
    owner + "'s Token is burned"@
}

/// Powers of ten are positive and grow with the exponent.
pub proof fn lemma_pow10_grows(a: nat, b: nat)
    requires
        a <= b,
    ensures
        0 < pow10(a) <= pow10(b),
    decreases b,
{
    if b == 0 {
    } else if a == b {
        lemma_pow10_grows((a - 1) as nat, (b - 1) as nat);
    } else {
        lemma_pow10_grows(a, (b - 1) as nat);
    }
}

fn digit_text(d: u8) -> (s: &'static str)
    requires
        d < 10,
    ensures
        s@ == seq![digit(d as nat)],
{
    let s = match d {
        0 => "0",
        1 => "1",
        2 => "2",
        3 => "3",
        4 => "4",
        5 => "5",
        6 => "6",
        7 => "7",
        8 => "8",
        _ => "9",
    };
    proof {
        reveal_strlit("0");
        reveal_strlit("1");
        reveal_strlit("2");
        reveal_strlit("3");
        reveal_strlit("4");
        reveal_strlit("5");
        reveal_strlit("6");
        reveal_strlit("7");
        reveal_strlit("8");
        reveal_strlit("9");
        assert(s@ =~= seq![digit(d as nat)]);
    }
    s
}

/// Writes a number in decimal notation.
pub fn decimal_string(n: u128) -> (s: String)
    ensures
        s@ == decimal(n as nat),
    decreases n,
{
    if n < 10 {
        String::from_str(digit_text(n as u8))
    } else {
        let head = decimal_string(n / 10);
        head.concat(digit_text((n % 10) as u8))
    }
}

/// How many whole tokens `amount` smallest units make when a token has
/// `decimals` decimal places.
pub fn whole_units(amount: u128, decimals: u8) -> (tokens: u128)
    ensures
        tokens == whole_tokens(amount as nat, decimals as nat),
{
    let mut scale: u128 = 1;
    let mut i: u8 = 0;
    while i < decimals
        invariant
            i <= decimals,
            scale == pow10(i as nat),
        decreases decimals - i,
    {
        match scale.checked_mul(10) {
            Some(next) => {
                scale = next;
            },
            None => {
                proof {
                    lemma_pow10_grows((i + 1) as nat, decimals as nat);
                    let p = pow10(decimals as nat) as int;
                    let a = amount as int;
                    assert(a / p == 0) by (nonlinear_arith)
                        requires
                            0 <= a < p,
                    ;
                }
                return 0;
            },
        }
        i += 1;
    }
    proof {
        lemma_pow10_grows(0, decimals as nat);
    }
    amount / scale
}

/// Writes what a receiver is told after a mint.
pub fn confirmation_text(tokens: u128, receiver: &String) -> (s: String)
    ensures
        s@ == confirmation(tokens as nat, receiver@),
{
    let mut s = decimal_string(tokens);
    s.append(" tokens for ");
    s.append(receiver.as_str());
    s.append(" are minted");
    s
}

/// Writes the note on the record of a mint.
pub fn mint_memo_text(receiver: &String) -> (s: String)
    ensures
        s@ == mint_memo(receiver@),
{
    let mut s = String::from_str("Token for ");
    s.append(receiver.as_str());
    s.append(" is minted");
    s
}

/// Writes the note on the record of a burn.
pub fn burn_memo_text(owner: &String) -> (s: String)
    ensures
        s@ == burn_memo(owner@),
{
    let mut s = owner.clone();
    s.append("'s Token is burned");
    s
}

} // verus!
