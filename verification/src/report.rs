//! What a deposit that went through reports, and its log entry.

use vstd::prelude::*;
use vstd::string::StringExecFns;

verus! {

/// The report of a deposit that went through: what was taken into custody
/// and what was issued for it.
#[derive(Clone, Copy, Debug, PartialEq, Eq)]
pub struct StakeReport {
    pub staked: u64,
    pub minted: u64,
}

/// The character of a decimal digit.
pub open spec fn digit_char(d: nat) -> char {
    if d == 0 {
        '0'
    } else if d == 1 {
        '1'
    } else if d == 2 {
        '2'
    } else if d == 3 {
        '3'
    } else if d == 4 {
        '4'
    } else if d == 5 {
        '5'
    } else if d == 6 {
        '6'
    } else if d == 7 {
        '7'
    } else if d == 8 {
        '8'
    } else {
        '9'
    }
}

/// `n` written in decimal, without leading zeros.
pub open spec fn decimal(n: nat) -> Seq<char>
    decreases n,
{
    if n < 10 {
        seq![digit_char(n)]
    } else {
        decimal(n / 10).push(digit_char(n % 10))
    }
}

/// The text of the log entry for `amount` deposited and `minted` issued.
pub open spec fn log_text(amount: u64, minted: u64) -> Seq<char> {
    "Staked "@ + decimal(amount as nat) + " tokens, minted "@ + decimal(minted as nat)
        + " liability tokens"@
}

fn digit_str(d: u64) -> (r: &'static str)
    requires
        d < 10,
    ensures
        r@ == seq![digit_char(d as nat)],
{
    proof {
        reveal_strlit("0");
        reveal_strlit("1");
        reveal_strlit("2");
        reveal_strlit("3");
        reveal_strlit("4");
        reveal_strlit("5");
        reveal_strlit("6");
        reveal_strlit("7");
        reveal_strlit("8");
        reveal_strlit("9");
    }
    let r = if d == 0 {
        "0"
    } else if d == 1 {
        "1"
    } else if d == 2 {
        "2"
    } else if d == 3 {
        "3"
    } else if d == 4 {
        "4"
    } else if d == 5 {
        "5"
    } else if d == 6 {
        "6"
    } else if d == 7 {
        "7"
    } else if d == 8 {
        "8"
    } else {
        "9"
    };
    assert(r@ =~= seq![digit_char(d as nat)]);
    r
}

/// Writes `n` in decimal.
pub fn to_decimal(n: u64) -> (r: String)
    ensures
        r@ == decimal(n as nat),
{
    let mut text = String::from_str(digit_str(n % 10));
    let mut rest: u64 = n / 10;
    assert(decimal(n as nat) =~= if rest == 0 {
        text@
    } else {
        decimal(rest as nat) + text@
    });
    while rest != 0
        invariant
            decimal(n as nat) == if rest == 0 {
                text@
            } else {
                decimal(rest as nat) + text@
            },
        decreases rest,
    {
        let head = String::from_str(digit_str(rest % 10));
        let ghost upper = rest;
        text = head.concat(text.as_str());
        rest = rest / 10;
        assert(decimal(upper as nat) =~= if rest == 0 {
            head@
        } else {
            decimal(rest as nat) + head@
        });
        assert(decimal(n as nat) =~= if rest == 0 {
            text@
        } else {
            decimal(rest as nat) + text@
        });
    }
    text
}

impl StakeReport {
    /// The report of a deposit of `amount`.
    pub open spec fn of(amount: u64) -> StakeReport {
        StakeReport { staked: amount, minted: amount }
    }

    /// Writes the log entry of the deposit.
    pub fn log_entry(&self) -> (r: String)
        ensures
            r@ == log_text(self.staked, self.minted),
    {
        let staked = to_decimal(self.staked);
        let issued = to_decimal(self.minted);
        let text = String::from_str("Staked ").concat(staked.as_str()).concat(
            " tokens, minted ",
        ).concat(issued.as_str()).concat(" liability tokens");
        text
    }
}

} // verus!
