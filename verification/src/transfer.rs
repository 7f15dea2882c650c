//! The transfer that a release asks of the token ledger, and the text of its
//! arguments.

use vstd::prelude::*;
use vstd::string::StringExecFns;

verus! {

/// The mathematical content of a [`TransferInstruction`].
pub struct TransferView {
    /// The token ledger that is to move the tokens.
    pub token_contract: Seq<char>,
    /// The account that is to receive them.
    pub receiver: Seq<char>,
    /// How many tokens.
    pub amount: nat,
}

/// A transfer for the host to carry out: `amount` tokens of the ledger
/// `token_contract` to `receiver`.
#[derive(Debug)]
pub struct TransferInstruction {
    /// The token ledger that is to move the tokens.
    pub token_contract: String,
    /// The account that is to receive them.
    pub receiver: String,
    /// How many tokens.
    pub amount: u128,
}

impl View for TransferInstruction {
    type V = TransferView;

    open spec fn view(&self) -> TransferView {
        TransferView {
            token_contract: self.token_contract@,
            receiver: self.receiver@,
            amount: self.amount as nat,
        }
    }
}

/// The character that writes the digit `d`.
pub open spec fn digit(d: nat) -> char {
    if d == 0 {
        '0'
    } else if d == 1 {
        '1'
    } else if d == 2 {
        '2'
    } else if d == 3 {
        '3'
    } else if d == 4 {
        '4'
    } else if d == 5 {
        '5'
    } else if d == 6 {
        '6'
    } else if d == 7 {
        '7'
    } else if d == 8 {
        '8'
    } else {
        '9'
    }
}

/// The number `n` written in decimal, without leading zeros.
pub open spec fn decimal(n: nat) -> Seq<char>
    decreases n,
{
    if n < 10 {
        seq![digit(n)]
    } else {
        decimal(n / 10).push(digit(n % 10))
    }
}

/// The arguments of the transfer of `amount` tokens to `receiver`, as the
/// token ledger reads them: an object with the receiver's name and the
/// amount in decimal, both as strings. The name is written as it stands,
/// with nothing escaped.
pub open spec fn transfer_arguments(receiver: Seq<char>, amount: nat) -> Seq<char> {
    "{\"receiver\":\""@ + receiver + "\", \"amount\":\""@ + decimal(amount) + "\"}"@
}

/// The digits still to be written in front when `n` is what is left of a
/// number after its last digits were taken off: those of `n`, or none once
/// nothing is left.
spec fn digits_before(n: nat) -> Seq<char> {
    if n == 0 {
        Seq::empty()
    } else {
        decimal(n)
    }
}

/// A number is written as what is left without its last digit, followed by
/// that digit.
proof fn lemma_decimal_splits(n: nat)
    ensures
        decimal(n) == digits_before(n / 10) + seq![digit(n % 10)],
{
    if n < 10 {
        assert(n / 10 == 0);
        assert(n % 10 == n);
        assert(decimal(n) =~= Seq::<char>::empty() + seq![digit(n)]);
    } else {
        assert(decimal(n) =~= decimal(n / 10) + seq![digit(n % 10)]);
    }
}

/// The text of one digit.
fn digit_text(d: u128) -> (text: &'static str)
    requires
        d < 10,
    ensures
        text@ == seq![digit(d as nat)],
{
    proof {
        reveal_strlit("0");
        reveal_strlit("1");
        reveal_strlit("2");
        reveal_strlit("3");
        reveal_strlit("4");
        reveal_strlit("5");
        reveal_strlit("6");
        reveal_strlit("7");
        reveal_strlit("8");
        reveal_strlit("9");
    }
    let text = if d == 0 {
        "0"
    } else if d == 1 {
        "1"
    } else if d == 2 {
        "2"
    } else if d == 3 {
        "3"
    } else if d == 4 {
        "4"
    } else if d == 5 {
        "5"
    } else if d == 6 {
        "6"
    } else if d == 7 {
        "7"
    } else if d == 8 {
        "8"
    } else {
        "9"
    };
    assert(text@ =~= seq![digit(d as nat)]);
    text
}

/// Writes `n` in decimal.
pub fn decimal_text(n: u128) -> (text: String)
    ensures
        text@ == decimal(n as nat),
{
    let mut text = String::from_str(digit_text(n % 10));
    let mut rest: u128 = n / 10;
    proof {
        lemma_decimal_splits(n as nat);
    }
    while rest > 0
        invariant
            decimal(n as nat) == digits_before(rest as nat) + text@,
        decreases rest,
    {
        proof {
            lemma_decimal_splits(rest as nat);
            assert((digits_before((rest / 10) as nat) + seq![digit((rest % 10) as nat)]) + text@
                =~= digits_before((rest / 10) as nat) + (seq![digit((rest % 10) as nat)]
                + text@));
        }
        text = String::from_str(digit_text(rest % 10)).concat(text.as_str());
        rest = rest / 10;
    }
    assert(Seq::<char>::empty() + text@ =~= text@);
    text
}

impl TransferInstruction {
    /// The arguments of this transfer, as the token ledger reads them.
    pub fn arguments(&self) -> (text: String)
        ensures
            text@ == transfer_arguments(self.receiver@, self.amount as nat),
    {
        let mut text = String::from_str("{\"receiver\":\"");
        text.append(self.receiver.as_str());
        text.append("\", \"amount\":\"");
        text.append(decimal_text(self.amount).as_str());
        text.append("\"}");
        text
    }
}

} // verus!
