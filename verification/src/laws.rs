//! What holds of deposits and withdrawals beyond a single call.

use crate::account::BankAccount;
use crate::error::BankError;
use crate::ledger::{Deposit, Withdraw};
use anchor_lang::prelude::Pubkey;
use vstd::prelude::*;

verus! {

/// The sum of `amounts`.
pub open spec fn total(amounts: Seq<u64>) -> int
    decreases amounts.len(),
{
    if amounts.len() == 0 {
        0
    } else {
        total(amounts.drop_last()) + amounts.last()
    }
}

/// The account after accepted deposits of `amounts`, made in that order.
pub open spec fn after_deposits(bank: BankAccount, amounts: Seq<u64>) -> BankAccount
    decreases amounts.len(),
{
    if amounts.len() == 0 {
        bank
    } else {
        after_deposits(bank, amounts.drop_last()).credited(amounts.last())
    }
}

/// The account after `requester` has asked for withdrawals of `amounts`, in
/// that order, if each of them was accepted; else the reason for which the
/// first one to be refused was refused.
pub open spec fn after_withdrawals(
    bank: BankAccount,
    requester: Pubkey,
    amounts: Seq<u64>,
) -> Result<BankAccount, BankError>
    decreases amounts.len(),
{
    if amounts.len() == 0 {
        Ok(bank)
    } else {
        match after_withdrawals(bank, requester, amounts.drop_last()) {
            Ok(before) => match before.withdrawal_verdict(requester, amounts.last()) {
                Ok(_) => Ok(before.debited(amounts.last())),
                Err(reason) => Err(reason),
            },
            Err(reason) => Err(reason),
        }
    }
}

/// The account after accepted deposits of `deposits`, followed by withdrawals
/// of `withdrawals` that the owner asked for, if each of these was accepted.
pub open spec fn round_trip(
    bank: BankAccount,
    deposits: Seq<u64>,
    withdrawals: Seq<u64>,
) -> Result<BankAccount, BankError> {
    after_withdrawals(after_deposits(bank, deposits), bank.data.owner, withdrawals)
}

/// Where the funds of a deposit are well-formed, every amount is in range.
pub proof fn law_deposit_in_range(ctx: Deposit, amount: u64)
    requires
        ctx.wf(),
    ensures
        ctx.in_range(amount),
{
}

/// Where the funds of a withdrawal are well-formed, every amount is in range.
pub proof fn law_withdraw_in_range(ctx: Withdraw, amount: u64)
    requires
        ctx.wf(),
    ensures
        ctx.in_range(amount),
{
}

/// A sum of amounts is not negative.
pub proof fn lemma_total_is_not_negative(amounts: Seq<u64>)
    ensures
        0 <= total(amounts),
    decreases amounts.len(),
{
    if amounts.len() > 0 {
        lemma_total_is_not_negative(amounts.drop_last());
    }
}

/// Deposits add up: after accepted deposits the funds held and the balance
/// have grown by their sum, the balance counted from what the funds gave at
/// the start. The reserve, the name and the owner are as they were.
pub proof fn lemma_deposits_add_up(bank: BankAccount, amounts: Seq<u64>)
    requires
        bank.wf(),
        bank.lamports + total(amounts) <= u64::MAX,
    ensures
        after_deposits(bank, amounts).lamports == bank.lamports + total(amounts),
        after_deposits(bank, amounts).rent_minimum == bank.rent_minimum,
        after_deposits(bank, amounts).data.name == bank.data.name,
        after_deposits(bank, amounts).data.owner == bank.data.owner,
        amounts.len() > 0 ==> after_deposits(bank, amounts).data.balance == bank.available()
            + total(amounts),
    decreases amounts.len(),
{
    lemma_total_is_not_negative(amounts);
    if amounts.len() > 0 {
        lemma_total_is_not_negative(amounts.drop_last());
        lemma_deposits_add_up(bank, amounts.drop_last());
    }
}

/// Withdrawals add up: if the owner asks for amounts above zero whose sum the
/// balance covers, each is accepted, and afterwards the funds held and the
/// balance have shrunk by their sum, the balance counted from what the funds
/// gave at the start. The reserve, the name and the owner are as they were.
pub proof fn lemma_withdrawals_add_up(bank: BankAccount, amounts: Seq<u64>)
    requires
        bank.wf(),
        forall|i: int| 0 <= i < amounts.len() ==> amounts[i] > 0,
        total(amounts) <= bank.available(),
    ensures
        after_withdrawals(bank, bank.data.owner, amounts) is Ok,
        after_withdrawals(bank, bank.data.owner, amounts)->Ok_0.lamports == bank.lamports - total(
            amounts,
        ),
        after_withdrawals(bank, bank.data.owner, amounts)->Ok_0.rent_minimum == bank.rent_minimum,
        after_withdrawals(bank, bank.data.owner, amounts)->Ok_0.data.name == bank.data.name,
        after_withdrawals(bank, bank.data.owner, amounts)->Ok_0.data.owner == bank.data.owner,
        amounts.len() > 0 ==> after_withdrawals(bank, bank.data.owner, amounts)->Ok_0.data.balance
            == bank.available() - total(amounts),
    decreases amounts.len(),
{
    if amounts.len() > 0 {
        lemma_total_is_not_negative(amounts.drop_last());
        lemma_withdrawals_add_up(bank, amounts.drop_last());
    }
}

/// Round trip: let deposits that sum to `D` be accepted on a bank, and let
/// the owner then ask for withdrawals, each above zero, that sum to `W`, with
/// `W` no more than `D`. Then every withdrawal is accepted, and the balance
/// ends at what the funds gave at the start plus `D` less `W`: on a bank that
/// started with nothing beyond its reserve, at `D` less `W`.
///
/// Without any deposit nothing derives the balance anew, so the stored balance
/// must then be the one that the funds give.
pub proof fn law_round_trip(bank: BankAccount, deposits: Seq<u64>, withdrawals: Seq<u64>)
    requires
        bank.wf(),
        bank.lamports + total(deposits) <= u64::MAX,
        forall|i: int| 0 <= i < deposits.len() ==> deposits[i] > 0,
        forall|i: int| 0 <= i < withdrawals.len() ==> withdrawals[i] > 0,
        total(withdrawals) <= total(deposits),
        deposits.len() == 0 ==> bank.reconciled(),
    ensures
        round_trip(bank, deposits, withdrawals) is Ok,
        round_trip(bank, deposits, withdrawals)->Ok_0.data.balance == bank.available() + total(
            deposits,
        ) - total(withdrawals),
        bank.available() == 0 ==> round_trip(bank, deposits, withdrawals)->Ok_0.data.balance
            == total(deposits) - total(withdrawals),
        round_trip(bank, deposits, withdrawals)->Ok_0.reconciled(),
        round_trip(bank, deposits, withdrawals)->Ok_0.wf(),
{
    lemma_deposits_add_up(bank, deposits);
    lemma_withdrawals_add_up(after_deposits(bank, deposits), withdrawals);
}

} // verus!
