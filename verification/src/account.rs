//! The bank record and the funds that back it.

use crate::error::BankError;
use anchor_lang::prelude::Pubkey;
use vstd::prelude::*;
use vstd::utf8::encode_utf8;

verus! {

/// The bytes set aside for a bank's record: a tag of 8, a name of up to 20
/// behind its length of 4, the balance of 8 and the owner's key of 32.
pub const BANK_SIZE: usize = 8 + 4 + 20 + 8 + 32;

/// The record of one bank.
#[derive(Debug, PartialEq, Eq)]
pub struct Bank {
    /// The bank's name, of 1 to 19 bytes, fixed at creation.
    pub name: String,
    /// The funds the owner may withdraw, as last derived.
    pub balance: u64,
    /// The key of the party that created the bank, fixed at creation.
    pub owner: Pubkey,
}

/// A bank together with the funds held for it.
#[derive(Debug, PartialEq, Eq)]
pub struct BankAccount {
    /// All funds held for the bank, the reserve included.
    pub lamports: u64,
    /// The reserve that must stay behind to keep a record of `BANK_SIZE`
    /// bytes alive, as the store that holds the funds asks for it now.
    pub rent_minimum: u64,
    /// The bank's record.
    pub data: Bank,
}

impl Clone for Bank {
    fn clone(&self) -> (copy: Self)
        ensures
            copy == *self,
    {
        Bank { name: self.name.clone(), balance: self.balance, owner: self.owner }
    }
}

impl Clone for BankAccount {
    fn clone(&self) -> (copy: Self)
        ensures
            copy == *self,
    {
        BankAccount {
            lamports: self.lamports,
            rent_minimum: self.rent_minimum,
            data: self.data.clone(),
        }
    }
}

/// Whether a bank may carry `name`, and if not, why: the bytes of the name
/// are counted, and there must be at least one and fewer than twenty.
pub open spec fn name_verdict(name: Seq<char>) -> Result<(), BankError> {
    let len = encode_utf8(name).len();
    if len == 0 {
        Err(BankError::EmptyName)
    } else if len >= 20 {
        Err(BankError::NameTooLong)
    } else {
        Ok(())
    }
}

impl Bank {
    /// The name has 1 to 19 bytes.
    pub open spec fn wf(&self) -> bool {
        1 <= encode_utf8(self.name@).len() <= 19
    }
}

impl BankAccount {
    /// The funds held cover the reserve.
    pub open spec fn wf(&self) -> bool {
        self.rent_minimum <= self.lamports
    }

    /// The balance that the funds held give: all that lies beyond the reserve.
    pub open spec fn available(&self) -> int {
        self.lamports - self.rent_minimum
    }

    /// The stored balance is the one that the funds held give.
    pub open spec fn reconciled(&self) -> bool {
        self.data.balance == self.available()
    }

    /// Whether `requester` may take `amount` out, and if not, why.
    pub open spec fn withdrawal_verdict(&self, requester: Pubkey, amount: u64) -> Result<
        (),
        BankError,
    > {
        if amount == 0 {
            Err(BankError::ZeroAmount)
        } else if requester != self.data.owner {
            Err(BankError::Unauthorized)
        } else if self.available() < amount {
            Err(BankError::InsufficientBankBalance)
        } else {
            Ok(())
        }
    }

    /// The account after `amount` has come in: the funds held grow by it, and
    /// the balance is what they then give. Name and owner stay.
    pub open spec fn credited(self, amount: u64) -> BankAccount {
        BankAccount {
            lamports: (self.lamports + amount) as u64,
            rent_minimum: self.rent_minimum,
            data: Bank {
                name: self.data.name,
                balance: (self.available() + amount) as u64,
                owner: self.data.owner,
            },
        }
    }

    /// The account after `amount` has gone out: the funds held shrink by it,
    /// and the balance is what they then give. Name and owner stay.
    pub open spec fn debited(self, amount: u64) -> BankAccount {
        BankAccount {
            lamports: (self.lamports - amount) as u64,
            rent_minimum: self.rent_minimum,
            data: Bank {
                name: self.data.name,
                balance: (self.available() - amount) as u64,
                owner: self.data.owner,
            },
        }
    }

    /// Derives the balance from the funds held, whatever the record says.
    pub fn derive_balance(&self) -> (balance: u64)
        requires
            self.wf(),
        ensures
            balance == self.available(),
    {
        self.lamports - self.rent_minimum
    }
}

} // verus!
