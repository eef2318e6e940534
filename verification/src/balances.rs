//! The per-application prepaid balance ledger.
//!
//! A balance only grows by an explicit deposit and only shrinks by a
//! debit, and a debit first merges the value attached to the current
//! call, so one action can top up and pay for itself.  No operation can
//! drive a stored balance below zero.

use vstd::prelude::*;

use crate::contract::Contract;
use crate::errors::Error;

verus! {

/// However a state was produced, a stored balance is never negative:
/// balances live in an unsigned domain, deposits only add, and a debit
/// that the merged balance cannot cover refuses before mutating.
pub proof fn lemma_balance_never_negative(c: Contract, app: Seq<char>)
    ensures
        c.spec_balance(app) >= 0,
{
}

impl Contract {
    /// Credits the value attached to the call to the application's
    /// balance, creating it when absent.  Refuses with `Overflow` when
    /// the sum would exceed the largest representable amount, leaving
    /// all state unchanged.
    pub fn deposit(&mut self, attached: u128, app_id: String) -> (r: Result<(), Error>)
        requires
            old(self).wf(),
        ensures
            final(self).wf(),
            r matches Ok(_) <==> old(self).spec_balance(app_id@) + attached <= u128::MAX,
            r matches Ok(_) ==> final(self).app_balances@ =~= old(self).app_balances@.insert(
                app_id@,
                (old(self).spec_balance(app_id@) + attached) as u128,
            ),
            r matches Err(e) ==> e == Error::Overflow && *final(self) == *old(self),
            final(self).session_keys@ == old(self).session_keys@,
            final(self).key_usage_by_pk@ == old(self).key_usage_by_pk@,
            final(self).bundler@ == old(self).bundler@,
            final(self).oracle_account_id == old(self).oracle_account_id,
            final(self).mpc_contract == old(self).mpc_contract,
    {
        let current = self.get_app_balance(&app_id);
        if attached > u128::MAX - current {
            return Err(Error::Overflow);
        }
        self.app_balances.insert(app_id, current + attached);
        Ok(())
    }

    /// Merges the value attached to the current call into the balance,
    /// requires the merged balance to cover `amount`, then subtracts it.
    /// Refuses with `Overflow` when the merge itself would not fit and
    /// with `InsufficientBalance` when the merged balance falls short of
    /// `amount`; on refusal all state is unchanged.
    pub fn debit(&mut self, attached: u128, amount: u128, app_id: String) -> (r: Result<
        (),
        Error,
    >)
        requires
            old(self).wf(),
        ensures
            final(self).wf(),
            r matches Ok(_) <==> old(self).spec_balance(app_id@) + attached <= u128::MAX && old(
                self,
            ).spec_balance(app_id@) + attached >= amount,
            r matches Ok(_) ==> final(self).app_balances@ =~= old(self).app_balances@.insert(
                app_id@,
                (old(self).spec_balance(app_id@) + attached - amount) as u128,
            ),
            r matches Err(e) ==> *final(self) == *old(self) && (e == Error::Overflow <==> old(
                self,
            ).spec_balance(app_id@) + attached > u128::MAX) && (e == Error::InsufficientBalance
                <==> old(self).spec_balance(app_id@) + attached <= u128::MAX && old(
                self,
            ).spec_balance(app_id@) + attached < amount),
            final(self).session_keys@ == old(self).session_keys@,
            final(self).key_usage_by_pk@ == old(self).key_usage_by_pk@,
            final(self).bundler@ == old(self).bundler@,
            final(self).oracle_account_id == old(self).oracle_account_id,
            final(self).mpc_contract == old(self).mpc_contract,
    {
        let current = self.get_app_balance(&app_id);
        if attached > u128::MAX - current {
            return Err(Error::Overflow);
        }
        let merged = current + attached;
        if merged < amount {
            return Err(Error::InsufficientBalance);
        }
        self.app_balances.insert(app_id, merged - amount);
        Ok(())
    }
}

} // verus!
