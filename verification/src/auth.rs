//! Oracle-only registration: signing bundles and session keys.
//!
//! Rotating the session key of an (owner, application) slot atomically
//! removes the previous key's authorization record and installs the new
//! one: no step of the library leaves both keys valid, and none leaves a
//! removed key's record dangling.

use vstd::prelude::*;

use crate::contract::Contract;
use crate::errors::Error;
use crate::models::{Bundle, KeyUsage, OwnerApp, UsageStats};

verus! {

/// Native value transferred once to a fresh bundle's wallet account so
/// it exists on the destination chain.
pub const BOOTSTRAP_AMOUNT: u128 = 100_000_000_000_000_000_000_000;

/// A value transfer the caller's environment must perform: the one-time
/// funding of a freshly registered wallet account.
pub struct BootstrapTransfer {
    pub receiver_id: String,
    pub amount: u128,
}

impl Contract {
    /// Registers the signing bundle of `path`.  Only the oracle may
    /// call; a path registers once.  On success the returned transfer
    /// funds the bundle's wallet account with the bootstrap amount.
    pub fn activate_account(
        &mut self,
        caller: &String,
        mpc_key: Vec<u8>,
        eth_address: String,
        path: String,
    ) -> (r: Result<BootstrapTransfer, Error>)
        requires
            old(self).wf(),
        ensures
            final(self).wf(),
            r matches Err(e) ==> *final(self) == *old(self) && (e == Error::Unauthorized <==>
                caller@ != old(self).oracle_account_id@) && (e == Error::AlreadyExists <==> caller@
                == old(self).oracle_account_id@ && old(self).bundler@.contains_key(path@)),
            r matches Ok(_) <==> caller@ == old(self).oracle_account_id@ && !old(
                self,
            ).bundler@.contains_key(path@),
            r matches Ok(t) ==> {
                &&& final(self).bundler@.dom() =~= old(self).bundler@.dom().insert(path@)
                &&& final(self).bundler@[path@].mpc_key@ == mpc_key@
                &&& final(self).bundler@[path@].eth_address@ == eth_address@
                &&& final(self).bundler@[path@].path@ == path@
                &&& forall|p: Seq<char>|
                    p != path@ && old(self).bundler@.contains_key(p)
                        ==> final(self).bundler@[p] == old(self).bundler@[p]
                &&& t.receiver_id@ == eth_address@
                &&& t.amount == BOOTSTRAP_AMOUNT
            },
            final(self).session_keys@ == old(self).session_keys@,
            final(self).key_usage_by_pk@ == old(self).key_usage_by_pk@,
            final(self).app_balances@ == old(self).app_balances@,
            final(self).oracle_account_id == old(self).oracle_account_id,
            final(self).mpc_contract == old(self).mpc_contract,
    {
        if !caller.eq(&self.oracle_account_id) {
            return Err(Error::Unauthorized);
        }
        if self.bundler.contains(&path) {
            return Err(Error::AlreadyExists);
        }
        let receiver_id = eth_address.clone();
        let bundle = Bundle { mpc_key, eth_address, path: path.clone() };
        self.bundler.insert(path, bundle);
        Ok(BootstrapTransfer { receiver_id, amount: BOOTSTRAP_AMOUNT })
    }

    /// Installs `public_key` as the session key of the (path,
    /// application) slot.  Only the oracle may call.  When the slot
    /// already holds a key, this is a rotation: the old key's
    /// authorization record is removed and the new one installed in the
    /// same step, so the old key never outlives the rotation and no
    /// record dangles.  A key that is already the active key of a
    /// different slot is refused: a public key present in the registry
    /// is authorized for exactly one (owner, application) pair.
    pub fn add_session_key(
        &mut self,
        caller: &String,
        public_key: Vec<u8>,
        path: String,
        app_id: String,
    ) -> (r: Result<(), Error>)
        requires
            old(self).wf(),
        ensures
            final(self).wf(),
            r matches Err(_) ==> *final(self) == *old(self),
            ({
                let bound_elsewhere = old(self).key_usage_by_pk@.contains_key(public_key@) && !(
                old(self).key_usage_by_pk@[public_key@].path@ == path@ && old(
                    self,
                ).key_usage_by_pk@[public_key@].app_id@ == app_id@);
                &&& (r matches Ok(_) <==> caller@ == old(self).oracle_account_id@
                    && !bound_elsewhere)
                &&& (r matches Err(e) ==> (e == Error::Unauthorized <==> caller@ != old(
                    self,
                ).oracle_account_id@) && (e == Error::AlreadyExists <==> caller@ == old(
                    self,
                ).oracle_account_id@ && bound_elsewhere))
            }),
            r matches Ok(_) && old(self).registry_consistent()
                ==> final(self).registry_consistent(),
            r matches Ok(_) ==> {
                let slot = (path@, app_id@);
                let rotated = old(self).session_keys@.contains_key(slot);
                let old_pk = old(self).session_keys@[slot]@;
                &&& final(self).session_keys@.dom() =~= old(self).session_keys@.dom().insert(slot)
                &&& final(self).session_keys@[slot]@ == public_key@
                &&& forall|s: (Seq<char>, Seq<char>)|
                    s != slot && old(self).session_keys@.contains_key(s)
                        ==> final(self).session_keys@[s] == old(self).session_keys@[s]
                &&& final(self).key_usage_by_pk@.contains_key(public_key@)
                &&& final(self).key_usage_by_pk@[public_key@].path@ == path@
                &&& final(self).key_usage_by_pk@[public_key@].app_id@ == app_id@
                &&& final(self).key_usage_by_pk@[public_key@].usage_stats.total_interactions == 0
                &&& final(self).key_usage_by_pk@[public_key@].usage_stats.gas_used == 0
                &&& final(self).key_usage_by_pk@[public_key@].usage_stats.deposit_used == 0
                &&& final(self).key_usage_by_pk@[public_key@].usage_stats.interactions_per_day@
                    =~= Map::<u64, u64>::empty()
                &&& final(self).key_usage_by_pk@[public_key@].usage_stats.methods_called@ =~= Map::<
                    Seq<char>,
                    u64,
                >::empty()
                &&& final(self).key_usage_by_pk@[public_key@].usage_stats.contracts_called@ =~= Map::<
                    Seq<char>,
                    u64,
                >::empty()
                &&& rotated && old_pk != public_key@
                    ==> !final(self).key_usage_by_pk@.contains_key(old_pk)
                &&& forall|k: Seq<u8>|
                    k != public_key@ && !(rotated && k == old_pk)
                        ==> (#[trigger] final(self).key_usage_by_pk@.contains_key(k)
                        <==> old(self).key_usage_by_pk@.contains_key(k))
                        && (old(self).key_usage_by_pk@.contains_key(k)
                        ==> final(self).key_usage_by_pk@[k] == old(self).key_usage_by_pk@[k])
            },
            final(self).bundler@ == old(self).bundler@,
            final(self).app_balances@ == old(self).app_balances@,
            final(self).oracle_account_id == old(self).oracle_account_id,
            final(self).mpc_contract == old(self).mpc_contract,
    {
        if !caller.eq(&self.oracle_account_id) {
            return Err(Error::Unauthorized);
        }
        match self.key_usage_by_pk.get(&public_key) {
            Some(existing) => {
                if !(existing.path.eq(&path) && existing.app_id.eq(&app_id)) {
                    return Err(Error::AlreadyExists);
                }
            },
            None => {},
        }
        let slot_key = OwnerApp { path: path.clone(), app_id: app_id.clone() };
        match self.session_keys.take(&slot_key) {
            Some(old_pk) => {
                self.key_usage_by_pk.remove(&old_pk);
            },
            None => {},
        }
        let record = KeyUsage { usage_stats: UsageStats::default(), path, app_id };
        let pk_index = crate::bytes::clone_bytes(&public_key);
        self.session_keys.insert(slot_key, pk_index);
        self.key_usage_by_pk.insert(public_key, record);
        proof {
            if old(self).registry_consistent() {
                lemma_registration_keeps_consistency(*old(self), *self, public_key@, path@, app_id@);
            }
        }
        Ok(())
    }
}

/// Installing a key that is free, or already the slot's own, keeps the
/// registry consistent: the rotated-out key's record leaves in the same
/// step, every other slot's key is untouched, and the fresh record binds
/// exactly the slot that indexes it.
proof fn lemma_registration_keeps_consistency(
    pre: Contract,
    post: Contract,
    pk: Seq<u8>,
    path: Seq<char>,
    app_id: Seq<char>,
)
    requires
        pre.registry_consistent(),
        !(pre.key_usage_by_pk@.contains_key(pk) && !(pre.key_usage_by_pk@[pk].path@ == path
            && pre.key_usage_by_pk@[pk].app_id@ == app_id)),
        post.session_keys@.dom() =~= pre.session_keys@.dom().insert((path, app_id)),
        post.session_keys@[(path, app_id)]@ == pk,
        forall|s: (Seq<char>, Seq<char>)|
            s != (path, app_id) && pre.session_keys@.contains_key(s) ==> post.session_keys@[s]
                == pre.session_keys@[s],
        post.key_usage_by_pk@.contains_key(pk),
        post.key_usage_by_pk@[pk].path@ == path,
        post.key_usage_by_pk@[pk].app_id@ == app_id,
        pre.session_keys@.contains_key((path, app_id)) && pre.session_keys@[(path, app_id)]@ != pk
            ==> !post.key_usage_by_pk@.contains_key(pre.session_keys@[(path, app_id)]@),
        forall|k: Seq<u8>|
            k != pk && !(pre.session_keys@.contains_key((path, app_id)) && k
                == pre.session_keys@[(path, app_id)]@) ==> (#[trigger] post.key_usage_by_pk@.contains_key(
                k,
            ) <==> pre.key_usage_by_pk@.contains_key(k)) && (pre.key_usage_by_pk@.contains_key(k)
                ==> post.key_usage_by_pk@[k] == pre.key_usage_by_pk@[k]),
    ensures
        post.registry_consistent(),
{
    let slot = (path, app_id);
    let rotated = pre.session_keys@.contains_key(slot);
    let old_pk = pre.session_keys@[slot]@;
    assert forall|s: (Seq<char>, Seq<char>)| #[trigger]
        post.session_keys@.contains_key(s) implies {
        let k = post.session_keys@[s]@;
        &&& post.key_usage_by_pk@.contains_key(k)
        &&& post.key_usage_by_pk@[k].path@ == s.0
        &&& post.key_usage_by_pk@[k].app_id@ == s.1
    } by {
        if s != slot {
            assert(pre.session_keys@.contains_key(s));
            let k = pre.session_keys@[s]@;
            assert(pre.key_usage_by_pk@.contains_key(k) && pre.key_usage_by_pk@[k].path@ == s.0
                && pre.key_usage_by_pk@[k].app_id@ == s.1);
            if k == pk {
                assert(pre.key_usage_by_pk@[pk].path@ == path && pre.key_usage_by_pk@[pk].app_id@
                    == app_id);
                assert(s.0 == path && s.1 == app_id);
                assert(s =~= slot);
                assert(false);
            }
            if rotated && k == old_pk {
                assert(pre.key_usage_by_pk@[old_pk].path@ == path
                    && pre.key_usage_by_pk@[old_pk].app_id@ == app_id);
                assert(s.0 == path && s.1 == app_id);
                assert(s =~= slot);
                assert(false);
            }
            assert(k != pk);
            assert(!(pre.session_keys@.contains_key((path, app_id)) && k
                == pre.session_keys@[(path, app_id)]@));
            assert(post.key_usage_by_pk@.contains_key(k));
            assert(post.key_usage_by_pk@[k] == pre.key_usage_by_pk@[k]);
            assert(post.session_keys@[s] == pre.session_keys@[s]);
        }
    }
    assert forall|k: Seq<u8>| #[trigger] post.key_usage_by_pk@.contains_key(k) implies {
        let s = (post.key_usage_by_pk@[k].path@, post.key_usage_by_pk@[k].app_id@);
        &&& post.session_keys@.contains_key(s)
        &&& post.session_keys@[s]@ == k
    } by {
        if k != pk {
            if rotated && k == old_pk {
                assert(old_pk != pk);
                assert(!post.key_usage_by_pk@.contains_key(old_pk));
                assert(false);
            }
            assert(pre.key_usage_by_pk@.contains_key(k) && post.key_usage_by_pk@[k]
                == pre.key_usage_by_pk@[k]);
            let s = (pre.key_usage_by_pk@[k].path@, pre.key_usage_by_pk@[k].app_id@);
            assert(pre.session_keys@.contains_key(s) && pre.session_keys@[s]@ == k);
            if s == slot {
                assert(rotated && old_pk == k);
                assert(false);
            }
            assert(post.session_keys@.contains_key(s));
            assert(post.session_keys@[s] == pre.session_keys@[s]);
        } else {
            assert(post.session_keys@.contains_key(slot));
        }
    }
}

/// Settles a registration's storage bill against the value attached to
/// it: growth is charged at `byte_cost` per byte and the rest refunded;
/// released storage is refunded on top, capped at the largest
/// representable amount.  Fails with `InsufficientDeposit` exactly when
/// the attached value cannot cover the growth.
pub fn adjust_deposit(attached: u128, storage_before: u64, storage_after: u64, byte_cost: u128) -> (
    r: Result<u128, Error>)
    ensures
        storage_after > storage_before ==> {
            &&& r matches Ok(refund) ==> attached >= (storage_after - storage_before) * byte_cost
                && refund == attached - (storage_after - storage_before) * byte_cost
            &&& r matches Err(e) ==> e == Error::InsufficientDeposit && attached < (storage_after
                - storage_before) * byte_cost
        },
        storage_after <= storage_before ==> (r matches Ok(refund) && {
            let released = (storage_before - storage_after) * byte_cost;
            if attached + released <= u128::MAX {
                refund == attached + released
            } else {
                refund == u128::MAX
            }
        }),
{
    if storage_after > storage_before {
        let growth = (storage_after - storage_before) as u128;
        if byte_cost != 0 && growth > u128::MAX / byte_cost {
            proof {
                lemma_div_bound_product(growth as nat, byte_cost as nat, u128::MAX as nat);
            }
            return Err(Error::InsufficientDeposit);
        }
        proof {
            lemma_mul_within_bound(growth as nat, byte_cost as nat, u128::MAX as nat);
        }
        let charge = growth * byte_cost;
        if attached < charge {
            Err(Error::InsufficientDeposit)
        } else {
            Ok(attached - charge)
        }
    } else {
        let released = (storage_before - storage_after) as u128;
        if byte_cost != 0 && released > u128::MAX / byte_cost {
            proof {
                lemma_div_bound_product(released as nat, byte_cost as nat, u128::MAX as nat);
            }
            return Ok(u128::MAX);
        }
        proof {
            lemma_mul_within_bound(released as nat, byte_cost as nat, u128::MAX as nat);
        }
        let value = released * byte_cost;
        if attached > u128::MAX - value {
            Ok(u128::MAX)
        } else {
            Ok(attached + value)
        }
    }
}

/// A factor above `bound / c` pushes the product above `bound`.
proof fn lemma_div_bound_product(g: nat, c: nat, bound: nat)
    requires
        c > 0,
        g > bound / c,
    ensures
        g * c > bound,
{
    assert(g * c > bound) by (nonlinear_arith)
        requires
            c > 0,
            g > bound / c,
    ;
}

/// A factor at most `bound / c` keeps the product within `bound`.
proof fn lemma_mul_within_bound(g: nat, c: nat, bound: nat)
    requires
        c == 0 || g <= bound / c,
    ensures
        g * c <= bound,
{
    assert(g * c <= bound) by (nonlinear_arith)
        requires
            c == 0 || g <= bound / c,
    ;
}

} // verus!
