//! The relay's persistent records.

use vstd::prelude::*;

use crate::store::{AssocMap, MapKey};

verus! {

/// Names of the contract's persistent collections.
#[derive(Clone, Copy, Debug)]
pub enum StorageKeys {
    AppBalances,
    SessionKeys,
    TrialDataById,
    KeyUsageByPK,
    Bundler,
}

/// Registry entry binding a user path to its derived destination-chain
/// wallet account and the key-derivation path the signing service uses.
pub struct Bundle {
    /// Public key of the threshold-signing service for this path.
    pub mpc_key: Vec<u8>,
    /// Destination-chain wallet account the bundle controls.
    pub eth_address: String,
    /// Opaque per-user derivation path.
    pub path: String,
}

impl Clone for Bundle {
    fn clone(&self) -> (r: Self)
        ensures
            r.mpc_key@ == self.mpc_key@,
            r.eth_address@ == self.eth_address@,
            r.path@ == self.path@,
    {
        Bundle {
            mpc_key: crate::bytes::clone_bytes(&self.mpc_key),
            eth_address: self.eth_address.clone(),
            path: self.path.clone(),
        }
    }
}

/// Mutable usage counters of one session key; every counter only grows.
pub struct UsageStats {
    /// Count of successful authorized actions.
    pub total_interactions: u64,
    /// Successful actions per day epoch.
    pub interactions_per_day: AssocMap<u64, u64>,
    /// Successful actions per method name.
    pub methods_called: AssocMap<String, u64>,
    /// Successful actions per destination contract or account.
    pub contracts_called: AssocMap<String, u64>,
    /// Cumulative resource cost of the authorized actions.
    pub gas_used: u128,
    /// Cumulative value moved by the authorized actions.
    pub deposit_used: u128,
}

impl UsageStats {
    /// Fresh counters, all zero.
    pub fn default() -> (r: Self)
        ensures
            r.wf(),
            r.total_interactions == 0,
            r.interactions_per_day@ =~= Map::<u64, u64>::empty(),
            r.methods_called@ =~= Map::<Seq<char>, u64>::empty(),
            r.contracts_called@ =~= Map::<Seq<char>, u64>::empty(),
            r.gas_used == 0,
            r.deposit_used == 0,
    {
        UsageStats {
            total_interactions: 0,
            interactions_per_day: AssocMap::new(),
            methods_called: AssocMap::new(),
            contracts_called: AssocMap::new(),
            gas_used: 0,
            deposit_used: 0,
        }
    }

    /// Well-formed: the histograms repeat no key.
    pub open spec fn wf(self) -> bool {
        self.interactions_per_day.wf() && self.methods_called.wf() && self.contracts_called.wf()
    }

    /// Counts one successful authorized action: every counter grows,
    /// saturating at its maximum.
    pub fn record(
        &mut self,
        day: u64,
        method: Option<&String>,
        target: &String,
        gas_cost: u128,
        value: u128,
    )
        requires
            old(self).wf(),
        ensures
            final(self).wf(),
            stats_recorded(
                *old(self),
                *final(self),
                day,
                match method {
                    Some(m) => Some(m@),
                    None => None,
                },
                target@,
                gas_cost,
                value,
            ),
    {
        self.total_interactions = sat_inc_u64(self.total_interactions);
        bump(&mut self.interactions_per_day, day);
        match method {
            Some(m) => {
                bump(&mut self.methods_called, m.clone());
            },
            None => {},
        }
        bump(&mut self.contracts_called, target.clone());
        self.gas_used = sat_add_u128(self.gas_used, gas_cost);
        self.deposit_used = sat_add_u128(self.deposit_used, value);
    }
}

/// `x + 1`, saturating.
pub open spec fn spec_sat_inc(x: u64) -> u64 {
    if x == u64::MAX {
        x
    } else {
        (x + 1) as u64
    }
}

/// `x + y`, saturating.
pub open spec fn spec_sat_add(x: u128, y: u128) -> u128 {
    if x + y <= u128::MAX {
        (x + y) as u128
    } else {
        u128::MAX
    }
}

/// A histogram entry after one more hit: one when absent, else one more,
/// saturating.
pub open spec fn bumped<K>(m: Map<K, u64>, k: K) -> u64 {
    if m.contains_key(k) {
        spec_sat_inc(m[k])
    } else {
        1
    }
}

/// How `post` relates to `pre` after counting one successful authorized
/// action on `target` (calling `method`, when a method was called) that
/// cost `gas_cost` resources and moved `value`.
pub open spec fn stats_recorded(
    pre: UsageStats,
    post: UsageStats,
    day: u64,
    method: Option<Seq<char>>,
    target: Seq<char>,
    gas_cost: u128,
    value: u128,
) -> bool {
    &&& post.total_interactions == spec_sat_inc(pre.total_interactions)
    &&& post.interactions_per_day@ =~= pre.interactions_per_day@.insert(
        day,
        bumped(pre.interactions_per_day@, day),
    )
    &&& post.methods_called@ =~= match method {
        Some(name) => pre.methods_called@.insert(name, bumped(pre.methods_called@, name)),
        None => pre.methods_called@,
    }
    &&& post.contracts_called@ =~= pre.contracts_called@.insert(
        target,
        bumped(pre.contracts_called@, target),
    )
    &&& post.gas_used == spec_sat_add(pre.gas_used, gas_cost)
    &&& post.deposit_used == spec_sat_add(pre.deposit_used, value)
}

/// `x + 1`, saturating.
fn sat_inc_u64(x: u64) -> (r: u64)
    ensures
        r == spec_sat_inc(x),
{
    if x == u64::MAX {
        x
    } else {
        x + 1
    }
}

/// `x + y`, saturating.
fn sat_add_u128(x: u128, y: u128) -> (r: u128)
    ensures
        r == spec_sat_add(x, y),
{
    if y > u128::MAX - x {
        u128::MAX
    } else {
        x + y
    }
}

/// Counts one more hit under `key`.
fn bump<K: MapKey>(m: &mut AssocMap<K, u64>, key: K)
    requires
        old(m).wf(),
    ensures
        final(m).wf(),
        final(m)@ =~= old(m)@.insert(key@, bumped(old(m)@, key@)),
{
    let next = match m.get(&key) {
        Some(v) => sat_inc_u64(*v),
        None => 1,
    };
    m.insert(key, next);
}

/// What a session public key present in the registry is authorized for:
/// exactly one (owner path, application) pair, plus its usage counters.
pub struct KeyUsage {
    pub usage_stats: UsageStats,
    /// Owner path the key acts for.
    pub path: String,
    /// Application the key acts for.
    pub app_id: String,
}

impl MapKey for u64 {
    fn key_eq(&self, other: &Self) -> (r: bool)
        ensures
            r == (self@ == other@),
    {
        *self == *other
    }
}

/// The (owner path, application) slot a session key occupies.
pub struct OwnerApp {
    pub path: String,
    pub app_id: String,
}

impl View for OwnerApp {
    type V = (Seq<char>, Seq<char>);

    open spec fn view(&self) -> (Seq<char>, Seq<char>) {
        (self.path@, self.app_id@)
    }
}

impl MapKey for OwnerApp {
    fn key_eq(&self, other: &Self) -> (r: bool)
        ensures
            r == (self@ == other@),
    {
        self.path.eq(&other.path) && self.app_id.eq(&other.app_id)
    }
}

} // verus!
