//! The relay's state: registries, session keys and the balance ledger.

use vstd::prelude::*;

use crate::models::{Bundle, KeyUsage, OwnerApp};
use crate::store::AssocMap;

verus! {

/// The whole persistent state of the relay, passed by reference into
/// every operation.
pub struct Contract {
    /// Active session key of each (owner path, application) slot.
    pub session_keys: AssocMap<OwnerApp, Vec<u8>>,
    /// Authorization record of each active session public key.
    pub key_usage_by_pk: AssocMap<Vec<u8>, KeyUsage>,
    /// Signing bundle of each registered user path.
    pub bundler: AssocMap<String, Bundle>,
    /// Prepaid balance of each application, in the smallest native unit.
    pub app_balances: AssocMap<String, u128>,
    /// The only account allowed to register bundles and session keys.
    pub oracle_account_id: String,
    /// Account of the external threshold-signing service.
    pub mpc_contract: String,
}

impl Contract {
    /// Well-formed: every registry repeats no key, and every stored
    /// usage record is itself well-formed.
    pub open spec fn wf(self) -> bool {
        &&& self.session_keys.wf()
        &&& self.key_usage_by_pk.wf()
        &&& self.bundler.wf()
        &&& self.app_balances.wf()
        &&& forall|k: Seq<u8>| #[trigger]
            self.key_usage_by_pk@.contains_key(k)
                ==> self.key_usage_by_pk@[k].usage_stats.wf()
    }

    /// Registry consistency: every slot's key resolves to a record that
    /// binds exactly that slot, and every record's slot indexes exactly
    /// its key — a public key present in the registry is authorized for
    /// exactly one (owner, application) pair, and no rotation can leave
    /// a key or a record dangling.
    pub open spec fn registry_consistent(self) -> bool {
        &&& forall|s: (Seq<char>, Seq<char>)| #[trigger]
            self.session_keys@.contains_key(s) ==> {
                let k = self.session_keys@[s]@;
                &&& self.key_usage_by_pk@.contains_key(k)
                &&& self.key_usage_by_pk@[k].path@ == s.0
                &&& self.key_usage_by_pk@[k].app_id@ == s.1
            }
        &&& forall|k: Seq<u8>| #[trigger]
            self.key_usage_by_pk@.contains_key(k) ==> {
                let s = (self.key_usage_by_pk@[k].path@, self.key_usage_by_pk@[k].app_id@);
                &&& self.session_keys@.contains_key(s)
                &&& self.session_keys@[s]@ == k
            }
    }

    /// The application's balance; absent means zero.
    pub open spec fn spec_balance(self, app: Seq<char>) -> u128 {
        if self.app_balances@.contains_key(app) {
            self.app_balances@[app]
        } else {
            0
        }
    }

    /// A fresh relay with empty registries.
    pub fn new(oracle_account_id: String, mpc_contract: String) -> (r: Self)
        ensures
            r.wf(),
            r.registry_consistent(),
            r.session_keys@ =~= Map::<(Seq<char>, Seq<char>), Vec<u8>>::empty(),
            r.key_usage_by_pk@ =~= Map::<Seq<u8>, KeyUsage>::empty(),
            r.bundler@ =~= Map::<Seq<char>, Bundle>::empty(),
            r.app_balances@ =~= Map::<Seq<char>, u128>::empty(),
            r.oracle_account_id@ == oracle_account_id@,
            r.mpc_contract@ == mpc_contract@,
    {
        Contract {
            session_keys: AssocMap::new(),
            key_usage_by_pk: AssocMap::new(),
            bundler: AssocMap::new(),
            app_balances: AssocMap::new(),
            oracle_account_id,
            mpc_contract,
        }
    }

    /// Authorization record of a session public key; absence means the
    /// key is authorized for nothing.
    pub fn get_key_usage(&self, public_key: &Vec<u8>) -> (r: Option<&KeyUsage>)
        requires
            self.wf(),
        ensures
            match r {
                Some(u) => self.key_usage_by_pk@.contains_key(public_key@) && *u
                    == self.key_usage_by_pk@[public_key@],
                None => !self.key_usage_by_pk@.contains_key(public_key@),
            },
    {
        self.key_usage_by_pk.get(public_key)
    }

    /// Signing bundle of a user path.
    pub fn get_bundle(&self, path: &String) -> (r: Option<&Bundle>)
        requires
            self.wf(),
        ensures
            match r {
                Some(b) => self.bundler@.contains_key(path@) && *b == self.bundler@[path@],
                None => !self.bundler@.contains_key(path@),
            },
    {
        self.bundler.get(path)
    }

    /// Prepaid balance of an application, zero when never funded.
    pub fn get_app_balance(&self, app_id: &String) -> (r: u128)
        requires
            self.wf(),
        ensures
            r == self.spec_balance(app_id@),
    {
        match self.app_balances.get(app_id) {
            Some(b) => *b,
            None => 0,
        }
    }
}

} // verus!
