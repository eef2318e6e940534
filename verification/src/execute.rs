//! The session-key-authorized action pipeline, up to its suspension.
//!
//! Authentication, the balance debit, the transaction build and the
//! digest happen synchronously and strictly in that order; the returned
//! pair carries the signing request for the external service and the
//! continuation state that finishes the job after the callback, so
//! nothing is re-read from mutable state once the action suspends.

use vstd::prelude::*;

use crate::abi::{encode_function_call, encode_transfer, function_call_data, transfer_data};
use crate::account::{is_valid_account_id, valid_account_id};
use crate::contract::Contract;
use crate::digest::{account_id_to_eth_address, derived_address_of, keccak256, keccak_of};
use crate::errors::Error;
use crate::evm_tx::{build_evm_transaction, signing_payload, EvmTransaction};
use crate::models::stats_recorded;
use crate::payload::{canonical_payload, NearAction, NearPayload};
use crate::sigcheck::ed25519_valid;
use crate::units::{convert_deposit, converted_gas, near_gas_to_evm_gas, VALUE_UNIT};
use vstd::utf8::encode_utf8;

verus! {

/// Chain id of the destination chain.
pub const NEAR_EVM_CHAIN_ID: u64 = 397;

/// Default resource budget of a plain transfer, in host-chain gas.
pub const TRANSFER_GAS: u64 = 5_000_000_000_000;

/// What the external threshold-signing service is asked to sign.
pub struct SignRequest {
    /// 32-byte digest of the unsigned transaction's signing bytes.
    pub payload_digest: Vec<u8>,
    /// Derivation path selecting the signing key.
    pub path: String,
}

/// Continuation state captured at suspension: everything the callback
/// needs to finish without re-reading mutable state.
pub struct PendingSign {
    /// The unsigned transaction the signature belongs to.
    pub evm_transaction: EvmTransaction,
    /// Wallet account that relays the signed transaction.
    pub wallet_account_id: String,
    /// Account or contract the action targets.
    pub target_account_id: String,
    /// Value forwarded with the relay call.
    pub deposit: u128,
}

/// Value an action moves.
pub open spec fn action_value(a: NearAction) -> u128 {
    match a {
        NearAction::FunctionCall { deposit, .. } => deposit,
        NearAction::Transfer { amount, .. } => amount,
    }
}

/// Account or contract an action targets.
pub open spec fn action_target(a: NearAction) -> Seq<char> {
    match a {
        NearAction::FunctionCall { contract_id, .. } => contract_id@,
        NearAction::Transfer { receiver_id, .. } => receiver_id@,
    }
}

/// Host-chain resource budget of an action.
pub open spec fn action_gas(a: NearAction) -> u64 {
    match a {
        NearAction::FunctionCall { gas, .. } => gas,
        NearAction::Transfer { .. } => TRANSFER_GAS,
    }
}

/// Method an action calls, when it calls one.
pub open spec fn action_method(a: NearAction) -> Option<Seq<char>> {
    match a {
        NearAction::FunctionCall { method_name, .. } => Some(method_name@),
        NearAction::Transfer { .. } => None,
    }
}

/// Exact call data compiled for an action: its parameters under the
/// fixed versioned signature, with the small value remainder inline.
pub open spec fn action_input(a: NearAction) -> Seq<u8> {
    match a {
        NearAction::FunctionCall { contract_id, method_name, args, gas, deposit } =>
            function_call_data(
            encode_utf8(contract_id@),
            encode_utf8(method_name@),
            args@,
            gas,
            (deposit % VALUE_UNIT) as u32,
        ),
        NearAction::Transfer { receiver_id, amount } => transfer_data(
            encode_utf8(receiver_id@),
            (amount % VALUE_UNIT) as u32,
        ),
    }
}

impl Contract {
    /// Counts one successful authorized action against the session key's
    /// usage record.
    fn record_usage(
        &mut self,
        session_key: Vec<u8>,
        day_epoch: u64,
        method: Option<&String>,
        target: &String,
        gas_cost: u128,
        value: u128,
    )
        requires
            old(self).wf(),
            old(self).key_usage_by_pk@.contains_key(session_key@),
        ensures
            final(self).wf(),
            final(self).key_usage_by_pk@.contains_key(session_key@),
            final(self).key_usage_by_pk@[session_key@].path@ == old(
                self,
            ).key_usage_by_pk@[session_key@].path@,
            final(self).key_usage_by_pk@[session_key@].app_id@ == old(
                self,
            ).key_usage_by_pk@[session_key@].app_id@,
            stats_recorded(
                old(self).key_usage_by_pk@[session_key@].usage_stats,
                final(self).key_usage_by_pk@[session_key@].usage_stats,
                day_epoch,
                match method {
                    Some(m) => Some(m@),
                    None => None,
                },
                target@,
                gas_cost,
                value,
            ),
            forall|k: Seq<u8>|
                k != session_key@ ==> (#[trigger] final(self).key_usage_by_pk@.contains_key(k)
                    <==> old(self).key_usage_by_pk@.contains_key(k)) && (old(
                    self,
                ).key_usage_by_pk@.contains_key(k) ==> final(self).key_usage_by_pk@[k] == old(
                    self,
                ).key_usage_by_pk@[k]),
            final(self).session_keys@ == old(self).session_keys@,
            final(self).bundler@ == old(self).bundler@,
            final(self).app_balances@ == old(self).app_balances@,
            final(self).oracle_account_id == old(self).oracle_account_id,
            final(self).mpc_contract == old(self).mpc_contract,
    {
        match self.key_usage_by_pk.take(&session_key) {
            Some(mut record) => {
                record.usage_stats.record(day_epoch, method, target, gas_cost, value);
                self.key_usage_by_pk.insert(session_key, record);
            },
            None => unreached(),
        }
    }

    /// Runs the synchronous half of an authorized action: authenticates
    /// the request, refuses a target that is not a well-formed account
    /// identifier, resolves the session key's bundle, debits the value
    /// the action moves, compiles the destination-chain transaction and
    /// its signing digest, and counts the action against the key's usage
    /// record.  Returns the signing request to send out and the
    /// continuation state for the callback.
    ///
    /// The debit is not rolled back if the asynchronous half later
    /// fails: value spent on an abandoned action stays spent.
    pub fn execute_near_action(
        &mut self,
        attached: u128,
        day_epoch: u64,
        signature: Vec<u8>,
        payload: NearPayload,
        session_key: Vec<u8>,
        app_id: String,
    ) -> (r: Result<(SignRequest, PendingSign), Error>)
        requires
            old(self).wf(),
            payload.wf(),
        ensures
            final(self).wf(),
            ({
                let auth_ok = session_key@.len() == 33 && signature@.len() == 64 && ed25519_valid(
                    session_key@.skip(1),
                    canonical_payload(payload),
                    signature@,
                );
                let target_ok = valid_account_id(action_target(payload.action));
                let key_known = old(self).key_usage_by_pk@.contains_key(session_key@);
                let upath = old(self).key_usage_by_pk@[session_key@].path@;
                let bundle_known = old(self).bundler@.contains_key(upath);
                let value = action_value(payload.action);
                let fits = old(self).spec_balance(app_id@) + attached <= u128::MAX;
                let covered = old(self).spec_balance(app_id@) + attached >= value;
                &&& (r matches Ok(_) <==> auth_ok && target_ok && key_known && bundle_known && (
                value == 0 || (fits && covered)))
                &&& (r matches Err(e) ==> *final(self) == *old(self) && {
                    &&& (e == Error::InvalidSignature <==> !auth_ok)
                    &&& (e == Error::InvalidEncoding <==> auth_ok && !target_ok)
                    &&& (e == Error::Unauthorized <==> auth_ok && target_ok && (!key_known
                        || !bundle_known))
                    &&& (e == Error::Overflow <==> auth_ok && target_ok && key_known
                        && bundle_known && value > 0 && !fits)
                    &&& (e == Error::InsufficientBalance <==> auth_ok && target_ok && key_known
                        && bundle_known && value > 0 && fits && !covered)
                })
                &&& (r matches Ok(p) ==> {
                    let tx = p.1.evm_transaction;
                    let bundle = old(self).bundler@[upath];
                    &&& tx.chain_id == NEAR_EVM_CHAIN_ID
                    &&& tx.nonce == payload.nonce
                    &&& tx.to@ == derived_address_of(encode_utf8(action_target(payload.action)))
                    &&& tx.value == action_value(payload.action) / VALUE_UNIT
                    &&& tx.input@ == action_input(payload.action)
                    &&& tx.gas_limit == converted_gas(action_gas(payload.action))
                    &&& tx.max_fee_per_gas == 1
                    &&& tx.max_priority_fee_per_gas == 1
                    &&& p.0.payload_digest@ == keccak_of(signing_payload(tx))
                    &&& p.0.payload_digest@.len() == 32
                    &&& p.0.path@ == bundle.path@
                    &&& p.1.wallet_account_id@ == bundle.eth_address@
                    &&& p.1.target_account_id@ == action_target(payload.action)
                    &&& valid_account_id(p.1.target_account_id@)
                    &&& p.1.deposit == action_value(payload.action)
                    &&& (value > 0 ==> final(self).app_balances@ =~= old(
                        self,
                    ).app_balances@.insert(
                        app_id@,
                        (old(self).spec_balance(app_id@) + attached - value) as u128,
                    ))
                    &&& (value == 0 ==> final(self).app_balances@ == old(self).app_balances@)
                    &&& final(self).key_usage_by_pk@.contains_key(session_key@)
                    &&& stats_recorded(
                        old(self).key_usage_by_pk@[session_key@].usage_stats,
                        final(self).key_usage_by_pk@[session_key@].usage_stats,
                        day_epoch,
                        action_method(payload.action),
                        action_target(payload.action),
                        action_gas(payload.action) as u128,
                        action_value(payload.action),
                    )
                    &&& forall|k: Seq<u8>|
                        k != session_key@ ==> (#[trigger] final(self).key_usage_by_pk@.contains_key(
                            k,
                        ) <==> old(self).key_usage_by_pk@.contains_key(k)) && (old(
                            self,
                        ).key_usage_by_pk@.contains_key(k) ==> final(self).key_usage_by_pk@[k]
                            == old(self).key_usage_by_pk@[k])
                    &&& final(self).session_keys@ == old(self).session_keys@
                    &&& final(self).bundler@ == old(self).bundler@
                })
            }),
            final(self).oracle_account_id == old(self).oracle_account_id,
            final(self).mpc_contract == old(self).mpc_contract,
    {
        match self.assert_valid_signature(&payload, &signature, &session_key) {
            Ok(_) => {},
            Err(e) => {
                return Err(e);
            },
        }
        let target_is_valid = match &payload.action {
            NearAction::FunctionCall { contract_id, .. } => is_valid_account_id(
                contract_id.as_str(),
            ),
            NearAction::Transfer { receiver_id, .. } => is_valid_account_id(receiver_id.as_str()),
        };
        if !target_is_valid {
            return Err(Error::InvalidEncoding);
        }
        let user_path = match self.key_usage_by_pk.get(&session_key) {
            Some(record) => record.path.clone(),
            None => {
                return Err(Error::Unauthorized);
            },
        };
        let (bundle_path, wallet_account_id) = match self.bundler.get(&user_path) {
            Some(bundle) => (bundle.path.clone(), bundle.eth_address.clone()),
            None => {
                return Err(Error::Unauthorized);
            },
        };
        let NearPayload { action, nonce } = payload;
        let (input_data, contract_address, value_in_wei, host_gas, moved_value, target, method) =
            match action {
            NearAction::FunctionCall { contract_id, method_name, args, gas, deposit } => {
                if deposit != 0 {
                    match self.debit(attached, deposit, app_id) {
                        Ok(_) => {},
                        Err(e) => {
                            return Err(e);
                        },
                    }
                }
                let (value_in_wei, yocto_near) = convert_deposit(deposit);
                let input_data = encode_function_call(
                    contract_id.as_str(),
                    method_name.as_str(),
                    args.as_slice(),
                    gas,
                    yocto_near,
                );
                let contract_address = account_id_to_eth_address(contract_id.as_str());
                (
                    input_data,
                    contract_address,
                    value_in_wei,
                    gas,
                    deposit,
                    contract_id,
                    Some(method_name),
                )
            },
            NearAction::Transfer { receiver_id, amount } => {
                if amount != 0 {
                    match self.debit(attached, amount, app_id) {
                        Ok(_) => {},
                        Err(e) => {
                            return Err(e);
                        },
                    }
                }
                let (value_in_wei, yocto_near) = convert_deposit(amount);
                let input_data = encode_transfer(receiver_id.as_str(), yocto_near);
                let contract_address = account_id_to_eth_address(receiver_id.as_str());
                (input_data, contract_address, value_in_wei, TRANSFER_GAS, amount, receiver_id, None)
            },
        };
        let evm_gas_limit = near_gas_to_evm_gas(host_gas);
        let evm_transaction = build_evm_transaction(
            NEAR_EVM_CHAIN_ID,
            nonce,
            evm_gas_limit,
            contract_address,
            value_in_wei,
            input_data,
        );
        let tx_bytes = evm_transaction.build_for_signing();
        let payload_digest = keccak256(tx_bytes.as_slice());
        self.record_usage(
            session_key,
            day_epoch,
            match &method {
                Some(m) => Some(m),
                None => None,
            },
            &target,
            host_gas as u128,
            moved_value,
        );
        Ok(
            (
                SignRequest { payload_digest, path: bundle_path },
                PendingSign {
                    evm_transaction,
                    wallet_account_id,
                    target_account_id: target,
                    deposit: moved_value,
                },
            ),
        )
    }
}

} // verus!
