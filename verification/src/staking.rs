//! Staking actions read out of a transaction's JSON view: delegations,
//! undelegations and undelegation claims, and the rows the indexer stores for them.
use vstd::prelude::*;

use crate::decimal::{decimal_text, decimal_text_reads_back, parse_i64, parsed_i64};
use crate::json::JsonValue;

verus! {

/// Blocks between the start of an unbonding and the height at which it is released.
pub const UNBONDING_BLOCKS: i64 = 120960;

// ---------------------------------------------------------------------------
// Reading fields
// ---------------------------------------------------------------------------

/// The text at `v[outer][inner]`, where that is a string.
pub open spec fn text_at(v: JsonValue, outer: Seq<char>, inner: Seq<char>) -> Option<Seq<char>> {
    match v.spec_get(outer) {
        Some(o) => match o.spec_get(inner) {
            Some(i) => i.spec_as_str(),
            None => None,
        },
        None => None,
    }
}

/// The number written as decimal text at `v[outer][inner]`.
pub open spec fn number_at(v: JsonValue, outer: Seq<char>, inner: Seq<char>) -> Option<i64> {
    match text_at(v, outer, inner) {
        Some(t) => parsed_i64(t),
        None => None,
    }
}

/// The number written as decimal text at `v[key]`.
pub open spec fn number_under(v: JsonValue, key: Seq<char>) -> Option<i64> {
    match v.spec_get(key) {
        Some(o) => match o.spec_as_str() {
            Some(t) => parsed_i64(t),
            None => None,
        },
        None => None,
    }
}

fn read_text<'a>(v: &'a JsonValue, outer: &str, inner: &str) -> (r: Option<&'a String>)
    ensures
        match r {
            Some(t) => text_at(*v, outer@, inner@) == Some(t@),
            None => text_at(*v, outer@, inner@) is None,
        },
{
    match v.get(outer) {
        Some(o) => match o.get(inner) {
            Some(i) => i.as_str(),
            None => None,
        },
        None => None,
    }
}

fn read_number(v: &JsonValue, outer: &str, inner: &str) -> (r: Option<i64>)
    ensures
        r == number_at(*v, outer@, inner@),
{
    match read_text(v, outer, inner) {
        Some(t) => parse_i64(t.as_str()),
        None => None,
    }
}

fn read_number_under(v: &JsonValue, key: &str) -> (r: Option<i64>)
    ensures
        r == number_under(*v, key@),
{
    match v.get(key) {
        Some(o) => match o.as_str() {
            Some(t) => parse_i64(t.as_str()),
            None => None,
        },
        None => None,
    }
}

/// The action views of a transaction: `bodyView.actionViews`, where that is an array.
pub open spec fn spec_action_views(tx_json: JsonValue) -> Option<Seq<JsonValue>> {
    match tx_json.spec_get("bodyView"@) {
        Some(b) => match b.spec_get("actionViews"@) {
            Some(a) => a.spec_as_array(),
            None => None,
        },
        None => None,
    }
}

/// The action views of a transaction, or `None` where the transaction has none to read.
pub fn action_views(tx_json: &JsonValue) -> (r: Option<&Vec<JsonValue>>)
    ensures
        match r {
            Some(vs) => spec_action_views(*tx_json) == Some(vs@),
            None => spec_action_views(*tx_json) is None,
        },
{
    match tx_json.get("bodyView") {
        Some(b) => match b.get("actionViews") {
            Some(a) => a.as_array(),
            None => None,
        },
        None => None,
    }
}

// ---------------------------------------------------------------------------
// Delegations
// ---------------------------------------------------------------------------

/// The fields of a delegate action that the indexer keeps.
#[derive(Clone, Debug, PartialEq, Eq)]
pub struct DelegateAction {
    pub validator_ik: String,
    pub delegation_amount: i64,
    pub unbonded_amount: i64,
    pub epoch_index: i64,
}

impl View for DelegateAction {
    /// (validator identity key, delegation amount, unbonded amount, epoch index)
    type V = (Seq<char>, i64, i64, i64);

    open spec fn view(&self) -> Self::V {
        (self.validator_ik@, self.delegation_amount, self.unbonded_amount, self.epoch_index)
    }
}

/// A delegate action is complete when it carries the validator's identity key
/// and, as decimal text, the delegation amount, the unbonded amount and the epoch index.
pub open spec fn spec_delegate_action(d: JsonValue) -> Option<(Seq<char>, i64, i64, i64)> {
    match (
        text_at(d, "validatorIdentity"@, "ik"@),
        number_at(d, "delegationAmount"@, "lo"@),
        number_at(d, "unbondedAmount"@, "lo"@),
        number_at(d, "fromEpoch"@, "index"@),
    ) {
        (Some(ik), Some(da), Some(ua), Some(ei)) => Some((ik, da, ua, ei)),
        _ => None,
    }
}

/// Reads a delegate action; `None` where any of its fields is missing or not a number.
pub fn read_delegate(delegate: &JsonValue) -> (r: Option<DelegateAction>)
    ensures
        match r {
            Some(a) => spec_delegate_action(*delegate) == Some(a@),
            None => spec_delegate_action(*delegate) is None,
        },
{
    let validator_ik = read_text(delegate, "validatorIdentity", "ik");
    let delegation_amount = read_number(delegate, "delegationAmount", "lo");
    let unbonded_amount = read_number(delegate, "unbondedAmount", "lo");
    let epoch_index = read_number(delegate, "fromEpoch", "index");
    match (validator_ik, delegation_amount, unbonded_amount, epoch_index) {
        (Some(ik), Some(da), Some(ua), Some(ei)) => Some(
            DelegateAction {
                validator_ik: ik.clone(),
                delegation_amount: da,
                unbonded_amount: ua,
                epoch_index: ei,
            },
        ),
        _ => None,
    }
}

/// The complete delegate actions among `views`, in order.
pub open spec fn spec_delegates_in(views: Seq<JsonValue>) -> Seq<(Seq<char>, i64, i64, i64)>
    decreases views.len(),
{
    if views.len() == 0 {
        seq![]
    } else {
        let rest = spec_delegates_in(views.drop_last());
        match views.last().spec_get("delegate"@) {
            Some(d) => match spec_delegate_action(d) {
                Some(a) => rest.push(a),
                None => rest,
            },
            None => rest,
        }
    }
}

/// The complete delegate actions of a transaction, in the order of its action views.
pub open spec fn spec_tx_delegates(tx_json: JsonValue) -> Seq<(Seq<char>, i64, i64, i64)> {
    match spec_action_views(tx_json) {
        Some(views) => spec_delegates_in(views),
        None => seq![],
    }
}

/// The delegate actions of a transaction that the indexer stores: one for each
/// action view with a complete `delegate`, in order; the others are skipped.
pub fn delegate_actions(tx_json: &JsonValue) -> (r: Vec<DelegateAction>)
    ensures
        r@.map_values(|a: DelegateAction| a@) == spec_tx_delegates(*tx_json),
{
    let mut out: Vec<DelegateAction> = Vec::new();
    let views = match action_views(tx_json) {
        Some(vs) => vs,
        None => {
            assert(out@.map_values(|a: DelegateAction| a@) =~= seq![]);
            return out;
        },
    };
    let mut i: usize = 0;
    while i < views.len()
        invariant
            0 <= i <= views.len(),
            spec_action_views(*tx_json) == Some(views@),
            out@.map_values(|a: DelegateAction| a@) == spec_delegates_in(views@.take(i as int)),
        decreases views.len() - i,
    {
        proof {
            assert(views@.take(i + 1).drop_last() =~= views@.take(i as int));
            assert(views@.take(i + 1).last() == views@[i as int]);
        }
        if let Some(d) = views[i].get("delegate") {
            if let Some(a) = read_delegate(d) {
                let ghost before = out@;
                out.push(a);
                proof {
                    assert(out@.map_values(|a: DelegateAction| a@) =~= before.map_values(
                        |a: DelegateAction| a@,
                    ).push(a@));
                }
            }
        }
        i = i + 1;
    }
    proof {
        assert(views@.take(views@.len() as int) =~= views@);
    }
    out
}

// ---------------------------------------------------------------------------
// Undelegations
// ---------------------------------------------------------------------------

/// The fields of an undelegate action that the indexer keeps.
#[derive(Clone, Debug, PartialEq, Eq)]
pub struct UndelegateAction {
    pub validator_ik: String,
    pub delegation_amount: i64,
    pub unbonded_amount: i64,
    pub epoch_index: i64,
    pub unbonding_start_height: i64,
}

impl View for UndelegateAction {
    /// (validator identity key, delegation amount, unbonded amount, epoch index,
    /// unbonding start height)
    type V = (Seq<char>, i64, i64, i64, i64);

    open spec fn view(&self) -> Self::V {
        (
            self.validator_ik@,
            self.delegation_amount,
            self.unbonded_amount,
            self.epoch_index,
            self.unbonding_start_height,
        )
    }
}

/// An undelegate action is complete when it carries what a delegate action
/// carries and, as decimal text, the start height of its epoch.
pub open spec fn spec_undelegate_action(u: JsonValue) -> Option<(Seq<char>, i64, i64, i64, i64)> {
    match (
        text_at(u, "validatorIdentity"@, "ik"@),
        number_at(u, "delegationAmount"@, "lo"@),
        number_at(u, "unbondedAmount"@, "lo"@),
        number_at(u, "fromEpoch"@, "index"@),
        number_at(u, "fromEpoch"@, "startHeight"@),
    ) {
        (Some(ik), Some(da), Some(ua), Some(ei), Some(sh)) => Some((ik, da, ua, ei, sh)),
        _ => None,
    }
}

/// Reads an undelegate action; `None` where any of its fields is missing or not a number.
pub fn read_undelegate(undelegate: &JsonValue) -> (r: Option<UndelegateAction>)
    ensures
        match r {
            Some(a) => spec_undelegate_action(*undelegate) == Some(a@),
            None => spec_undelegate_action(*undelegate) is None,
        },
{
    let validator_ik = read_text(undelegate, "validatorIdentity", "ik");
    let delegation_amount = read_number(undelegate, "delegationAmount", "lo");
    let unbonded_amount = read_number(undelegate, "unbondedAmount", "lo");
    let epoch_index = read_number(undelegate, "fromEpoch", "index");
    let unbonding_start_height = read_number(undelegate, "fromEpoch", "startHeight");
    match (validator_ik, delegation_amount, unbonded_amount, epoch_index, unbonding_start_height) {
        (Some(ik), Some(da), Some(ua), Some(ei), Some(sh)) => Some(
            UndelegateAction {
                validator_ik: ik.clone(),
                delegation_amount: da,
                unbonded_amount: ua,
                epoch_index: ei,
                unbonding_start_height: sh,
            },
        ),
        _ => None,
    }
}

/// The complete undelegate actions among `views`, in order.
pub open spec fn spec_undelegates_in(views: Seq<JsonValue>) -> Seq<(Seq<char>, i64, i64, i64, i64)>
    decreases views.len(),
{
    if views.len() == 0 {
        seq![]
    } else {
        let rest = spec_undelegates_in(views.drop_last());
        match views.last().spec_get("undelegate"@) {
            Some(u) => match spec_undelegate_action(u) {
                Some(a) => rest.push(a),
                None => rest,
            },
            None => rest,
        }
    }
}

/// The complete undelegate actions of a transaction, in the order of its action views.
pub open spec fn spec_tx_undelegates(tx_json: JsonValue) -> Seq<(Seq<char>, i64, i64, i64, i64)> {
    match spec_action_views(tx_json) {
        Some(views) => spec_undelegates_in(views),
        None => seq![],
    }
}

/// The undelegate actions of a transaction that the indexer stores: one for each
/// action view with a complete `undelegate`, in order; the others are skipped.
pub fn undelegate_actions(tx_json: &JsonValue) -> (r: Vec<UndelegateAction>)
    ensures
        r@.map_values(|a: UndelegateAction| a@) == spec_tx_undelegates(*tx_json),
{
    let mut out: Vec<UndelegateAction> = Vec::new();
    let views = match action_views(tx_json) {
        Some(vs) => vs,
        None => {
            assert(out@.map_values(|a: UndelegateAction| a@) =~= seq![]);
            return out;
        },
    };
    let mut i: usize = 0;
    while i < views.len()
        invariant
            0 <= i <= views.len(),
            spec_action_views(*tx_json) == Some(views@),
            out@.map_values(|a: UndelegateAction| a@) == spec_undelegates_in(views@.take(i as int)),
        decreases views.len() - i,
    {
        proof {
            assert(views@.take(i + 1).drop_last() =~= views@.take(i as int));
            assert(views@.take(i + 1).last() == views@[i as int]);
        }
        if let Some(u) = views[i].get("undelegate") {
            if let Some(a) = read_undelegate(u) {
                let ghost before = out@;
                out.push(a);
                proof {
                    assert(out@.map_values(|a: UndelegateAction| a@) =~= before.map_values(
                        |a: UndelegateAction| a@,
                    ).push(a@));
                }
            }
        }
        i = i + 1;
    }
    proof {
        assert(views@.take(views@.len() as int) =~= views@);
    }
    out
}

// ---------------------------------------------------------------------------
// Undelegation claims
// ---------------------------------------------------------------------------

/// The fields of an undelegate claim that mark an undelegation as claimed.
#[derive(Clone, Debug, PartialEq, Eq)]
pub struct UndelegateClaim {
    pub validator_ik: String,
    pub unbonding_start_height: i64,
}

impl View for UndelegateClaim {
    /// (validator identity key, unbonding start height)
    type V = (Seq<char>, i64);

    open spec fn view(&self) -> Self::V {
        (self.validator_ik@, self.unbonding_start_height)
    }
}

/// An undelegate claim is complete when its body carries the validator's identity
/// key and, as decimal text, the unbonding start height.
pub open spec fn spec_undelegate_claim(claim: JsonValue) -> Option<(Seq<char>, i64)> {
    match claim.spec_get("body"@) {
        Some(body) => match (
            text_at(body, "validatorIdentity"@, "ik"@),
            number_under(body, "unbondingStartHeight"@),
        ) {
            (Some(ik), Some(sh)) => Some((ik, sh)),
            _ => None,
        },
        None => None,
    }
}

/// Reads an undelegate claim; `None` where its body or a field of it is missing.
pub fn read_undelegate_claim(claim: &JsonValue) -> (r: Option<UndelegateClaim>)
    ensures
        match r {
            Some(c) => spec_undelegate_claim(*claim) == Some(c@),
            None => spec_undelegate_claim(*claim) is None,
        },
{
    match claim.get("body") {
        Some(body) => {
            let validator_ik = read_text(body, "validatorIdentity", "ik");
            let unbonding_start_height = read_number_under(body, "unbondingStartHeight");
            match (validator_ik, unbonding_start_height) {
                (Some(ik), Some(sh)) => Some(
                    UndelegateClaim { validator_ik: ik.clone(), unbonding_start_height: sh },
                ),
                _ => None,
            }
        },
        None => None,
    }
}

/// The complete undelegate claims among `views`, in order.
pub open spec fn spec_claims_in(views: Seq<JsonValue>) -> Seq<(Seq<char>, i64)>
    decreases views.len(),
{
    if views.len() == 0 {
        seq![]
    } else {
        let rest = spec_claims_in(views.drop_last());
        match views.last().spec_get("undelegateClaim"@) {
            Some(c) => match spec_undelegate_claim(c) {
                Some(a) => rest.push(a),
                None => rest,
            },
            None => rest,
        }
    }
}

/// The complete undelegate claims of a transaction, in the order of its action views.
pub open spec fn spec_tx_claims(tx_json: JsonValue) -> Seq<(Seq<char>, i64)> {
    match spec_action_views(tx_json) {
        Some(views) => spec_claims_in(views),
        None => seq![],
    }
}

/// The undelegate claims of a transaction that mark undelegations as claimed:
/// one for each action view with a complete `undelegateClaim`, in order.
pub fn undelegate_claims(tx_json: &JsonValue) -> (r: Vec<UndelegateClaim>)
    ensures
        r@.map_values(|c: UndelegateClaim| c@) == spec_tx_claims(*tx_json),
{
    let mut out: Vec<UndelegateClaim> = Vec::new();
    let views = match action_views(tx_json) {
        Some(vs) => vs,
        None => {
            assert(out@.map_values(|c: UndelegateClaim| c@) =~= seq![]);
            return out;
        },
    };
    let mut i: usize = 0;
    while i < views.len()
        invariant
            0 <= i <= views.len(),
            spec_action_views(*tx_json) == Some(views@),
            out@.map_values(|c: UndelegateClaim| c@) == spec_claims_in(views@.take(i as int)),
        decreases views.len() - i,
    {
        proof {
            assert(views@.take(i + 1).drop_last() =~= views@.take(i as int));
            assert(views@.take(i + 1).last() == views@[i as int]);
        }
        if let Some(c) = views[i].get("undelegateClaim") {
            if let Some(a) = read_undelegate_claim(c) {
                let ghost before = out@;
                out.push(a);
                proof {
                    assert(out@.map_values(|c: UndelegateClaim| c@) =~= before.map_values(
                        |c: UndelegateClaim| c@,
                    ).push(a@));
                }
            }
        }
        i = i + 1;
    }
    proof {
        assert(views@.take(views@.len() as int) =~= views@);
    }
    out
}


// ---------------------------------------------------------------------------
// Rows
// ---------------------------------------------------------------------------

/// The height stored for a block: its own height where that fits in an `i64`, else 0.
pub open spec fn stored_block_height(height: u64) -> i64 {
    if height <= i64::MAX as u64 {
        height as i64
    } else {
        0
    }
}

/// Converts a block height for storage: kept where it fits in an `i64`, else 0.
pub fn block_height_to_i64(height: u64) -> (r: i64)
    ensures
        r == stored_block_height(height),
{
    if height <= i64::MAX as u64 {
        height as i64
    } else {
        0
    }
}

/// The row stored for a delegation; `T` is the type of the transaction's timestamp.
#[derive(Clone, Debug, PartialEq, Eq)]
pub struct DelegateRecord<T> {
    pub tx_hash: [u8; 32],
    pub validator_address: String,
    pub delegation_amount: i64,
    pub unbonded_amount: i64,
    pub epoch_index: i64,
    pub block_height: i64,
    pub timestamp: T,
}

/// The row stored for a delegate action of transaction `tx_hash`, made at
/// `timestamp`, given the outcome of turning the validator's identity key into its
/// address: none where that failed.
pub fn delegate_row<E, T>(
    tx_hash: [u8; 32],
    action: DelegateAction,
    validator_address: Result<String, E>,
    block_height: u64,
    timestamp: T,
) -> (r: Option<DelegateRecord<T>>)
    ensures
        match validator_address {
            Ok(address) => r matches Some(row) && {
                &&& row.tx_hash == tx_hash
                &&& row.validator_address@ == address@
                &&& row.delegation_amount == action.delegation_amount
                &&& row.unbonded_amount == action.unbonded_amount
                &&& row.epoch_index == action.epoch_index
                &&& row.block_height == stored_block_height(block_height)
                &&& row.timestamp == timestamp
            },
            Err(_) => r is None,
        },
{
    match validator_address {
        Ok(address) => Some(
            DelegateRecord {
                tx_hash,
                validator_address: address,
                delegation_amount: action.delegation_amount,
                unbonded_amount: action.unbonded_amount,
                epoch_index: action.epoch_index,
                block_height: block_height_to_i64(block_height),
                timestamp,
            },
        ),
        Err(_) => None,
    }
}

/// The height at which an undelegation that started unbonding at
/// `unbonding_start_height` is released, where that fits in an `i64`.
pub fn release_height(unbonding_start_height: i64) -> (r: Option<i64>)
    ensures
        r == (if unbonding_start_height + UNBONDING_BLOCKS <= i64::MAX {
            Some((unbonding_start_height + UNBONDING_BLOCKS) as i64)
        } else {
            None
        }),
{
    if unbonding_start_height <= i64::MAX - UNBONDING_BLOCKS {
        Some(unbonding_start_height + UNBONDING_BLOCKS)
    } else {
        None
    }
}

/// The row stored for an undelegation; `T` is the type of the transaction's timestamp.
#[derive(Clone, Debug, PartialEq, Eq)]
pub struct UndelegateRecord<T> {
    pub tx_hash: [u8; 32],
    pub validator_address: String,
    pub delegation_amount: i64,
    pub unbonded_amount: i64,
    pub epoch_index: i64,
    pub unbonding_start_height: i64,
    pub release_height: i64,
    pub block_height: i64,
    pub timestamp: T,
    pub claimed: bool,
}

/// The row stored for an undelegate action of transaction `tx_hash`, made at
/// `timestamp`, given the outcome of turning the validator's identity key into its
/// address: none where that failed. It is released `UNBONDING_BLOCKS` after its
/// unbonding starts, and it is stored unclaimed.
pub fn undelegate_row<E, T>(
    tx_hash: [u8; 32],
    action: UndelegateAction,
    validator_address: Result<String, E>,
    block_height: u64,
    timestamp: T,
) -> (r: Option<UndelegateRecord<T>>)
    requires
        validator_address is Ok ==> action.unbonding_start_height + UNBONDING_BLOCKS <= i64::MAX,
    ensures
        match validator_address {
            Ok(address) => r matches Some(row) && {
                &&& row.tx_hash == tx_hash
                &&& row.validator_address@ == address@
                &&& row.delegation_amount == action.delegation_amount
                &&& row.unbonded_amount == action.unbonded_amount
                &&& row.epoch_index == action.epoch_index
                &&& row.unbonding_start_height == action.unbonding_start_height
                &&& row.release_height == action.unbonding_start_height + UNBONDING_BLOCKS
                &&& row.block_height == stored_block_height(block_height)
                &&& row.timestamp == timestamp
                &&& !row.claimed
            },
            Err(_) => r is None,
        },
{
    match validator_address {
        Ok(address) => Some(
            UndelegateRecord {
                tx_hash,
                validator_address: address,
                delegation_amount: action.delegation_amount,
                unbonded_amount: action.unbonded_amount,
                epoch_index: action.epoch_index,
                unbonding_start_height: action.unbonding_start_height,
                release_height: action.unbonding_start_height + UNBONDING_BLOCKS,
                block_height: block_height_to_i64(block_height),
                timestamp,
                claimed: false,
            },
        ),
        Err(_) => None,
    }
}

/// The undelegation that a claim marks as claimed: the validator's address and
/// the height at which its unbonding started.
#[derive(Clone, Debug, PartialEq, Eq)]
pub struct ClaimedUndelegation {
    pub validator_address: String,
    pub unbonding_start_height: i64,
}

/// The undelegation an undelegate claim marks, given the outcome of turning the
/// validator's identity key into its address: none where that failed.
pub fn claimed_undelegation<E>(claim: UndelegateClaim, validator_address: Result<String, E>) -> (r:
    Option<ClaimedUndelegation>)
    ensures
        match validator_address {
            Ok(address) => r matches Some(c) && c.validator_address@ == address@
                && c.unbonding_start_height == claim.unbonding_start_height,
            Err(_) => r is None,
        },
{
    match validator_address {
        Ok(address) => Some(
            ClaimedUndelegation {
                validator_address: address,
                unbonding_start_height: claim.unbonding_start_height,
            },
        ),
        Err(_) => None,
    }
}

// ---------------------------------------------------------------------------
// Laws
// ---------------------------------------------------------------------------

/// An undelegate action reads as a delegate action too: where an action value
/// is a complete undelegation, it is a complete delegation with the same
/// validator key, amounts and epoch index.
pub proof fn undelegation_reads_as_delegation(action: JsonValue)
    ensures
        spec_undelegate_action(action) matches Some(u) ==> spec_delegate_action(action) == Some(
            (u.0, u.1, u.2, u.3),
        ),
{
}

/// Each action view gives at most one stored delegation, at most one stored
/// undelegation and at most one claim.
pub proof fn at_most_one_row_per_action_view(views: Seq<JsonValue>)
    ensures
        spec_delegates_in(views).len() <= views.len(),
        spec_undelegates_in(views).len() <= views.len(),
        spec_claims_in(views).len() <= views.len(),
    decreases views.len(),
{
    if views.len() > 0 {
        at_most_one_row_per_action_view(views.drop_last());
    }
}

/// The rows of a transaction are those of its action views taken one after the
/// other: the actions found in `front + back` are those found in `front`
/// followed by those found in `back`.
pub proof fn actions_of_joined_views(front: Seq<JsonValue>, back: Seq<JsonValue>)
    ensures
        spec_delegates_in(front + back) == spec_delegates_in(front) + spec_delegates_in(back),
        spec_undelegates_in(front + back) == spec_undelegates_in(front) + spec_undelegates_in(
            back,
        ),
        spec_claims_in(front + back) == spec_claims_in(front) + spec_claims_in(back),
    decreases back.len(),
{
    if back.len() == 0 {
        assert(front + back =~= front);
        assert(spec_delegates_in(front) + spec_delegates_in(back) =~= spec_delegates_in(front));
        assert(spec_undelegates_in(front) + spec_undelegates_in(back) =~= spec_undelegates_in(
            front,
        ));
        assert(spec_claims_in(front) + spec_claims_in(back) =~= spec_claims_in(front));
    } else {
        actions_of_joined_views(front, back.drop_last());
        assert((front + back).drop_last() =~= front + back.drop_last());
        assert((front + back).last() == back.last());
        let d1 = spec_delegates_in(front);
        let d2 = spec_delegates_in(back.drop_last());
        let u1 = spec_undelegates_in(front);
        let u2 = spec_undelegates_in(back.drop_last());
        let c1 = spec_claims_in(front);
        let c2 = spec_claims_in(back.drop_last());
        match back.last().spec_get("delegate"@) {
            Some(d) => match spec_delegate_action(d) {
                Some(a) => {
                    assert(d1 + d2.push(a) =~= (d1 + d2).push(a));
                },
                None => {},
            },
            None => {},
        }
        match back.last().spec_get("undelegate"@) {
            Some(d) => match spec_undelegate_action(d) {
                Some(a) => {
                    assert(u1 + u2.push(a) =~= (u1 + u2).push(a));
                },
                None => {},
            },
            None => {},
        }
        match back.last().spec_get("undelegateClaim"@) {
            Some(d) => match spec_undelegate_claim(d) {
                Some(a) => {
                    assert(c1 + c2.push(a) =~= (c1 + c2).push(a));
                },
                None => {},
            },
            None => {},
        }
    }
}


/// A claim that names the validator key of an undelegation and writes its
/// unbonding start height as decimal text reads back as that undelegation's key
/// and start height, so it marks the row stored for that undelegation.
pub proof fn claim_reads_back_undelegation(
    undelegation: JsonValue,
    claim: JsonValue,
    validator_ik: Seq<char>,
    start_height: i64,
    start_height_text: String,
)
    requires
        spec_undelegate_action(undelegation) matches Some(u) && u.0 == validator_ik && u.4
            == start_height,
        claim.spec_get("body"@) matches Some(body) && {
            &&& text_at(body, "validatorIdentity"@, "ik"@) == Some(validator_ik)
            &&& body.spec_get("unbondingStartHeight"@) == Some(JsonValue::Str(start_height_text))
        },
        start_height_text@ == decimal_text(start_height as int),
    ensures
        spec_undelegate_claim(claim) == Some((validator_ik, start_height)),
{
    decimal_text_reads_back(start_height);
}


/// A delegate action whose key is text and whose amounts and epoch index are
/// written as the decimal text of any `i64` values reads as exactly those values.
pub proof fn delegation_reads_back(d: JsonValue, ik: Seq<char>, da: i64, ua: i64, ei: i64)
    requires
        text_at(d, "validatorIdentity"@, "ik"@) == Some(ik),
        text_at(d, "delegationAmount"@, "lo"@) == Some(decimal_text(da as int)),
        text_at(d, "unbondedAmount"@, "lo"@) == Some(decimal_text(ua as int)),
        text_at(d, "fromEpoch"@, "index"@) == Some(decimal_text(ei as int)),
    ensures
        spec_delegate_action(d) == Some((ik, da, ua, ei)),
{
    decimal_text_reads_back(da);
    decimal_text_reads_back(ua);
    decimal_text_reads_back(ei);
}

/// An undelegate action whose key is text and whose amounts, epoch index and
/// start height are written as the decimal text of any `i64` values reads as
/// exactly those values.
pub proof fn undelegation_reads_back(
    u: JsonValue,
    ik: Seq<char>,
    da: i64,
    ua: i64,
    ei: i64,
    sh: i64,
)
    requires
        text_at(u, "validatorIdentity"@, "ik"@) == Some(ik),
        text_at(u, "delegationAmount"@, "lo"@) == Some(decimal_text(da as int)),
        text_at(u, "unbondedAmount"@, "lo"@) == Some(decimal_text(ua as int)),
        text_at(u, "fromEpoch"@, "index"@) == Some(decimal_text(ei as int)),
        text_at(u, "fromEpoch"@, "startHeight"@) == Some(decimal_text(sh as int)),
    ensures
        spec_undelegate_action(u) == Some((ik, da, ua, ei, sh)),
{
    decimal_text_reads_back(da);
    decimal_text_reads_back(ua);
    decimal_text_reads_back(ei);
    decimal_text_reads_back(sh);
}

/// An undelegate claim whose body holds a key as text, of any length, and a start
/// height written as the decimal text of any `i64` reads as that key and height.
pub proof fn claim_reads_back(claim: JsonValue, body: JsonValue, ik: Seq<char>, sh: i64)
    requires
        claim.spec_get("body"@) == Some(body),
        text_at(body, "validatorIdentity"@, "ik"@) == Some(ik),
        body.spec_get("unbondingStartHeight"@) matches Some(h) && h.spec_as_str() == Some(
            decimal_text(sh as int),
        ),
    ensures
        spec_undelegate_claim(claim) == Some((ik, sh)),
{
    decimal_text_reads_back(sh);
}

/// One more action view with a complete delegate adds exactly that delegation at the end.
pub proof fn delegations_of_one_more_view(
    views: Seq<JsonValue>,
    view: JsonValue,
    member: JsonValue,
    action: (Seq<char>, i64, i64, i64),
)
    requires
        view.spec_get("delegate"@) == Some(member),
        spec_delegate_action(member) == Some(action),
    ensures
        spec_delegates_in(views.push(view)) == spec_delegates_in(views).push(action),
{
    let all = views.push(view);
    assert(all.drop_last() =~= views);
    assert(all.last() == view);
}

/// One more action view without a complete delegate adds nothing.
pub proof fn delegations_skip_other_views(views: Seq<JsonValue>, view: JsonValue)
    requires
        match view.spec_get("delegate"@) {
            Some(member) => spec_delegate_action(member) is None,
            None => true,
        },
    ensures
        spec_delegates_in(views.push(view)) == spec_delegates_in(views),
{
    let all = views.push(view);
    assert(all.drop_last() =~= views);
    assert(all.last() == view);
}

/// One more action view with a complete undelegate adds exactly that undelegation at the end.
pub proof fn undelegations_of_one_more_view(
    views: Seq<JsonValue>,
    view: JsonValue,
    member: JsonValue,
    action: (Seq<char>, i64, i64, i64, i64),
)
    requires
        view.spec_get("undelegate"@) == Some(member),
        spec_undelegate_action(member) == Some(action),
    ensures
        spec_undelegates_in(views.push(view)) == spec_undelegates_in(views).push(action),
{
    let all = views.push(view);
    assert(all.drop_last() =~= views);
    assert(all.last() == view);
}

/// One more action view without a complete undelegate adds nothing.
pub proof fn undelegations_skip_other_views(views: Seq<JsonValue>, view: JsonValue)
    requires
        match view.spec_get("undelegate"@) {
            Some(member) => spec_undelegate_action(member) is None,
            None => true,
        },
    ensures
        spec_undelegates_in(views.push(view)) == spec_undelegates_in(views),
{
    let all = views.push(view);
    assert(all.drop_last() =~= views);
    assert(all.last() == view);
}

/// One more action view with a complete undelegate claim adds exactly that claim at the end.
pub proof fn claims_of_one_more_view(
    views: Seq<JsonValue>,
    view: JsonValue,
    member: JsonValue,
    action: (Seq<char>, i64),
)
    requires
        view.spec_get("undelegateClaim"@) == Some(member),
        spec_undelegate_claim(member) == Some(action),
    ensures
        spec_claims_in(views.push(view)) == spec_claims_in(views).push(action),
{
    let all = views.push(view);
    assert(all.drop_last() =~= views);
    assert(all.last() == view);
}

/// One more action view without a complete undelegate claim adds nothing.
pub proof fn claims_skip_other_views(views: Seq<JsonValue>, view: JsonValue)
    requires
        match view.spec_get("undelegateClaim"@) {
            Some(member) => spec_undelegate_claim(member) is None,
            None => true,
        },
    ensures
        spec_claims_in(views.push(view)) == spec_claims_in(views),
{
    let all = views.push(view);
    assert(all.drop_last() =~= views);
    assert(all.last() == view);
}

/// A transaction whose one action view holds a delegation written with any `i64`
/// amounts and epoch yields exactly that one delegation.
pub proof fn transaction_with_one_delegation(
    tx_json: JsonValue,
    view: JsonValue,
    d: JsonValue,
    ik: Seq<char>,
    da: i64,
    ua: i64,
    ei: i64,
)
    requires
        spec_action_views(tx_json) == Some(seq![view]),
        view.spec_get("delegate"@) == Some(d),
        text_at(d, "validatorIdentity"@, "ik"@) == Some(ik),
        text_at(d, "delegationAmount"@, "lo"@) == Some(decimal_text(da as int)),
        text_at(d, "unbondedAmount"@, "lo"@) == Some(decimal_text(ua as int)),
        text_at(d, "fromEpoch"@, "index"@) == Some(decimal_text(ei as int)),
    ensures
        spec_tx_delegates(tx_json) == seq![(ik, da, ua, ei)],
{
    delegation_reads_back(d, ik, da, ua, ei);
    delegations_of_one_more_view(seq![], view, d, (ik, da, ua, ei));
    assert(Seq::<JsonValue>::empty().push(view) =~= seq![view]);
    assert(spec_delegates_in(Seq::<JsonValue>::empty()) =~= seq![]);
    assert(seq![].push((ik, da, ua, ei)) =~= seq![(ik, da, ua, ei)]);
}

/// A transaction whose one action view holds an undelegation written with any
/// `i64` amounts, epoch and start height yields exactly that one undelegation.
pub proof fn transaction_with_one_undelegation(
    tx_json: JsonValue,
    view: JsonValue,
    u: JsonValue,
    ik: Seq<char>,
    da: i64,
    ua: i64,
    ei: i64,
    sh: i64,
)
    requires
        spec_action_views(tx_json) == Some(seq![view]),
        view.spec_get("undelegate"@) == Some(u),
        text_at(u, "validatorIdentity"@, "ik"@) == Some(ik),
        text_at(u, "delegationAmount"@, "lo"@) == Some(decimal_text(da as int)),
        text_at(u, "unbondedAmount"@, "lo"@) == Some(decimal_text(ua as int)),
        text_at(u, "fromEpoch"@, "index"@) == Some(decimal_text(ei as int)),
        text_at(u, "fromEpoch"@, "startHeight"@) == Some(decimal_text(sh as int)),
    ensures
        spec_tx_undelegates(tx_json) == seq![(ik, da, ua, ei, sh)],
{
    undelegation_reads_back(u, ik, da, ua, ei, sh);
    undelegations_of_one_more_view(seq![], view, u, (ik, da, ua, ei, sh));
    assert(Seq::<JsonValue>::empty().push(view) =~= seq![view]);
    assert(spec_undelegates_in(Seq::<JsonValue>::empty()) =~= seq![]);
    assert(seq![].push((ik, da, ua, ei, sh)) =~= seq![(ik, da, ua, ei, sh)]);
}

/// A transaction whose one action view holds an undelegate claim with a key of
/// any length and a start height written as decimal text yields exactly that claim.
pub proof fn transaction_with_one_claim(
    tx_json: JsonValue,
    view: JsonValue,
    claim: JsonValue,
    body: JsonValue,
    ik: Seq<char>,
    sh: i64,
)
    requires
        spec_action_views(tx_json) == Some(seq![view]),
        view.spec_get("undelegateClaim"@) == Some(claim),
        claim.spec_get("body"@) == Some(body),
        text_at(body, "validatorIdentity"@, "ik"@) == Some(ik),
        body.spec_get("unbondingStartHeight"@) matches Some(h) && h.spec_as_str() == Some(
            decimal_text(sh as int),
        ),
    ensures
        spec_tx_claims(tx_json) == seq![(ik, sh)],
{
    claim_reads_back(claim, body, ik, sh);
    claims_of_one_more_view(seq![], view, claim, (ik, sh));
    assert(Seq::<JsonValue>::empty().push(view) =~= seq![view]);
    assert(spec_claims_in(Seq::<JsonValue>::empty()) =~= seq![]);
    assert(seq![].push((ik, sh)) =~= seq![(ik, sh)]);
}

} // verus!
