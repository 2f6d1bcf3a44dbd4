use penumbra_explorer::json::JsonValue;
use penumbra_explorer::staking::{
    action_views, block_height_to_i64, claimed_undelegation, delegate_actions, delegate_row,
    read_delegate, read_undelegate, read_undelegate_claim, release_height, undelegate_actions,
    undelegate_claims, undelegate_row, DelegateAction, UndelegateAction, UndelegateClaim,
    UNBONDING_BLOCKS,
};

fn s(t: &str) -> JsonValue {
    JsonValue::Str(t.to_string())
}

fn obj(members: Vec<(&str, JsonValue)>) -> JsonValue {
    JsonValue::Object(members.into_iter().map(|(k, v)| (k.to_string(), v)).collect())
}

fn lo(amount: &str) -> JsonValue {
    obj(vec![("lo", s(amount))])
}

fn delegate(ik: &str, da: &str, ua: &str, epoch: &str) -> JsonValue {
    obj(vec![
        ("validatorIdentity", obj(vec![("ik", s(ik))])),
        ("delegationAmount", lo(da)),
        ("unbondedAmount", lo(ua)),
        ("fromEpoch", obj(vec![("index", s(epoch))])),
    ])
}

fn undelegate(ik: &str, da: &str, ua: &str, epoch: &str, start: &str) -> JsonValue {
    obj(vec![
        ("validatorIdentity", obj(vec![("ik", s(ik))])),
        ("delegationAmount", lo(da)),
        ("unbondedAmount", lo(ua)),
        ("fromEpoch", obj(vec![("index", s(epoch)), ("startHeight", s(start))])),
    ])
}

fn claim(ik: &str, start: &str) -> JsonValue {
    obj(vec![(
        "body",
        obj(vec![
            ("validatorIdentity", obj(vec![("ik", s(ik))])),
            ("unbondingStartHeight", s(start)),
        ]),
    )])
}

fn dup(v: &JsonValue) -> JsonValue {
    match v {
        JsonValue::Null => JsonValue::Null,
        JsonValue::Bool(b) => JsonValue::Bool(*b),
        JsonValue::Number(n) => JsonValue::Number(n.clone()),
        JsonValue::Str(t) => JsonValue::Str(t.clone()),
        JsonValue::Array(items) => JsonValue::Array(items.iter().map(dup).collect()),
        JsonValue::Object(members) => {
            JsonValue::Object(members.iter().map(|(k, v)| (k.clone(), dup(v))).collect())
        }
    }
}

fn tx(views: Vec<JsonValue>) -> JsonValue {
    obj(vec![("bodyView", obj(vec![("actionViews", JsonValue::Array(views))]))])
}

#[test]
fn reads_a_complete_delegate_action() {
    let a = read_delegate(&delegate("ik1", "100", "90", "7")).unwrap();
    assert_eq!(a.validator_ik, "ik1");
    assert_eq!((a.delegation_amount, a.unbonded_amount, a.epoch_index), (100, 90, 7));
}

#[test]
fn skips_an_incomplete_or_malformed_delegate_action() {
    assert!(read_delegate(&delegate("ik1", "100", "x", "7")).is_none());
    assert!(read_delegate(&obj(vec![("delegationAmount", lo("1"))])).is_none());
    // an amount written as a JSON number rather than text is not read
    let numeric = obj(vec![
        ("validatorIdentity", obj(vec![("ik", s("ik"))])),
        ("delegationAmount", obj(vec![("lo", JsonValue::Number("5".to_string()))])),
        ("unbondedAmount", lo("5")),
        ("fromEpoch", obj(vec![("index", s("1"))])),
    ]);
    assert!(read_delegate(&numeric).is_none());
    assert!(read_delegate(&JsonValue::Null).is_none());
}

#[test]
fn collects_actions_in_order_and_skips_the_rest() {
    let t = tx(vec![
        obj(vec![("delegate", delegate("a", "1", "2", "3"))]),
        obj(vec![("spend", obj(vec![]))]),
        obj(vec![("delegate", delegate("b", "oops", "2", "3"))]),
        obj(vec![("undelegate", undelegate("c", "4", "5", "6", "1000"))]),
        JsonValue::Bool(true),
        obj(vec![("delegate", delegate("d", "-10", "+20", "30"))]),
        obj(vec![("undelegateClaim", claim("e", "2000"))]),
        obj(vec![("undelegateClaim", obj(vec![("body", obj(vec![]))]))]),
    ]);
    let ds = delegate_actions(&t);
    let got: Vec<(String, i64, i64, i64)> = ds
        .into_iter()
        .map(|a| (a.validator_ik, a.delegation_amount, a.unbonded_amount, a.epoch_index))
        .collect();
    assert_eq!(got, vec![("a".to_string(), 1, 2, 3), ("d".to_string(), -10, 20, 30)]);

    let us = undelegate_actions(&t);
    assert_eq!(us.len(), 1);
    assert_eq!(us[0].validator_ik, "c");
    assert_eq!(us[0].unbonding_start_height, 1000);

    let cs = undelegate_claims(&t);
    assert_eq!(cs.len(), 1);
    assert_eq!((cs[0].validator_ik.as_str(), cs[0].unbonding_start_height), ("e", 2000));
}

#[test]
fn a_transaction_without_action_views_has_no_actions() {
    assert!(delegate_actions(&JsonValue::Null).is_empty());
    assert!(undelegate_actions(&obj(vec![("bodyView", obj(vec![]))])).is_empty());
    let not_array = obj(vec![("bodyView", obj(vec![("actionViews", obj(vec![]))]))]);
    assert!(action_views(&not_array).is_none());
    assert!(undelegate_claims(&not_array).is_empty());
}

#[test]
fn an_undelegation_reads_as_a_delegation() {
    let u = undelegate("k", "8", "9", "10", "11");
    let d = read_delegate(&u).unwrap();
    let ud = read_undelegate(&u).unwrap();
    assert_eq!(d.validator_ik, ud.validator_ik);
    assert_eq!(
        (d.delegation_amount, d.unbonded_amount, d.epoch_index),
        (ud.delegation_amount, ud.unbonded_amount, ud.epoch_index)
    );
    // the converse does not hold: a delegation has no start height
    assert!(read_undelegate(&delegate("k", "8", "9", "10")).is_none());
}

#[test]
fn at_most_one_row_per_action_view() {
    let both = obj(vec![
        ("delegate", delegate("a", "1", "1", "1")),
        ("undelegate", undelegate("a", "1", "1", "1", "1")),
    ]);
    let t = tx(vec![dup(&both), both]);
    assert_eq!(delegate_actions(&t).len(), 2);
    assert_eq!(undelegate_actions(&t).len(), 2);
    assert!(undelegate_claims(&t).len() <= 2);
}

#[test]
fn actions_of_joined_views_are_joined() {
    let front = vec![obj(vec![("delegate", delegate("a", "1", "1", "1"))])];
    let back = vec![
        obj(vec![("delegate", delegate("b", "2", "2", "2"))]),
        obj(vec![("delegate", delegate("c", "3", "3", "3"))]),
    ];
    let joined: Vec<JsonValue> = front.iter().chain(back.iter()).map(dup).collect();
    let ik = |t: &JsonValue| -> Vec<String> {
        delegate_actions(t).into_iter().map(|a| a.validator_ik).collect()
    };
    let mut expected = ik(&tx(front));
    expected.extend(ik(&tx(back)));
    assert_eq!(ik(&tx(joined)), expected);
}

#[test]
fn reads_a_claim() {
    let c = read_undelegate_claim(&claim("v", "-5")).unwrap();
    assert_eq!((c.validator_ik.as_str(), c.unbonding_start_height), ("v", -5));
    assert!(read_undelegate_claim(&claim("v", "five")).is_none());
}

#[test]
fn stores_block_heights_that_fit() {
    assert_eq!(block_height_to_i64(0), 0);
    assert_eq!(block_height_to_i64(123), 123);
    assert_eq!(block_height_to_i64(i64::MAX as u64), i64::MAX);
    assert_eq!(block_height_to_i64(i64::MAX as u64 + 1), 0);
    assert_eq!(block_height_to_i64(u64::MAX), 0);
}

#[test]
fn releases_after_the_unbonding_period() {
    assert_eq!(UNBONDING_BLOCKS, 120_960);
    assert_eq!(release_height(1000), Some(121_960));
    assert_eq!(release_height(i64::MAX - UNBONDING_BLOCKS), Some(i64::MAX));
    assert_eq!(release_height(i64::MAX - UNBONDING_BLOCKS + 1), None);
    let action = UndelegateAction {
        validator_ik: "ik".to_string(),
        delegation_amount: 5,
        unbonded_amount: 4,
        epoch_index: 3,
        unbonding_start_height: 2000,
    };
    let r = undelegate_row::<String, &str>(
        [7u8; 32],
        action.clone(),
        Ok("addr".to_string()),
        u64::MAX,
        "2024-01-01T00:00:00Z",
    )
    .unwrap();
    assert_eq!(r.timestamp, "2024-01-01T00:00:00Z");
    assert!(!r.claimed);
    assert_eq!(r.release_height, 2000 + 120_960);
    assert_eq!(r.release_height - r.unbonding_start_height, UNBONDING_BLOCKS);
    assert_eq!(r.block_height, 0);
    assert_eq!(r.validator_address, "addr");
    assert_eq!(r.tx_hash, [7u8; 32]);
    assert!(undelegate_row([7u8; 32], action.clone(), Err("bad key"), 5, 0u64).is_none());
    // with no address nothing is stored, so a start height too close to the end of the range is harmless
    let late = UndelegateAction { unbonding_start_height: i64::MAX, ..action };
    assert!(undelegate_row([7u8; 32], late, Err("bad key"), 5, 0u64).is_none());
}

#[test]
fn builds_a_delegate_row() {
    let action = DelegateAction {
        validator_ik: "ik".to_string(),
        delegation_amount: 10,
        unbonded_amount: 9,
        epoch_index: 8,
    };
    let r = delegate_row::<(), u64>(
        [1u8; 32],
        action.clone(),
        Ok("penumbravalid1xyz".to_string()),
        77,
        1_700_000_000,
    )
    .unwrap();
    assert_eq!(r.timestamp, 1_700_000_000);
    assert_eq!(r.validator_address, "penumbravalid1xyz");
    assert_eq!((r.delegation_amount, r.unbonded_amount, r.epoch_index, r.block_height), (10, 9, 8, 77));
    assert!(delegate_row([1u8; 32], action, Err(()), 77, 0u64).is_none());
}

#[test]
fn a_claim_marks_an_undelegation_by_address_and_start() {
    let claim = UndelegateClaim { validator_ik: "ik".to_string(), unbonding_start_height: 42 };
    let c = claimed_undelegation::<()>(claim.clone(), Ok("addr".to_string())).unwrap();
    assert_eq!((c.validator_address.as_str(), c.unbonding_start_height), ("addr", 42));
    assert!(claimed_undelegation(claim, Err("undecodable")).is_none());
}

#[test]
fn index_undelegate_scenario_row() {
    let u = undelegate("IK", "1000", "990", "5", "100");
    let action = read_undelegate(&u).unwrap();
    let row = undelegate_row::<(), &str>([1u8; 32], action, Ok("A".to_string()), 500, "t0").unwrap();
    assert_eq!(row.tx_hash, [1u8; 32]);
    assert_eq!(row.validator_address, "A");
    assert_eq!((row.delegation_amount, row.unbonded_amount, row.epoch_index), (1000, 990, 5));
    assert_eq!((row.unbonding_start_height, row.release_height, row.block_height), (100, 121_060, 500));
    assert_eq!(row.timestamp, "t0");
    assert!(!row.claimed);
}

#[test]
fn a_claim_of_a_written_start_height_reads_back() {
    for h in [0i64, 100, 121_060, -7, i64::MAX, i64::MIN] {
        let u = undelegate("IK", "1", "1", "1", &h.to_string());
        let stored = read_undelegate(&u).unwrap();
        let c = read_undelegate_claim(&claim("IK", &h.to_string())).unwrap();
        assert_eq!(c.validator_ik, stored.validator_ik);
        assert_eq!(c.unbonding_start_height, stored.unbonding_start_height);
        assert_eq!(c.unbonding_start_height, h);
    }
}
