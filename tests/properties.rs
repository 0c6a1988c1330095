use pallas_primitives::babbage;
use pallas_primitives::Fragment;

use pallas_txbuilder::builder::{network_tag, TransactionBuilder};
use pallas_txbuilder::error::ValidationError;
use pallas_txbuilder::fee::Fee;
use pallas_txbuilder::model::{same_policy, Datum, Input, MultiAsset, Output, ScriptRef};
use pallas_primitives::babbage::{NativeScript, PlutusData, PseudoDatumOption, PseudoTransactionOutput, Script};
use pallas_primitives::alonzo::BigInt;
use pallas_codec::utils::Int;
use pallas_txbuilder::network::NetworkParams;
use pallas_txbuilder::transaction::NetworkTag;

fn decode(code: &str) -> babbage::Tx {
    let bytes = hex::decode(code).expect("hex");
    babbage::Tx::decode_fragment(&bytes).expect("transaction CBOR")
}

fn simple() -> TransactionBuilder {
    TransactionBuilder::new(NetworkParams::mainnet())
        .input(Input::build([0; 32], 0), Output::lovelaces(vec![], 1000000))
        .output(Output::lovelaces(vec![], 1000000))
}

fn with_asset(amount: u64) -> MultiAsset<u64> {
    MultiAsset::new().add([7; 28], b"Token".to_vec(), amount)
}

#[test]
fn empty_builder_has_no_inputs() {
    let r = TransactionBuilder::new(NetworkParams::mainnet()).build();
    assert_eq!(r.err(), Some(ValidationError::NoInputs));
}

#[test]
fn input_without_outputs_has_no_outputs() {
    let r = TransactionBuilder::new(NetworkParams::mainnet())
        .input(Input::build([0; 32], 0), Output::lovelaces(vec![], 1000000))
        .build();
    assert_eq!(r.err(), Some(ValidationError::NoOutputs));
}

#[test]
fn no_inputs_is_reported_before_no_outputs() {
    let r = TransactionBuilder::new(NetworkParams::mainnet())
        .collateral(Input::build([1; 32], 0), Output::multiasset(vec![], 5, with_asset(1)))
        .build_hex();
    assert_eq!(r.err(), Some(ValidationError::NoInputs));
}

#[test]
fn simple_transaction_has_positive_fee_and_one_input_and_output() {
    let tx = simple().build().expect("build");
    assert!(tx.body.fee > 0);
    assert_eq!(tx.body.inputs.len(), 1);
    assert_eq!(tx.body.outputs.len(), 1);
    assert_eq!(tx.body.network_id, Some(NetworkTag::Two));
    assert!(tx.body.certificates.is_none());
    assert!(tx.body.collateral.is_none());
    assert!(tx.witness_set.native_script.is_none());

    let decoded = decode(&simple().build_hex().expect("hex"));
    assert_eq!(decoded.transaction_body.inputs.len(), 1);
    assert_eq!(decoded.transaction_body.outputs.len(), 1);
    assert_eq!(decoded.transaction_body.fee, tx.body.fee);
}

#[test]
fn fee_pays_for_its_own_encoding() {
    let code = simple().require_signer([3; 28]).valid_until_slot(5000).build_hex().expect("hex");
    let decoded = decode(&code);
    let size = (code.len() / 2) as u64;
    assert_eq!(decoded.transaction_body.fee, 155381 + 44 * size);
}

#[test]
fn building_twice_gives_identical_bytes() {
    let a = simple().valid_from_slot(10).valid_until_slot(20).build_hex().expect("hex");
    let b = simple().valid_from_slot(10).valid_until_slot(20).build_hex().expect("hex");
    assert_eq!(a, b);
}

#[test]
fn encoding_is_lowercase_hex() {
    let code = simple().build_hex().expect("hex");
    assert!(code.len() % 2 == 0 && code.len() > 0);
    assert!(code.chars().all(|c| c.is_ascii_digit() || ('a'..='f').contains(&c)));
}

#[test]
fn same_input_twice_is_one_input() {
    let b = TransactionBuilder::new(NetworkParams::mainnet())
        .input(Input::build([0; 32], 0), Output::lovelaces(vec![], 1))
        .input(Input::build([0; 32], 0), Output::lovelaces(vec![], 2))
        .output(Output::lovelaces(vec![], 1));
    assert_eq!(b.inputs.len(), 1);
    assert_eq!(b.inputs.get_index(0).unwrap().1.lovelace, 2);
    let tx = b.build().expect("build");
    assert_eq!(tx.body.inputs.len(), 1);
}

#[test]
fn latest_collateral_resolution_is_validated() {
    let clean = simple()
        .collateral(Input::build([1; 32], 0), Output::multiasset(vec![], 5, with_asset(1)))
        .collateral(Input::build([1; 32], 0), Output::lovelaces(vec![], 5))
        .build();
    assert!(clean.is_ok());

    let dirty = simple()
        .collateral(Input::build([1; 32], 0), Output::lovelaces(vec![], 5))
        .collateral(Input::build([1; 32], 0), Output::multiasset(vec![], 5, with_asset(1)))
        .build();
    assert_eq!(dirty.err(), Some(ValidationError::InvalidCollateralInput));
}

#[test]
fn collateral_with_assets_is_refused() {
    let r = simple()
        .collateral(Input::build([1; 32], 0), Output::multiasset(vec![], 0, with_asset(42)))
        .build();
    assert_eq!(r.err(), Some(ValidationError::InvalidCollateralInput));
    let r = simple()
        .collateral(Input::build([1; 32], 0), Output::multiasset(vec![], u64::MAX, with_asset(1)))
        .build_hex();
    assert_eq!(r.err(), Some(ValidationError::InvalidCollateralInput));
}

#[test]
fn collateral_return_with_assets_is_refused() {
    let r = simple()
        .collateral(Input::build([1; 32], 0), Output::lovelaces(vec![], 5))
        .collateral_return(Output::multiasset(vec![], 5, with_asset(9)))
        .build();
    assert_eq!(r.err(), Some(ValidationError::InvalidCollateralReturn));
}

#[test]
fn zero_quantity_assets_are_pure() {
    let o = Output::multiasset(vec![], 5, with_asset(0));
    assert!(!o.is_multiasset());
    assert!(Output::multiasset(vec![], 5, with_asset(3)).is_multiasset());
    assert!(!Output::lovelaces(vec![], 5).is_multiasset());
    let r = simple()
        .collateral(Input::build([1; 32], 0), o.clone())
        .collateral_return(o)
        .build();
    assert!(r.is_ok());
}

#[test]
fn valid_from_before_genesis_is_refused() {
    let r = simple().valid_from(1591566290);
    assert_eq!(r.err(), Some(ValidationError::InvalidTimestamp));
    let r = simple().valid_until(0);
    assert_eq!(r.err(), Some(ValidationError::InvalidTimestamp));
}

#[test]
fn timestamps_map_to_slots() {
    let p = NetworkParams::mainnet();
    assert_eq!(p.timestamp_to_slot(1591566291), Some(0));
    assert_eq!(p.timestamp_to_slot(1596059091), Some(4492800));
    let twenty = NetworkParams { network_id: 1, genesis_time: 1000, slot_length: 20 };
    assert_eq!(twenty.timestamp_to_slot(1039), Some(1));
    assert_eq!(twenty.timestamp_to_slot(1040), Some(2));
    assert_eq!(twenty.timestamp_to_slot(999), None);
    let b = simple().valid_from(1596059091).expect("slot");
    assert_eq!(b.valid_from_slot, Some(4492800));
}

#[test]
fn network_ids_map_to_tags() {
    assert_eq!(network_tag(0), Some(NetworkTag::One));
    assert_eq!(network_tag(1), Some(NetworkTag::Two));
    assert_eq!(network_tag(2), None);
    let tx = TransactionBuilder::new(NetworkParams::preview())
        .input(Input::build([0; 32], 0), Output::lovelaces(vec![], 1))
        .output(Output::lovelaces(vec![], 1))
        .build()
        .expect("build");
    assert_eq!(tx.body.network_id, Some(NetworkTag::One));
}

#[test]
fn linear_fee_formula() {
    let f = Fee::linear();
    assert_eq!(f.min_fee(0), Some(155381));
    assert_eq!(f.min_fee(100), Some(159781));
    assert_eq!(f.min_fee(u64::MAX), None);
    assert_eq!(f.settled(159781, 100), Ok(true));
    assert_eq!(f.settled(0, 100), Ok(false));
    assert_eq!(f.settled(0, u64::MAX), Err(ValidationError::FeeComputationFailure));
}

#[test]
fn fee_search_fails_when_fee_overflows() {
    let huge = Fee { constant: u64::MAX, per_byte: 1 };
    let tx = simple().build().expect("build");
    assert_eq!(huge.with_fee(tx).err(), Some(ValidationError::FeeComputationFailure));
}

#[test]
fn multiasset_groups_by_policy() {
    let m = MultiAsset::new()
        .add([1; 28], b"a".to_vec(), 1u64)
        .add([2; 28], b"b".to_vec(), 2u64)
        .add([1; 28], b"c".to_vec(), 3u64);
    assert_eq!(m.policies.len(), 2);
    assert_eq!(m.policies[0].1, vec![(b"a".to_vec(), 1), (b"c".to_vec(), 3)]);
    assert_eq!(m.policies[1].1, vec![(b"b".to_vec(), 2)]);
    assert!(same_policy(&[1; 28], &[1; 28]));
    assert!(!same_policy(&[1; 28], &[2; 28]));
}

#[test]
fn optional_lists_are_filled_when_present() {
    let tx = simple()
        .require_signer([5; 28])
        .plutus_v1_script(vec![1, 2, 3])
        .plutus_v2_script(vec![4])
        .reference_input(Input::build([9; 32], 3), Output::lovelaces(vec![], 1))
        .build()
        .expect("build");
    assert_eq!(tx.body.required_signers, Some(vec![[5; 28]]));
    assert_eq!(tx.witness_set.plutus_v1_script, Some(vec![vec![1, 2, 3]]));
    assert_eq!(tx.witness_set.plutus_v2_script, Some(vec![vec![4]]));
    assert_eq!(tx.body.reference_inputs.map(|v| v.len()), Some(1));
}

#[test]
fn inputs_are_encoded_in_key_order() {
    let tx = TransactionBuilder::new(NetworkParams::mainnet())
        .input(Input::build([2; 32], 0), Output::lovelaces(vec![], 1))
        .input(Input::build([1; 32], 7), Output::lovelaces(vec![], 1))
        .input(Input::build([1; 32], 3), Output::lovelaces(vec![], 1))
        .output(Output::lovelaces(vec![], 1))
        .build()
        .expect("build");
    let keys: Vec<([u8; 32], u64)> = tx.body.inputs.iter().map(|i| (i.tx_hash, i.index)).collect();
    assert_eq!(keys, vec![([1; 32], 3), ([1; 32], 7), ([2; 32], 0)]);
}

#[test]
fn outputs_carry_datums_and_reference_scripts() {
    let inline = PlutusData::BigInt(BigInt::Int(Int::from(7i64)));
    let native = NativeScript::InvalidBefore(42);
    let tx = TransactionBuilder::new(NetworkParams::mainnet())
        .input(Input::build([0; 32], 0), Output::lovelaces(vec![], 10))
        .output(Output::lovelaces(vec![1], 3).with_datum(Datum::Hash([4; 32])))
        .output(Output::lovelaces(vec![2], 4).with_datum(Datum::Inline(inline.clone())))
        .output(Output::lovelaces(vec![3], 5).with_script_ref(ScriptRef::Native(native.clone())))
        .output(Output::lovelaces(vec![4], 6).with_script_ref(ScriptRef::PlutusV2(vec![9, 9])))
        .build_hex()
        .expect("hex");
    let decoded = decode(&tx);
    let outs = &decoded.transaction_body.outputs;
    let post = |i: usize| match &outs[i] {
        PseudoTransactionOutput::PostAlonzo(x) => x.clone(),
        PseudoTransactionOutput::Legacy(_) => panic!("legacy output"),
    };
    match post(0).datum_option {
        Some(PseudoDatumOption::Hash(h)) => assert_eq!(h.as_ref(), &[4u8; 32][..]),
        other => panic!("unexpected datum {:?}", other),
    }
    match post(1).datum_option {
        Some(PseudoDatumOption::Data(d)) => assert_eq!(d.0, inline),
        other => panic!("unexpected datum {:?}", other),
    }
    match post(2).script_ref {
        Some(w) => assert_eq!(w.0, Script::NativeScript(native)),
        None => panic!("missing script"),
    }
    match post(3).script_ref {
        Some(w) => match w.0 {
            Script::PlutusV2Script(b) => assert_eq!(b.as_ref(), &[9u8, 9][..]),
            other => panic!("unexpected script {:?}", other),
        },
        None => panic!("missing script"),
    }
    assert!(post(0).script_ref.is_none());
}

#[test]
fn no_smaller_fee_pays_for_its_encoding() {
    let tx = simple().build().expect("build");
    let fee = Fee::linear();
    for g in [0u64, 1, 155381, tx.body.fee - 1] {
        assert!(fee.min_fee(simple_size_with_fee(g)).unwrap() > g);
    }
    assert_eq!(fee.min_fee(simple_size_with_fee(tx.body.fee)), Some(tx.body.fee));
}

/// The encoded size of the simple transaction carrying fee `g`: only the head
/// of the fee's CBOR integer changes with its value.
fn simple_size_with_fee(g: u64) -> u64 {
    let base = simple().build().expect("build");
    let code = simple().build_hex().expect("hex");
    let size = (code.len() / 2) as u64;
    let head = |v: u64| if v < 24 { 1 } else if v < 256 { 2 } else if v < 65536 { 3 } else if v < (1u64 << 32) { 5 } else { 9 };
    size - head(base.body.fee) + head(g)
}
