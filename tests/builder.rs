use std::time::{SystemTime, UNIX_EPOCH};

use pallas_codec::utils::{Int, KeyValuePairs};
use pallas_primitives::alonzo::{BigInt, Value};
use pallas_primitives::babbage::{self, NativeScript, PlutusData, PseudoTransactionOutput};
use pallas_primitives::Fragment;

use pallas_txbuilder::error::ValidationError;
use pallas_txbuilder::model::{Input, MultiAsset, Output};
use pallas_txbuilder::network::NetworkParams;
use pallas_txbuilder::builder::TransactionBuilder;

fn decode(code: &str) -> babbage::Tx {
    let bytes = hex::decode(code).expect("hex");
    babbage::Tx::decode_fragment(&bytes).expect("transaction CBOR")
}

fn now_secs() -> u64 {
    SystemTime::now().duration_since(UNIX_EPOCH).unwrap().as_secs()
}

fn coin_of(o: &babbage::TransactionOutput) -> u64 {
    match o {
        PseudoTransactionOutput::PostAlonzo(x) => match &x.value {
            Value::Coin(c) => *c,
            Value::Multiasset(c, _) => *c,
        },
        PseudoTransactionOutput::Legacy(_) => panic!("legacy output"),
    }
}

fn fee_fixed_point_holds(code: &str) -> bool {
    let tx = decode(code);
    let size = (code.len() / 2) as u64;
    tx.transaction_body.fee == 155381 + 44 * size
}

#[test]
fn test_build_simplest_transaction() -> Result<(), ValidationError> {
    let input = Input::build([0; 32], 0);
    let resolved = Output::lovelaces(vec![], 1000000);
    let output = Output::lovelaces(vec![], 1000000);

    let tx = TransactionBuilder::new(NetworkParams::mainnet())
        .input(input, resolved)
        .output(output)
        .build_hex()?;

    let decoded = decode(&tx);
    assert_eq!(decoded.transaction_body.inputs.len(), 1);
    assert_eq!(decoded.transaction_body.outputs.len(), 1);
    assert_eq!(coin_of(&decoded.transaction_body.outputs[0]), 1000000);
    assert!(decoded.transaction_body.fee > 0);
    assert!(fee_fixed_point_holds(&tx));
    Ok(())
}

#[test]
fn test_build_transaction_with_multiple_inputs() -> Result<(), ValidationError> {
    let input_a = Input::build([0; 32], 0);
    let resolved_a = Output::lovelaces(vec![], 1000000);

    let input_b = Input::build([0; 32], 1);
    let resolved_b = Output::lovelaces(vec![], 1000001);

    let output = Output::lovelaces(vec![], 1000000);

    let tx = TransactionBuilder::new(NetworkParams::mainnet())
        .input(input_a, resolved_a)
        .input(input_b, resolved_b)
        .output(output)
        .build_hex()?;

    let decoded = decode(&tx);
    assert_eq!(decoded.transaction_body.inputs.len(), 2);
    assert_eq!(decoded.transaction_body.inputs[0].index, 0);
    assert_eq!(decoded.transaction_body.inputs[1].index, 1);
    assert!(fee_fixed_point_holds(&tx));
    Ok(())
}

#[test]
fn test_build_transaction_with_multiple_outputs() -> Result<(), ValidationError> {
    let input = Input::build([0; 32], 0);
    let resolved = Output::lovelaces(vec![], 1000000);

    let output_a = Output::lovelaces(vec![], 499999);
    let output_b = Output::lovelaces(vec![], 500001);

    let tx = TransactionBuilder::new(NetworkParams::mainnet())
        .input(input, resolved)
        .output(output_a)
        .output(output_b)
        .build_hex()?;

    let decoded = decode(&tx);
    assert_eq!(decoded.transaction_body.outputs.len(), 2);
    assert_eq!(coin_of(&decoded.transaction_body.outputs[0]), 499999);
    assert_eq!(coin_of(&decoded.transaction_body.outputs[1]), 500001);
    assert!(fee_fixed_point_holds(&tx));
    Ok(())
}

#[test]
fn test_build_transaction_with_ttl() -> Result<(), ValidationError> {
    let input = Input::build([0; 32], 0);
    let resolved = Output::lovelaces(vec![], 1000000);
    let output = Output::lovelaces(vec![], 1000000);

    let slot = 101938047;

    let tx = TransactionBuilder::new(NetworkParams::mainnet())
        .input(input, resolved)
        .output(output)
        .valid_until_slot(slot)
        .build_hex()?;

    let decoded = decode(&tx);
    assert_eq!(decoded.transaction_body.ttl, Some(101938047));
    assert_eq!(decoded.transaction_body.validity_interval_start, None);
    Ok(())
}

#[test]
fn test_build_transaction_with_timestamp_ttl() -> Result<(), ValidationError> {
    let input = Input::build([0; 32], 0);
    let resolved = Output::lovelaces(vec![], 1000000);
    let output = Output::lovelaces(vec![], 1000000);

    let valid_until = now_secs();

    let tx = TransactionBuilder::new(NetworkParams::mainnet())
        .input(input, resolved)
        .output(output)
        .valid_until(valid_until)?
        .build_hex()?;

    let decoded = decode(&tx);
    assert_eq!(decoded.transaction_body.ttl, Some(valid_until - 1591566291));
    Ok(())
}

#[test]
fn test_build_transaction_with_valid_after() -> Result<(), ValidationError> {
    let input = Input::build([0; 32], 0);
    let resolved = Output::lovelaces(vec![], 1000000);
    let output = Output::lovelaces(vec![], 1000000);

    let slot = 101938047;

    let tx = TransactionBuilder::new(NetworkParams::mainnet())
        .input(input, resolved)
        .output(output)
        .valid_from_slot(slot)
        .build_hex()?;

    let decoded = decode(&tx);
    assert_eq!(decoded.transaction_body.validity_interval_start, Some(101938047));
    assert_eq!(decoded.transaction_body.ttl, None);
    Ok(())
}

#[test]
fn test_build_transaction_with_timestamp_valid_after() -> Result<(), ValidationError> {
    let input = Input::build([0; 32], 0);
    let resolved = Output::lovelaces(vec![], 1000000);
    let output = Output::lovelaces(vec![], 1000000);

    let valid_after = now_secs();

    let tx = TransactionBuilder::new(NetworkParams::mainnet())
        .input(input, resolved)
        .output(output)
        .valid_from(valid_after)?
        .build_hex()?;

    let decoded = decode(&tx);
    assert_eq!(decoded.transaction_body.validity_interval_start, Some(valid_after - 1591566291));
    Ok(())
}

#[test]
fn test_build_multiasset_transaction() -> Result<(), ValidationError> {
    let input = Input::build([0; 32], 0);

    let assets = MultiAsset::new().add([0; 28], b"MyAsset".to_vec(), 1000000u64);

    let resolved = Output::multiasset(vec![], 1000000, assets.clone());
    let output = Output::multiasset(vec![], 1000000, assets);

    let tx = TransactionBuilder::new(NetworkParams::mainnet())
        .input(input, resolved)
        .output(output)
        .build_hex()?;

    let decoded = decode(&tx);
    match &decoded.transaction_body.outputs[0] {
        PseudoTransactionOutput::PostAlonzo(x) => match &x.value {
            Value::Multiasset(c, m) => {
                assert_eq!(*c, 1000000);
                let groups: Vec<_> = m.clone().into();
                assert_eq!(groups.len(), 1);
                let names: Vec<_> = groups[0].1.clone().into();
                assert_eq!(names.len(), 1);
                assert_eq!(Vec::<u8>::from(names[0].0.clone()), b"MyAsset".to_vec());
                assert_eq!(names[0].1, 1000000);
            }
            Value::Coin(_) => panic!("expected a multi-asset value"),
        },
        PseudoTransactionOutput::Legacy(_) => panic!("legacy output"),
    }
    Ok(())
}

#[test]
fn test_build_mint() -> Result<(), ValidationError> {
    let input = Input::build([0; 32], 0);
    let resolved = Output::lovelaces(vec![], 1000000);
    let output = Output::lovelaces(vec![], 1000000);

    let assets = MultiAsset::new().add([0; 28], b"MyAsset 2".to_vec(), 1000000i64);

    let tx = TransactionBuilder::new(NetworkParams::mainnet())
        .input(input, resolved)
        .output(output)
        .mint(assets)
        .build_hex()?;

    let decoded = decode(&tx);
    let mint: Vec<_> = decoded.transaction_body.mint.expect("mint").into();
    assert_eq!(mint.len(), 1);
    let names: Vec<_> = mint[0].1.clone().into();
    assert_eq!(names[0].1, 1000000i64);
    Ok(())
}

#[test]
fn test_build_with_reference_inputs() -> Result<(), ValidationError> {
    let input = Input::build([0; 32], 0);
    let resolved = Output::lovelaces(vec![], 1000000);
    let output = Output::lovelaces(vec![], 1000000);

    let tx = TransactionBuilder::new(NetworkParams::mainnet())
        .input(input.clone(), resolved.clone())
        .output(output)
        .reference_input(input, resolved)
        .build_hex()?;

    let decoded = decode(&tx);
    assert_eq!(decoded.transaction_body.reference_inputs.map(|v| v.len()), Some(1));
    Ok(())
}

#[test]
fn test_build_with_collateral_inputs() -> Result<(), ValidationError> {
    let input = Input::build([0; 32], 0);
    let resolved = Output::lovelaces(vec![], 1000000);
    let output = Output::lovelaces(vec![], 999998);

    let collateral = Input::build([0; 32], 1);
    let collateral_return = Output::lovelaces(vec![], 2);

    let tx = TransactionBuilder::new(NetworkParams::mainnet())
        .input(input.clone(), resolved.clone())
        .output(output)
        .collateral(collateral, resolved)
        .collateral_return(collateral_return)
        .build_hex()?;

    let decoded = decode(&tx);
    let coll = decoded.transaction_body.collateral.expect("collateral");
    assert_eq!(coll.len(), 1);
    assert_eq!(coll[0].index, 1);
    assert_eq!(coin_of(&decoded.transaction_body.collateral_return.expect("return")), 2);
    Ok(())
}

#[test]
fn test_build_with_plutus_data() -> Result<(), ValidationError> {
    let input = Input::build([0; 32], 0);
    let resolved = Output::lovelaces(vec![], 1000000);
    let output = Output::lovelaces(vec![], 1000000);

    let int = |i: i64| PlutusData::BigInt(BigInt::Int(Int::from(i)));
    let data = PlutusData::Map(KeyValuePairs::from(vec![(int(1), int(2))]));

    let tx = TransactionBuilder::new(NetworkParams::mainnet())
        .input(input, resolved)
        .output(output)
        .plutus_data(data.clone())
        .build_hex()?;

    let decoded = decode(&tx);
    assert_eq!(decoded.transaction_witness_set.plutus_data, Some(vec![data]));
    Ok(())
}

#[test]
fn test_build_with_native_script() -> Result<(), ValidationError> {
    let input = Input::build([0; 32], 0);
    let resolved = Output::lovelaces(vec![], 1000000);
    let output = Output::lovelaces(vec![], 1000000);

    let script = NativeScript::ScriptAll(vec![
        NativeScript::ScriptPubkey([0; 28].into()),
        NativeScript::ScriptPubkey([1; 28].into()),
    ]);

    let tx = TransactionBuilder::new(NetworkParams::mainnet())
        .input(input, resolved)
        .output(output)
        .native_script(script.clone())
        .build_hex()?;

    let decoded = decode(&tx);
    assert_eq!(decoded.transaction_witness_set.native_script, Some(vec![script]));
    assert_eq!(decoded.transaction_witness_set.plutus_data, None);
    Ok(())
}
