use crate::model::{Datum, Input, MultiAsset, Output, ScriptRef};
use crate::transaction::{fee_view, NetworkTag, Transaction, TransactionBody, TransactionView, Witnesses};
use pallas_codec::utils::{Bytes, CborWrap, KeyValuePairs, Nullable};

use pallas_primitives::alonzo::{AuxiliaryData, NetworkId, Value};
use pallas_primitives::babbage;
use pallas_primitives::babbage::{
    Certificate, NativeScript, PlutusData, PlutusV1Script, PlutusV2Script, PseudoDatumOption,
    PseudoPostAlonzoTransactionOutput, PseudoTransactionBody, PseudoTransactionOutput, PseudoTx,
    Script, TransactionInput,
};
use pallas_primitives::Fragment;
use vstd::prelude::*;

verus! {

#[verifier::external_type_specification]
#[verifier::external_body]
pub struct ExTransactionInput(TransactionInput);

#[verifier::external_type_specification]
#[verifier::external_body]
#[verifier::reject_recursive_types(T)]
pub struct ExPseudoTransactionOutput<T>(PseudoTransactionOutput<T>);

#[verifier::external_type_specification]
#[verifier::external_body]
#[verifier::reject_recursive_types(T1)]
pub struct ExPseudoPostAlonzoTransactionOutput<T1>(PseudoPostAlonzoTransactionOutput<T1>);

#[verifier::external_type_specification]
#[verifier::external_body]
#[verifier::reject_recursive_types(T1)]
pub struct ExPseudoDatumOption<T1>(PseudoDatumOption<T1>);

#[verifier::external_type_specification]
#[verifier::external_body]
pub struct ExPlutusData(PlutusData);

#[verifier::external_type_specification]
#[verifier::external_body]
pub struct ExCertificate(Certificate);

#[verifier::external_type_specification]
#[verifier::external_body]
pub struct ExNativeScript(NativeScript);

#[verifier::external_type_specification]
#[verifier::external_body]
pub struct ExAuxiliaryData(AuxiliaryData);

#[verifier::external_type_specification]
#[verifier::external_body]
#[verifier::reject_recursive_types(T1)]
pub struct ExPseudoTransactionBody<T1>(PseudoTransactionBody<T1>);

#[verifier::external_type_specification]
#[verifier::external_body]
pub struct ExWitnessSet(babbage::WitnessSet);

#[verifier::external_type_specification]
#[verifier::external_body]
#[verifier::reject_recursive_types(T1)]
#[verifier::reject_recursive_types(T2)]
#[verifier::reject_recursive_types(T3)]
pub struct ExPseudoTx<T1, T2, T3>(PseudoTx<T1, T2, T3>) where
    T1: std::clone::Clone,
    T2: std::clone::Clone,
    T3: std::clone::Clone,
;

#[verifier::external_type_specification]
#[verifier::external_body]
#[verifier::reject_recursive_types(K)]
#[verifier::reject_recursive_types(V)]
pub struct ExKeyValuePairs<K, V>(KeyValuePairs<K, V>) where K: Clone, V: Clone;

#[verifier::external_type_specification]
#[verifier::external_body]
pub struct ExHash<const BYTES: usize>(pallas_crypto::hash::Hash<BYTES>);

#[verifier::external_type_specification]
#[verifier::external_body]
pub struct ExBytes(Bytes);

#[verifier::external_type_specification]
#[verifier::external_body]
pub struct ExNetworkId(NetworkId);

#[verifier::external_type_specification]
#[verifier::external_body]
#[verifier::reject_recursive_types(T)]
pub struct ExCborWrap<T>(CborWrap<T>);

#[verifier::external_type_specification]
#[verifier::external_body]
pub struct ExScript(Script);

/// Relies on the `Clone` that pallas derives for `NativeScript`; nothing is claimed of the copy.
pub assume_specification[ <NativeScript as Clone>::clone ](_0: &NativeScript) -> NativeScript;

/// Relies on the `Clone` that pallas derives for `PlutusData`; nothing is claimed of the copy.
pub assume_specification[ <PlutusData as Clone>::clone ](_0: &PlutusData) -> PlutusData;

/// Relies on pallas' `DatumOption` and `CborWrap`: the ledger form of a datum.
#[verifier::external_body]
fn pallas_datum(d: &Datum) -> babbage::DatumOption {
    match d {
        Datum::Hash(h) => PseudoDatumOption::Hash(pallas_crypto::hash::Hash::from(*h)),
        Datum::Inline(p) => PseudoDatumOption::Data(CborWrap(p.clone())),
    }
}

/// Relies on pallas' `Script` and `CborWrap`: the ledger form of a reference script.
#[verifier::external_body]
fn pallas_script_ref(s: &ScriptRef) -> babbage::ScriptRef {
    CborWrap(match s {
        ScriptRef::Native(n) => Script::NativeScript(n.clone()),
        ScriptRef::PlutusV1(b) => Script::PlutusV1Script(PlutusV1Script(Bytes::from(b.clone()))),
        ScriptRef::PlutusV2(b) => Script::PlutusV2Script(PlutusV2Script(Bytes::from(b.clone()))),
    })
}

/// Relies on pallas' `TransactionInput` and `Hash::from`: the ledger form of an input.
#[verifier::external_body]
fn pallas_input(i: &Input) -> TransactionInput {
    TransactionInput { transaction_id: pallas_crypto::hash::Hash::from(i.tx_hash), index: i.index }
}

/// Relies on pallas' `KeyValuePairs::from`, `Hash::from` and `Bytes::from`: the
/// ledger form of a multi-asset map, groups and entries kept in order.
#[verifier::external_body]
fn pallas_assets<T: Clone>(m: &MultiAsset<T>) -> KeyValuePairs<pallas_crypto::hash::Hash<28>, KeyValuePairs<Bytes, T>> {
    let groups = m.policies.iter().map(|(p, g)| {
        let names = g.iter().map(|(n, q)| (Bytes::from(n.clone()), q.clone())).collect::<Vec<_>>();
        (pallas_crypto::hash::Hash::from(*p), KeyValuePairs::from(names))
    });
    KeyValuePairs::from(groups.collect::<Vec<_>>())
}

/// Relies on pallas' `Value` and `PostAlonzoTransactionOutput`: the ledger form
/// of an output, as a plain coin when it holds no asset map, from its datum and
/// reference script already in ledger form.
#[verifier::external_body]
fn pallas_output(
    o: &Output,
    datum_option: Option<babbage::DatumOption>,
    script_ref: Option<babbage::ScriptRef>,
) -> babbage::TransactionOutput {
    let value = match &o.assets {
        None => Value::Coin(o.lovelace),
        Some(m) => Value::Multiasset(o.lovelace, pallas_assets(m)),
    };
    let address = Bytes::from(o.address.clone());
    PseudoTransactionOutput::PostAlonzo(PseudoPostAlonzoTransactionOutput {
        address, value, datum_option, script_ref,
    })
}

/// Relies on pallas' `NetworkId`: the ledger form of the network tag.
#[verifier::external_body]
fn pallas_network(n: NetworkTag) -> NetworkId {
    match n {
        NetworkTag::One => NetworkId::One,
        NetworkTag::Two => NetworkId::Two,
    }
}

/// Relies on pallas' `TransactionBody`: the ledger form of a body, from its
/// parts already in ledger form; the fields this library never sets are absent.
#[verifier::external_body]
fn pallas_body(
    b: &TransactionBody,
    inputs: Vec<TransactionInput>,
    outputs: Vec<babbage::TransactionOutput>,
    collateral: Option<Vec<TransactionInput>>,
    collateral_return: Option<babbage::TransactionOutput>,
    reference_inputs: Option<Vec<TransactionInput>>,
    network_id: Option<NetworkId>,
) -> babbage::TransactionBody {
    let required_signers = b.required_signers.as_ref().map(|v| v.iter().map(|k| pallas_crypto::hash::Hash::from(*k)).collect());
    PseudoTransactionBody {
        inputs, outputs, fee: b.fee, ttl: b.ttl, certificates: b.certificates.clone(),
        withdrawals: None, update: None, auxiliary_data_hash: None,
        validity_interval_start: b.validity_interval_start, mint: b.mint.as_ref().map(pallas_assets),
        script_data_hash: None, collateral, required_signers, network_id, collateral_return,
        total_collateral: None, reference_inputs,
    }
}

/// Relies on pallas' `WitnessSet`, `PlutusScript` and `PlutusV2Script`: the
/// ledger form of the witnesses; signatures and redeemers are absent.
#[verifier::external_body]
fn pallas_witnesses(w: &Witnesses) -> babbage::WitnessSet {
    let v1 = w.plutus_v1_script.as_ref().map(|v| v.iter().map(|s| PlutusV1Script(Bytes::from(s.clone()))).collect());
    let v2 = w.plutus_v2_script.as_ref().map(|v| v.iter().map(|s| PlutusV2Script(Bytes::from(s.clone()))).collect());
    babbage::WitnessSet {
        vkeywitness: None, native_script: w.native_script.clone(), bootstrap_witness: None,
        plutus_v1_script: v1, plutus_data: w.plutus_data.clone(), redeemer: None, plutus_v2_script: v2,
    }
}

/// Relies on pallas' `Tx`: a transaction from its ledger body and witnesses,
/// without auxiliary data.
#[verifier::external_body]
fn pallas_tx(body: babbage::TransactionBody, witnesses: babbage::WitnessSet, is_valid: bool) -> babbage::Tx {
    PseudoTx { transaction_body: body, transaction_witness_set: witnesses, success: is_valid, auxiliary_data: Nullable::Null }
}

/// The ledger form of an output, with its datum and reference script.
fn ledger_output(o: &Output) -> babbage::TransactionOutput {
    let datum_option = match &o.datum {
        None => None,
        Some(d) => Some(pallas_datum(d)),
    };
    let script_ref = match &o.script_ref {
        None => None,
        Some(s) => Some(pallas_script_ref(s)),
    };
    pallas_output(o, datum_option, script_ref)
}

fn pallas_inputs(v: &Vec<Input>) -> (r: Vec<TransactionInput>)
    ensures
        r@.len() == v@.len(),
{
    let mut r: Vec<TransactionInput> = Vec::new();
    let mut i: usize = 0;
    while i < v.len()
        invariant
            i <= v@.len(),
            r@.len() == i,
        decreases v@.len() - i,
    {
        r.push(pallas_input(&v[i]));
        i = i + 1;
    }
    r
}

fn pallas_optional_inputs(v: &Option<Vec<Input>>) -> (r: Option<Vec<TransactionInput>>)
    ensures
        r is Some <==> v is Some,
{
    match v {
        None => None,
        Some(v) => Some(pallas_inputs(v)),
    }
}

fn pallas_outputs(v: &Vec<Output>) -> (r: Vec<babbage::TransactionOutput>)
    ensures
        r@.len() == v@.len(),
{
    let mut r: Vec<babbage::TransactionOutput> = Vec::new();
    let mut i: usize = 0;
    while i < v.len()
        invariant
            i <= v@.len(),
            r@.len() == i,
        decreases v@.len() - i,
    {
        r.push(ledger_output(&v[i]));
        i = i + 1;
    }
    r
}

/// The ledger form of a whole transaction.
fn pallas_transaction(tx: &Transaction) -> babbage::Tx {
    let b = &tx.body;
    let collateral_return = match &b.collateral_return {
        None => None,
        Some(o) => Some(ledger_output(o)),
    };
    let network_id = match b.network_id {
        None => None,
        Some(n) => Some(pallas_network(n)),
    };
    let body = pallas_body(
        b,
        pallas_inputs(&b.inputs),
        pallas_outputs(&b.outputs),
        pallas_optional_inputs(&b.collateral),
        collateral_return,
        pallas_optional_inputs(&b.reference_inputs),
        network_id,
    );
    pallas_tx(body, pallas_witnesses(&tx.witness_set), tx.is_valid)
}

/// The canonical CBOR encoding of a transaction, as pallas writes it.
pub uninterp spec fn transaction_cbor(tx: TransactionView) -> Seq<u8>;

/// Relies on pallas' `Fragment::encode_fragment` (minicbor's `to_vec`) on the
/// ledger form of the transaction: the bytes depend on the transaction alone,
/// and encoding into a `Vec` does not fail, since no `Encode` impl of the
/// ledger types that a transaction holds returns an error. The fee is one
/// unsigned integer of the body, which minicbor writes with the shortest head
/// for its value (one to nine bytes), so a larger fee never gives fewer bytes,
/// and no fee gives more than eight bytes beyond those of another.
#[verifier::external_body]
pub(crate) fn encode_transaction(tx: &Transaction) -> (r: Option<Vec<u8>>)
    ensures
        r is Some,
        r matches Some(b) ==> b@ == transaction_cbor(tx@),
        r matches Some(b) ==> forall|g: u64|
            g >= tx.body.fee ==> #[trigger] transaction_cbor(fee_view(tx@, g)).len() >= b@.len(),
        r matches Some(b) ==> forall|g: u64| #[trigger] transaction_cbor(fee_view(tx@, g)).len() <= b@.len() + 8,
{
    pallas_transaction(tx).encode_fragment().ok()
}

/// The lowercase hexadecimal digit of a value below sixteen.
pub open spec fn hex_digit(d: u8) -> char {
    if d < 10 {
        ((d + 48) as u8) as char
    } else {
        ((d + 87) as u8) as char
    }
}

/// Two lowercase hexadecimal digits per byte, high digit first.
pub open spec fn hex_of(b: Seq<u8>) -> Seq<char>
    decreases b.len(),
{
    if b.len() == 0 {
        Seq::empty()
    } else {
        seq![hex_digit(b[0] / 16), hex_digit(b[0] % 16)] + hex_of(b.drop_first())
    }
}

/// Relies on `hex::encode`: two lowercase digits per byte, in order.
#[verifier::external_body]
pub(crate) fn to_hex(b: &Vec<u8>) -> (r: String)
    ensures
        r@ == hex_of(b@),
{
    hex::encode(b)
}

} // verus!
