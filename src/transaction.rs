use crate::model::{Input, MultiAsset, Output};
use pallas_primitives::babbage::{Certificate, NativeScript, PlutusData};
use vstd::prelude::*;

verus! {

/// The network a transaction is bound to, as the body records it.
#[derive(Debug, Clone, Copy, PartialEq, Eq, Structural)]
pub enum NetworkTag {
    One,
    Two,
}

/// The body of an assembled transaction. Optional collections are `None`
/// rather than empty.
#[derive(Debug, Clone)]
pub struct TransactionBody {
    pub inputs: Vec<Input>,
    pub outputs: Vec<Output>,
    pub fee: u64,
    pub ttl: Option<u64>,
    pub certificates: Option<Vec<Certificate>>,
    pub validity_interval_start: Option<u64>,
    pub mint: Option<MultiAsset<i64>>,
    pub collateral: Option<Vec<Input>>,
    pub required_signers: Option<Vec<[u8; 28]>>,
    pub network_id: Option<NetworkTag>,
    pub collateral_return: Option<Output>,
    pub reference_inputs: Option<Vec<Input>>,
}

/// Scripts and datums that accompany the body; each list is `None` rather
/// than empty. Plutus scripts are held as their serialized bytes.
#[derive(Debug, Clone)]
pub struct Witnesses {
    pub native_script: Option<Vec<NativeScript>>,
    pub plutus_v1_script: Option<Vec<Vec<u8>>>,
    pub plutus_v2_script: Option<Vec<Vec<u8>>>,
    pub plutus_data: Option<Vec<PlutusData>>,
}

/// A finished transaction.
#[derive(Debug, Clone)]
pub struct Transaction {
    pub body: TransactionBody,
    pub witness_set: Witnesses,
    pub is_valid: bool,
}

/// The contents of a transaction, with every list seen as a sequence.
pub struct TransactionView {
    pub inputs: Seq<Input>,
    pub outputs: Seq<Output>,
    pub fee: u64,
    pub ttl: Option<u64>,
    pub certificates: Option<Seq<Certificate>>,
    pub validity_interval_start: Option<u64>,
    pub mint: Option<MultiAsset<i64>>,
    pub collateral: Option<Seq<Input>>,
    pub required_signers: Option<Seq<[u8; 28]>>,
    pub network_id: Option<NetworkTag>,
    pub collateral_return: Option<Output>,
    pub reference_inputs: Option<Seq<Input>>,
    pub native_script: Option<Seq<NativeScript>>,
    pub plutus_v1_script: Option<Seq<Seq<u8>>>,
    pub plutus_v2_script: Option<Seq<Seq<u8>>>,
    pub plutus_data: Option<Seq<PlutusData>>,
    pub is_valid: bool,
}

/// The elements of an optional list.
pub open spec fn opt_seq<T>(o: Option<Vec<T>>) -> Option<Seq<T>> {
    match o {
        Some(v) => Some(v@),
        None => None,
    }
}

/// The bytes of each script in an optional list.
pub open spec fn opt_scripts(o: Option<Vec<Vec<u8>>>) -> Option<Seq<Seq<u8>>> {
    match o {
        Some(v) => Some(v@.map_values(|s: Vec<u8>| s@)),
        None => None,
    }
}

/// The contents `v` with the fee `g`.
pub open spec fn fee_view(v: TransactionView, g: u64) -> TransactionView {
    TransactionView { fee: g, ..v }
}

impl Transaction {
    pub open spec fn view(self) -> TransactionView {
        TransactionView {
            inputs: self.body.inputs@,
            outputs: self.body.outputs@,
            fee: self.body.fee,
            ttl: self.body.ttl,
            certificates: opt_seq(self.body.certificates),
            validity_interval_start: self.body.validity_interval_start,
            mint: self.body.mint,
            collateral: opt_seq(self.body.collateral),
            required_signers: opt_seq(self.body.required_signers),
            network_id: self.body.network_id,
            collateral_return: self.body.collateral_return,
            reference_inputs: opt_seq(self.body.reference_inputs),
            native_script: opt_seq(self.witness_set.native_script),
            plutus_v1_script: opt_scripts(self.witness_set.plutus_v1_script),
            plutus_v2_script: opt_scripts(self.witness_set.plutus_v2_script),
            plutus_data: opt_seq(self.witness_set.plutus_data),
            is_valid: self.is_valid,
        }
    }
}

} // verus!
