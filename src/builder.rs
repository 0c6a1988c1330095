use crate::error::ValidationError;
use crate::fee::{demand, fee_search, linear_fee, with_fee_field, Fee, MAX_FEE_ROUNDS};
use crate::keyed::{empty_map, entries_of, inserted, key_at, map_insert, map_len, unique_keys, value_at};
use crate::ledger::{encode_transaction, hex_of, to_hex, transaction_cbor};
use crate::model::{compare_inputs, input_lt, Input, MultiAsset, Output};
use crate::network::{slot_of, NetworkParams};
use crate::transaction::{fee_view, NetworkTag, Transaction, TransactionBody, TransactionView, Witnesses};
use indexmap::IndexMap;
use pallas_primitives::babbage::{Certificate, NativeScript, PlutusData};
use vstd::prelude::*;

verus! {

/// Accumulates the parts of a transaction; `build` checks them and assembles
/// the transaction. Inputs, reference inputs and collateral are keyed by the
/// input they spend, each with the output it resolves to.
pub struct TransactionBuilder {
    pub inputs: IndexMap<([u8; 32], u64), Output>,
    pub outputs: Vec<Output>,
    pub reference_inputs: IndexMap<([u8; 32], u64), Output>,
    pub collateral: IndexMap<([u8; 32], u64), Output>,
    pub collateral_return: Option<Output>,
    pub network_params: NetworkParams,
    pub mint: Option<MultiAsset<i64>>,
    pub required_signers: Vec<[u8; 28]>,
    pub valid_from_slot: Option<u64>,
    pub valid_until_slot: Option<u64>,
    pub certificates: Vec<Certificate>,
    pub plutus_data: Vec<PlutusData>,
    pub native_scripts: Vec<NativeScript>,
    pub plutus_v1_scripts: Vec<Vec<u8>>,
    pub plutus_v2_scripts: Vec<Vec<u8>>,
}

/// The inputs named by the keys of the entries, in order.
pub open spec fn key_inputs(s: Seq<(([u8; 32], u64), Output)>) -> Seq<Input> {
    s.map_values(|e: (([u8; 32], u64), Output)| Input { tx_hash: e.0.0, index: e.0.1 })
}

/// Some entry resolves to an output that carries native assets.
pub open spec fn any_carries_assets(s: Seq<(([u8; 32], u64), Output)>) -> bool {
    exists|i: int| 0 <= i < s.len() && s[i].1.carries_assets()
}

/// `o` is absent when `s` is empty and otherwise holds exactly `s`.
pub open spec fn absent_if_empty<T>(o: Option<Vec<T>>, s: Seq<T>) -> bool {
    if s.len() == 0 {
        o is None
    } else {
        o matches Some(v) && v@ == s
    }
}

/// The network tag recorded for a network identifier.
pub open spec fn tag_of(id: u64) -> Option<NetworkTag> {
    if id == 0 {
        Some(NetworkTag::One)
    } else if id == 1 {
        Some(NetworkTag::Two)
    } else {
        None
    }
}

/// The tag that the body records for a network identifier.
pub fn network_tag(id: u64) -> (r: Option<NetworkTag>)
    ensures
        r == tag_of(id),
{
    if id == 0 {
        Some(NetworkTag::One)
    } else if id == 1 {
        Some(NetworkTag::Two)
    } else {
        None
    }
}

/// Each input comes strictly before the next one.
pub open spec fn strictly_sorted(s: Seq<Input>) -> bool {
    forall|i: int| 0 <= i < s.len() - 1 ==> #[trigger] input_lt(s[i], s[i + 1])
}

/// `s` holds the inputs that the keys of `e` name, each once, in the order of inputs.
pub open spec fn sorted_keys_of(s: Seq<Input>, e: Seq<(([u8; 32], u64), Output)>) -> bool {
    &&& strictly_sorted(s)
    &&& s.len() == e.len()
    &&& forall|x: Input| s.contains(x) <==> key_inputs(e).contains(x)
}

/// `s` with `x` placed before the first of its inputs that does not come before `x`.
pub open spec fn insert_in_order(s: Seq<Input>, x: Input) -> Seq<Input>
    decreases s.len(),
{
    if s.len() == 0 {
        seq![x]
    } else if input_lt(s[0], x) {
        seq![s[0]] + insert_in_order(s.drop_first(), x)
    } else {
        seq![x] + s
    }
}

/// The inputs of `s` placed one after another by `insert_in_order`.
pub open spec fn in_key_order(s: Seq<Input>) -> Seq<Input>
    decreases s.len(),
{
    if s.len() == 0 {
        Seq::empty()
    } else {
        insert_in_order(in_key_order(s.drop_last()), s.last())
    }
}

proof fn lemma_insert_at(s: Seq<Input>, x: Input, p: int)
    requires
        0 <= p <= s.len(),
        forall|q: int| 0 <= q < p ==> input_lt(s[q], x),
        p < s.len() ==> !input_lt(s[p], x),
    ensures
        insert_in_order(s, x) == s.insert(p, x),
    decreases p,
{
    if s.len() == 0 {
        assert(s.insert(p, x) =~= seq![x]);
    } else if p == 0 {
        assert(s.insert(0, x) =~= seq![x] + s);
    } else {
        let t = s.drop_first();
        assert forall|q: int| 0 <= q < p - 1 implies input_lt(t[q], x) by {
            assert(t[q] == s[q + 1]);
        }
        lemma_insert_at(t, x, p - 1);
        assert(s.insert(p, x) =~= seq![s[0]] + t.insert(p - 1, x));
    }
}

/// Whether `a` comes strictly before `b`.
fn comes_before(a: &Input, b: &Input) -> (r: bool)
    ensures
        r == input_lt(*a, *b),
        !r ==> input_lt(*b, *a) || *a == *b,
{
    match compare_inputs(a, b) {
        std::cmp::Ordering::Less => true,
        _ => false,
    }
}

/// The inputs that the keys of `m` name, in the order of inputs.
fn sorted_keys(m: &IndexMap<([u8; 32], u64), Output>) -> (r: Vec<Input>)
    requires
        unique_keys(entries_of(*m)),
    ensures
        sorted_keys_of(r@, entries_of(*m)),
        r@ == in_key_order(key_inputs(entries_of(*m))),
{
    let ghost e = entries_of(*m);
    let n = map_len(m);
    let mut r: Vec<Input> = Vec::new();
    let mut i: usize = 0;
    while i < n
        invariant
            e == entries_of(*m),
            unique_keys(e),
            n == e.len(),
            i <= n,
            r@.len() == i,
            strictly_sorted(r@),
            forall|x: Input| r@.contains(x) <==> key_inputs(e).take(i as int).contains(x),
            r@ == in_key_order(key_inputs(e).take(i as int)),
        decreases n - i,
    {
        let k = key_at(m, i);
        let x = Input { tx_hash: k.0, index: k.1 };
        assert(key_inputs(e)[i as int] == x);
        let mut p: usize = 0;
        while p < r.len()
            invariant
                p <= r@.len(),
                forall|q: int| 0 <= q < p ==> input_lt(r@[q], x),
            ensures
                p <= r@.len(),
                forall|q: int| 0 <= q < p ==> input_lt(r@[q], x),
                p < r@.len() ==> input_lt(x, r@[p as int]) || r@[p as int] == x,
                p < r@.len() ==> !input_lt(r@[p as int], x),
            decreases r@.len() - p,
        {
            if !comes_before(&r[p], &x) {
                break;
            }
            p = p + 1;
        }
        proof {
            if p < r@.len() && r@[p as int] == x {
                assert(r@.contains(x));
                let j = choose|j: int| 0 <= j < i && key_inputs(e).take(i as int)[j] == x;
                assert(e[j].0 == e[i as int].0);
                assert(false);
            }
        }
        let ghost old_r = r@;
        proof {
            lemma_insert_at(old_r, x, p as int);
            assert(key_inputs(e).take(i + 1).drop_last() =~= key_inputs(e).take(i as int));
        }
        r.insert(p, x);
        assert(r@ == old_r.insert(p as int, x));
        assert forall|q: int| 0 <= q < r@.len() - 1 implies #[trigger] input_lt(r@[q], r@[q + 1]) by {
            if q < p - 1 {
                assert(r@[q] == old_r[q] && r@[q + 1] == old_r[q + 1]);
                assert(input_lt(old_r[q], old_r[q + 1]));
            } else if q == p - 1 {
                assert(r@[q] == old_r[q] && r@[q + 1] == x);
            } else if q == p {
                assert(r@[q] == x && r@[q + 1] == old_r[q]);
            } else {
                assert(r@[q] == old_r[q - 1] && r@[q + 1] == old_r[q]);
                let k = q - 1;
                assert(input_lt(old_r[k], old_r[k + 1]));
            }
        }
        assert(key_inputs(e).take(i + 1) =~= key_inputs(e).take(i as int).push(x));
        assert forall|y: Input| r@.contains(y) <==> key_inputs(e).take(i + 1).contains(y) by {
            let t1 = key_inputs(e).take(i + 1);
            if r@.contains(y) {
                let q = choose|q: int| 0 <= q < r@.len() && r@[q] == y;
                if q < p {
                    assert(old_r[q] == y);
                    assert(old_r.contains(y));
                    let j = choose|j: int| 0 <= j < i && key_inputs(e).take(i as int)[j] == y;
                    assert(t1[j] == y);
                } else if q > p {
                    assert(old_r[q - 1] == y);
                    assert(old_r.contains(y));
                    let j = choose|j: int| 0 <= j < i && key_inputs(e).take(i as int)[j] == y;
                    assert(t1[j] == y);
                } else {
                    assert(t1[i as int] == y);
                }
            }
            if t1.contains(y) {
                let j = choose|j: int| 0 <= j < i + 1 && t1[j] == y;
                if j < i {
                    assert(key_inputs(e).take(i as int)[j] == y);
                } else {
                    assert(r@[p as int] == x);
                }
            }
            if key_inputs(e).take(i as int).contains(y) {
                assert(old_r.contains(y));
                let q = choose|q: int| 0 <= q < old_r.len() && old_r[q] == y;
                if q < p {
                    assert(r@[q] == y);
                } else {
                    assert(r@[q + 1] == y);
                }
            }
            if y == x {
                assert(r@[p as int] == x);
            }
        }
        i = i + 1;
    }
    assert(key_inputs(e).take(n as int) =~= key_inputs(e));
    r
}

/// Whether some entry of `m` resolves to an output that carries native assets.
fn map_carries_assets(m: &IndexMap<([u8; 32], u64), Output>) -> (r: bool)
    ensures
        r == any_carries_assets(entries_of(*m)),
{
    let n = map_len(m);
    let mut i: usize = 0;
    while i < n
        invariant
            n == entries_of(*m).len(),
            i <= n,
            forall|j: int| 0 <= j < i ==> !entries_of(*m)[j].1.carries_assets(),
        decreases n - i,
    {
        if value_at(m, i).is_multiasset() {
            return true;
        }
        i = i + 1;
    }
    false
}

/// `None` for an empty list, else the list.
fn none_if_empty<T>(v: Vec<T>) -> (r: Option<Vec<T>>)
    ensures
        absent_if_empty(r, v@),
{
    if v.len() == 0 {
        None
    } else {
        Some(v)
    }
}

/// `None` for an empty sequence, else the sequence.
pub open spec fn opt_nonempty<T>(s: Seq<T>) -> Option<Seq<T>> {
    if s.len() == 0 {
        None
    } else {
        Some(s)
    }
}

/// The fee formula that `build` applies.
pub open spec fn build_fee() -> Fee {
    Fee { constant: 155381, per_byte: 44 }
}

impl TransactionBuilder {
    /// Each keyed collection holds a key at most once.
    pub open spec fn wf(self) -> bool {
        &&& unique_keys(entries_of(self.inputs))
        &&& unique_keys(entries_of(self.reference_inputs))
        &&& unique_keys(entries_of(self.collateral))
    }

    /// The checks of `build` pass: there are inputs and outputs, and neither a
    /// collateral input nor the collateral return carries native assets.
    pub open spec fn passes_checks(self) -> bool {
        &&& entries_of(self.inputs).len() > 0
        &&& self.outputs@.len() > 0
        &&& !any_carries_assets(entries_of(self.collateral))
        &&& !(self.collateral_return matches Some(o) && o.carries_assets())
    }

    /// `t` is the transaction assembled from this builder's parts, whatever its fee.
    pub open spec fn assembled(self, t: Transaction) -> bool {
        &&& t.body.inputs@ == in_key_order(key_inputs(entries_of(self.inputs)))
        &&& t.body.outputs == self.outputs
        &&& t.body.ttl == self.valid_until_slot
        &&& absent_if_empty(t.body.certificates, self.certificates@)
        &&& t.body.validity_interval_start == self.valid_from_slot
        &&& t.body.mint == self.mint
        &&& absent_if_empty(t.body.collateral, in_key_order(key_inputs(entries_of(self.collateral))))
        &&& absent_if_empty(t.body.required_signers, self.required_signers@)
        &&& t.body.network_id == tag_of(self.network_params.network_id)
        &&& t.body.collateral_return == self.collateral_return
        &&& absent_if_empty(t.body.reference_inputs, in_key_order(key_inputs(entries_of(self.reference_inputs))))
        &&& absent_if_empty(t.witness_set.native_script, self.native_scripts@)
        &&& absent_if_empty(t.witness_set.plutus_v1_script, self.plutus_v1_scripts@)
        &&& absent_if_empty(t.witness_set.plutus_v2_script, self.plutus_v2_scripts@)
        &&& absent_if_empty(t.witness_set.plutus_data, self.plutus_data@)
        &&& t.is_valid
    }

    /// The contents of the transaction assembled from this builder's parts,
    /// with a fee of zero.
    pub open spec fn draft(self) -> TransactionView {
        TransactionView {
            inputs: in_key_order(key_inputs(entries_of(self.inputs))),
            outputs: self.outputs@,
            fee: 0,
            ttl: self.valid_until_slot,
            certificates: opt_nonempty(self.certificates@),
            validity_interval_start: self.valid_from_slot,
            mint: self.mint,
            collateral: opt_nonempty(in_key_order(key_inputs(entries_of(self.collateral)))),
            required_signers: opt_nonempty(self.required_signers@),
            network_id: tag_of(self.network_params.network_id),
            collateral_return: self.collateral_return,
            reference_inputs: opt_nonempty(in_key_order(key_inputs(entries_of(self.reference_inputs)))),
            native_script: opt_nonempty(self.native_scripts@),
            plutus_v1_script: opt_nonempty(self.plutus_v1_scripts@.map_values(|s: Vec<u8>| s@)),
            plutus_v2_script: opt_nonempty(self.plutus_v2_scripts@.map_values(|s: Vec<u8>| s@)),
            plutus_data: opt_nonempty(self.plutus_data@),
            is_valid: true,
        }
    }

    /// The fee that `build` sets: the result of the fee search on the draft.
    pub open spec fn found_fee(self) -> Option<u64> {
        fee_search(build_fee(), self.draft(), 0, MAX_FEE_ROUNDS as nat)
    }

    /// The fee for eight bytes more than the encoded draft fits in a `u64`; the
    /// fee never lengthens the encoding by more, so the fee search converges.
    pub open spec fn fee_fits(self) -> bool {
        linear_fee(build_fee(), transaction_cbor(self.draft()).len() as int + 8) <= u64::MAX
    }

    /// A transaction assembled from the parts has the draft's contents, but
    /// for its fee.
    pub proof fn lemma_assembled_is_draft(self, t: Transaction)
        requires
            self.assembled(t),
        ensures
            (TransactionView { fee: 0, ..t@ }) == self.draft(),
    {
        let v1 = self.plutus_v1_scripts@.map_values(|s: Vec<u8>| s@);
        let v2 = self.plutus_v2_scripts@.map_values(|s: Vec<u8>| s@);
        if self.plutus_v1_scripts@.len() > 0 {
            assert(t.witness_set.plutus_v1_script->Some_0@.map_values(|s: Vec<u8>| s@) =~= v1);
        }
        if self.plutus_v2_scripts@.len() > 0 {
            assert(t.witness_set.plutus_v2_script->Some_0@.map_values(|s: Vec<u8>| s@) =~= v2);
        }
    }

    pub fn new(network_params: NetworkParams) -> (r: TransactionBuilder)
        ensures
            r.wf(),
            r.network_params == network_params,
            entries_of(r.inputs).len() == 0,
            entries_of(r.reference_inputs).len() == 0,
            entries_of(r.collateral).len() == 0,
            r.outputs@.len() == 0,
            r.collateral_return is None,
            r.mint is None,
            r.required_signers@.len() == 0,
            r.valid_from_slot is None,
            r.valid_until_slot is None,
            r.certificates@.len() == 0,
            r.plutus_data@.len() == 0,
            r.native_scripts@.len() == 0,
            r.plutus_v1_scripts@.len() == 0,
            r.plutus_v2_scripts@.len() == 0,
    {
        TransactionBuilder {
            inputs: empty_map(),
            outputs: Vec::new(),
            reference_inputs: empty_map(),
            collateral: empty_map(),
            collateral_return: None,
            network_params,
            mint: None,
            required_signers: Vec::new(),
            valid_from_slot: None,
            valid_until_slot: None,
            certificates: Vec::new(),
            plutus_data: Vec::new(),
            native_scripts: Vec::new(),
            plutus_v1_scripts: Vec::new(),
            plutus_v2_scripts: Vec::new(),
        }
    }

    /// Spends `input`, which resolves to `resolved`; a second call for the
    /// same input replaces the resolved output and keeps its place.
    pub fn input(self, input: Input, resolved: Output) -> (r: TransactionBuilder)
        requires
            self.wf(),
        ensures
            r.wf(),
            entries_of(r.inputs) == inserted(entries_of(self.inputs), input.key(), resolved),
            r == (TransactionBuilder { inputs: r.inputs, ..self }),
    {
        let mut b = self;
        map_insert(&mut b.inputs, (input.tx_hash, input.index), resolved);
        b
    }

    /// Reads `input`, which resolves to `resolved`, without spending it.
    pub fn reference_input(self, input: Input, resolved: Output) -> (r: TransactionBuilder)
        requires
            self.wf(),
        ensures
            r.wf(),
            entries_of(r.reference_inputs) == inserted(entries_of(self.reference_inputs), input.key(), resolved),
            r == (TransactionBuilder { reference_inputs: r.reference_inputs, ..self }),
    {
        let mut b = self;
        map_insert(&mut b.reference_inputs, (input.tx_hash, input.index), resolved);
        b
    }

    /// Sets `input`, which resolves to `resolved`, aside as collateral.
    pub fn collateral(self, input: Input, resolved: Output) -> (r: TransactionBuilder)
        requires
            self.wf(),
        ensures
            r.wf(),
            entries_of(r.collateral) == inserted(entries_of(self.collateral), input.key(), resolved),
            r == (TransactionBuilder { collateral: r.collateral, ..self }),
    {
        let mut b = self;
        map_insert(&mut b.collateral, (input.tx_hash, input.index), resolved);
        b
    }

    /// Checks the parts, in this order: inputs present, outputs present, no
    /// collateral input with native assets, no collateral return with native
    /// assets. Then assembles the transaction and sets its fee with the linear
    /// formula, at the least value that pays for the transaction's own
    /// encoding. When the checks pass, it fails only if that fee does not fit
    /// in a `u64`.
    pub fn build(self) -> (r: Result<Transaction, ValidationError>)
        requires
            self.wf(),
        ensures
            entries_of(self.inputs).len() == 0 ==> r == Err::<Transaction, ValidationError>(ValidationError::NoInputs),
            entries_of(self.inputs).len() > 0 && self.outputs@.len() == 0
                ==> r == Err::<Transaction, ValidationError>(ValidationError::NoOutputs),
            entries_of(self.inputs).len() > 0 && self.outputs@.len() > 0 && any_carries_assets(entries_of(self.collateral))
                ==> r == Err::<Transaction, ValidationError>(ValidationError::InvalidCollateralInput),
            entries_of(self.inputs).len() > 0 && self.outputs@.len() > 0 && !any_carries_assets(entries_of(self.collateral))
                && (self.collateral_return matches Some(o) && o.carries_assets())
                ==> r == Err::<Transaction, ValidationError>(ValidationError::InvalidCollateralReturn),
            self.passes_checks() && self.found_fee() is None
                ==> r == Err::<Transaction, ValidationError>(ValidationError::FeeComputationFailure),
            self.passes_checks() && self.found_fee() is Some
                ==> r is Ok && r->Ok_0@ == (TransactionView { fee: self.found_fee()->Some_0, ..self.draft() }),
            self.passes_checks() && self.fee_fits() ==> r is Ok,
            r matches Ok(t) ==> self.passes_checks() && self.assembled(t),
            r matches Ok(t) ==> sorted_keys_of(t.body.inputs@, entries_of(self.inputs)),
            r matches Ok(t) ==> forall|g: u64| g < t.body.fee ==> #[trigger] demand(build_fee(), self.draft(), g) > g,
            r matches Ok(t) ==> t.body.fee == linear_fee(build_fee(), transaction_cbor(t@).len() as int),
            r matches Ok(t) ==> fee_search(build_fee(), (TransactionView { fee: 0, ..t@ }), 0, MAX_FEE_ROUNDS as nat) == Some(t.body.fee),
    {
        if map_len(&self.inputs) == 0 {
            return Err(ValidationError::NoInputs);
        }
        if self.outputs.len() == 0 {
            return Err(ValidationError::NoOutputs);
        }
        if map_carries_assets(&self.collateral) {
            return Err(ValidationError::InvalidCollateralInput);
        }
        let bad_return = match &self.collateral_return {
            None => false,
            Some(o) => o.is_multiasset(),
        };
        if bad_return {
            return Err(ValidationError::InvalidCollateralReturn);
        }
        let inputs = sorted_keys(&self.inputs);
        let reference_inputs = sorted_keys(&self.reference_inputs);
        let collateral = sorted_keys(&self.collateral);
        let body = TransactionBody {
            inputs,
            outputs: self.outputs,
            fee: 0,
            ttl: self.valid_until_slot,
            certificates: none_if_empty(self.certificates),
            validity_interval_start: self.valid_from_slot,
            mint: self.mint,
            collateral: none_if_empty(collateral),
            required_signers: none_if_empty(self.required_signers),
            network_id: network_tag(self.network_params.network_id),
            collateral_return: self.collateral_return,
            reference_inputs: none_if_empty(reference_inputs),
        };
        let witness_set = Witnesses {
            native_script: none_if_empty(self.native_scripts),
            plutus_v1_script: none_if_empty(self.plutus_v1_scripts),
            plutus_v2_script: none_if_empty(self.plutus_v2_scripts),
            plutus_data: none_if_empty(self.plutus_data),
        };
        let tx = Transaction { body, witness_set, is_valid: true };
        let r = Fee::linear().with_fee(tx);
        proof {
            if r is Ok {
                assert(with_fee_field(r->Ok_0, 0) == tx);
                assert((TransactionView { fee: 0, ..r->Ok_0@ }) == tx@);
            }
            assert(self.assembled(tx));
            self.lemma_assembled_is_draft(tx);
            assert(tx@ == self.draft());
            assert(fee_view(tx@, 0) == tx@);
            if r is Ok {
                assert(r->Ok_0@ == (TransactionView { fee: r->Ok_0.body.fee, ..tx@ }));
            }
        }
        r
    }

    /// What a successful `build` returns: the checks pass, `t` is assembled from
    /// the parts, and its fee is the one the fee search finds for it.
    pub open spec fn is_build_of(self, t: Transaction) -> bool {
        &&& self.passes_checks()
        &&& self.assembled(t)
        &&& t.body.fee == linear_fee(build_fee(), transaction_cbor(t@).len() as int)
        &&& fee_search(build_fee(), (TransactionView { fee: 0, ..t@ }), 0, MAX_FEE_ROUNDS as nat) == Some(t.body.fee)
    }

    /// Builds the transaction and returns its encoding in lowercase hexadecimal.
    pub fn build_hex(self) -> (r: Result<String, ValidationError>)
        requires
            self.wf(),
        ensures
            entries_of(self.inputs).len() == 0 ==> r == Err::<String, ValidationError>(ValidationError::NoInputs),
            entries_of(self.inputs).len() > 0 && self.outputs@.len() == 0
                ==> r == Err::<String, ValidationError>(ValidationError::NoOutputs),
            entries_of(self.inputs).len() > 0 && self.outputs@.len() > 0 && any_carries_assets(entries_of(self.collateral))
                ==> r == Err::<String, ValidationError>(ValidationError::InvalidCollateralInput),
            entries_of(self.inputs).len() > 0 && self.outputs@.len() > 0 && !any_carries_assets(entries_of(self.collateral))
                && (self.collateral_return matches Some(o) && o.carries_assets())
                ==> r == Err::<String, ValidationError>(ValidationError::InvalidCollateralReturn),
            self.passes_checks() && self.found_fee() is None
                ==> r == Err::<String, ValidationError>(ValidationError::FeeComputationFailure),
            self.passes_checks() && self.fee_fits() ==> r is Ok,
            self.passes_checks() && self.found_fee() is Some
                ==> r is Ok && r->Ok_0@ == hex_of(transaction_cbor(TransactionView { fee: self.found_fee()->Some_0, ..self.draft() })),
    {
        let tx = match self.build() {
            Err(e) => return Err(e),
            Ok(t) => t,
        };
        match encode_transaction(&tx) {
            None => Err(ValidationError::EncodingFailure),
            Some(bytes) => {
                let h = to_hex(&bytes);
                Ok(h)
            },
        }
    }

    /// Building twice from the same parts gives the same transaction contents,
    /// and so the same encoded bytes: the fee search depends on the parts alone.
    pub proof fn lemma_build_deterministic(self, t1: Transaction, t2: Transaction)
        requires
            self.is_build_of(t1),
            self.is_build_of(t2),
        ensures
            t1@ == t2@,
            transaction_cbor(t1@) == transaction_cbor(t2@),
    {
        assert((TransactionView { fee: 0, ..t1@ }) == (TransactionView { fee: 0, ..t2@ }));
    }

    /// Sets the output that receives what is left of the collateral.
    pub fn collateral_return(self, output: Output) -> (r: TransactionBuilder)
        ensures
            r == (TransactionBuilder { collateral_return: Some(output), ..self }),
    {
        let mut b = self;
        b.collateral_return = Some(output);
        b
    }

    /// Appends an output.
    pub fn output(self, output: Output) -> (r: TransactionBuilder)
        ensures
            r.outputs@ == self.outputs@.push(output),
            r == (TransactionBuilder { outputs: r.outputs, ..self }),
    {
        let mut b = self;
        b.outputs.push(output);
        b
    }

    /// Sets the assets to mint (positive quantities) or burn (negative ones).
    pub fn mint(self, assets: MultiAsset<i64>) -> (r: TransactionBuilder)
        ensures
            r == (TransactionBuilder { mint: Some(assets), ..self }),
    {
        let mut b = self;
        b.mint = Some(assets);
        b
    }

    /// Appends the hash of a key that must sign the transaction.
    pub fn require_signer(self, signer: [u8; 28]) -> (r: TransactionBuilder)
        ensures
            r.required_signers@ == self.required_signers@.push(signer),
            r == (TransactionBuilder { required_signers: r.required_signers, ..self }),
    {
        let mut b = self;
        b.required_signers.push(signer);
        b
    }

    /// The transaction is valid from the slot of `timestamp` (seconds since the
    /// Unix epoch) on; an instant before genesis is refused.
    pub fn valid_from(self, timestamp: u64) -> (r: Result<TransactionBuilder, ValidationError>)
        ensures
            slot_of(timestamp as int, self.network_params.genesis_time as int, self.network_params.slot_length as int) is None
                ==> r == Err::<TransactionBuilder, ValidationError>(ValidationError::InvalidTimestamp),
            slot_of(timestamp as int, self.network_params.genesis_time as int, self.network_params.slot_length as int) matches Some(s)
                ==> r matches Ok(b) && b.valid_from_slot == Some(s as u64)
                && b == (TransactionBuilder { valid_from_slot: b.valid_from_slot, ..self }),
    {
        match self.network_params.timestamp_to_slot(timestamp) {
            None => Err(ValidationError::InvalidTimestamp),
            Some(slot) => {
                let mut b = self;
                b.valid_from_slot = Some(slot);
                Ok(b)
            },
        }
    }

    /// The transaction is valid from `slot` on.
    pub fn valid_from_slot(self, slot: u64) -> (r: TransactionBuilder)
        ensures
            r == (TransactionBuilder { valid_from_slot: Some(slot), ..self }),
    {
        let mut b = self;
        b.valid_from_slot = Some(slot);
        b
    }

    /// The transaction is valid until the slot of `timestamp` (seconds since
    /// the Unix epoch); an instant before genesis is refused.
    pub fn valid_until(self, timestamp: u64) -> (r: Result<TransactionBuilder, ValidationError>)
        ensures
            slot_of(timestamp as int, self.network_params.genesis_time as int, self.network_params.slot_length as int) is None
                ==> r == Err::<TransactionBuilder, ValidationError>(ValidationError::InvalidTimestamp),
            slot_of(timestamp as int, self.network_params.genesis_time as int, self.network_params.slot_length as int) matches Some(s)
                ==> r matches Ok(b) && b.valid_until_slot == Some(s as u64)
                && b == (TransactionBuilder { valid_until_slot: b.valid_until_slot, ..self }),
    {
        match self.network_params.timestamp_to_slot(timestamp) {
            None => Err(ValidationError::InvalidTimestamp),
            Some(slot) => {
                let mut b = self;
                b.valid_until_slot = Some(slot);
                Ok(b)
            },
        }
    }

    /// The transaction is valid until `slot`.
    pub fn valid_until_slot(self, slot: u64) -> (r: TransactionBuilder)
        ensures
            r == (TransactionBuilder { valid_until_slot: Some(slot), ..self }),
    {
        let mut b = self;
        b.valid_until_slot = Some(slot);
        b
    }

    /// Appends a certificate.
    pub fn certificate(self, cert: Certificate) -> (r: TransactionBuilder)
        ensures
            r.certificates@ == self.certificates@.push(cert),
            r == (TransactionBuilder { certificates: r.certificates, ..self }),
    {
        let mut b = self;
        b.certificates.push(cert);
        b
    }

    /// Appends a datum to the witnesses.
    pub fn plutus_data(self, data: PlutusData) -> (r: TransactionBuilder)
        ensures
            r.plutus_data@ == self.plutus_data@.push(data),
            r == (TransactionBuilder { plutus_data: r.plutus_data, ..self }),
    {
        let mut b = self;
        b.plutus_data.push(data);
        b
    }

    /// Appends a native script to the witnesses.
    pub fn native_script(self, script: NativeScript) -> (r: TransactionBuilder)
        ensures
            r.native_scripts@ == self.native_scripts@.push(script),
            r == (TransactionBuilder { native_scripts: r.native_scripts, ..self }),
    {
        let mut b = self;
        b.native_scripts.push(script);
        b
    }

    /// Appends a serialized Plutus V1 script to the witnesses.
    pub fn plutus_v1_script(self, script: Vec<u8>) -> (r: TransactionBuilder)
        ensures
            r.plutus_v1_scripts@ == self.plutus_v1_scripts@.push(script),
            r == (TransactionBuilder { plutus_v1_scripts: r.plutus_v1_scripts, ..self }),
    {
        let mut b = self;
        b.plutus_v1_scripts.push(script);
        b
    }

    /// Appends a serialized Plutus V2 script to the witnesses.
    pub fn plutus_v2_script(self, script: Vec<u8>) -> (r: TransactionBuilder)
        ensures
            r.plutus_v2_scripts@ == self.plutus_v2_scripts@.push(script),
            r == (TransactionBuilder { plutus_v2_scripts: r.plutus_v2_scripts, ..self }),
    {
        let mut b = self;
        b.plutus_v2_scripts.push(script);
        b
    }
}

} // verus!
