use pallas_primitives::babbage::{NativeScript, PlutusData};
use vstd::prelude::*;

verus! {

/// A reference to an output of an earlier transaction: its 32-byte hash and
/// the position of the output in it.
#[derive(Debug, Clone, Copy, PartialEq, Eq, Hash)]
pub struct Input {
    pub tx_hash: [u8; 32],
    pub index: u64,
}

impl Input {
    pub fn build(tx_hash: [u8; 32], index: u64) -> (r: Input)
        ensures
            r.tx_hash == tx_hash,
            r.index == index,
    {
        Input { tx_hash, index }
    }

    /// The pair that identifies the input; two inputs are the same input
    /// exactly when their keys are equal.
    pub open spec fn key(self) -> ([u8; 32], u64) {
        (self.tx_hash, self.index)
    }
}

/// `a` comes before `b` in byte order: they agree up to some position, where
/// `a` holds the smaller byte.
pub open spec fn bytes_lt(a: Seq<u8>, b: Seq<u8>) -> bool {
    exists|i: int| 0 <= i < a.len() && i < b.len() && a.take(i) == b.take(i) && a[i] < b[i]
}

/// The order of inputs: by transaction hash in byte order, then by index.
pub open spec fn input_lt(a: Input, b: Input) -> bool {
    bytes_lt(a.tx_hash@, b.tx_hash@) || (a.tx_hash@ == b.tx_hash@ && a.index < b.index)
}

/// How `a` compares with `b` in the order of inputs.
pub fn compare_inputs(a: &Input, b: &Input) -> (r: std::cmp::Ordering)
    ensures
        (r == std::cmp::Ordering::Less) == input_lt(*a, *b),
        r == std::cmp::Ordering::Greater ==> input_lt(*b, *a),
        r == std::cmp::Ordering::Equal ==> *a == *b,
{
    let mut i: usize = 0;
    while i < 32
        invariant
            i <= 32,
            a.tx_hash@.len() == 32,
            b.tx_hash@.len() == 32,
            a.tx_hash@.take(i as int) == b.tx_hash@.take(i as int),
        decreases 32 - i,
    {
        if a.tx_hash[i] < b.tx_hash[i] {
            assert(bytes_lt(a.tx_hash@, b.tx_hash@));
            return std::cmp::Ordering::Less;
        }
        if a.tx_hash[i] > b.tx_hash[i] {
            assert(bytes_lt(b.tx_hash@, a.tx_hash@));
            assert forall|k: int| 0 <= k < 32 && a.tx_hash@.take(k) == b.tx_hash@.take(k) implies !(a.tx_hash@[k] < b.tx_hash@[k]) by {
                if k < i {
                    assert(a.tx_hash@.take(i as int)[k] == b.tx_hash@.take(i as int)[k]);
                } else if k > i {
                    assert(a.tx_hash@.take(k)[i as int] == b.tx_hash@.take(k)[i as int]);
                }
            }
            assert(a.tx_hash@ != b.tx_hash@);
            return std::cmp::Ordering::Greater;
        }
        assert(a.tx_hash@.take(i + 1) =~= a.tx_hash@.take(i as int).push(a.tx_hash@[i as int]));
        assert(b.tx_hash@.take(i + 1) =~= b.tx_hash@.take(i as int).push(b.tx_hash@[i as int]));
        i = i + 1;
    }
    assert(a.tx_hash@ =~= a.tx_hash@.take(32));
    assert(b.tx_hash@ =~= b.tx_hash@.take(32));
    assert(!bytes_lt(a.tx_hash@, b.tx_hash@));
    if a.index < b.index {
        std::cmp::Ordering::Less
    } else if a.index > b.index {
        std::cmp::Ordering::Greater
    } else {
        assert(a.tx_hash == b.tx_hash);
        std::cmp::Ordering::Equal
    }
}

/// Quantities of native assets, grouped by the 28-byte policy that governs
/// them; each policy appears at most once.
#[derive(Debug, Clone)]
pub struct MultiAsset<T> {
    pub policies: Vec<([u8; 28], Vec<(Vec<u8>, T)>)>,
}

/// The entries of one policy group, as names and quantities.
pub open spec fn group_view<T>(g: Seq<(Vec<u8>, T)>) -> Seq<(Seq<u8>, T)> {
    g.map_values(|e: (Vec<u8>, T)| (e.0@, e.1))
}

/// Whether the two arrays hold the same bytes.
pub fn same_policy(a: &[u8; 28], b: &[u8; 28]) -> (r: bool)
    ensures
        r == (a@ == b@),
{
    let mut i: usize = 0;
    while i < 28
        invariant
            i <= 28,
            a@.len() == 28,
            b@.len() == 28,
            forall|j: int| 0 <= j < i ==> a@[j] == b@[j],
        decreases 28 - i,
    {
        if a[i] != b[i] {
            return false;
        }
        i = i + 1;
    }
    assert(a@ =~= b@);
    true
}

impl<T> MultiAsset<T> {
    /// Policy groups as policy bytes and their entries.
    pub open spec fn view(self) -> Seq<(Seq<u8>, Seq<(Seq<u8>, T)>)> {
        self.policies@.map_values(|g: ([u8; 28], Vec<(Vec<u8>, T)>)| (g.0@, group_view(g.1@)))
    }

    /// No policy appears twice.
    pub open spec fn wf(self) -> bool {
        forall|i: int, j: int|
            0 <= i < j < self.policies@.len() ==> self.policies@[i].0@ != self.policies@[j].0@
    }

    pub fn new() -> (r: MultiAsset<T>)
        ensures
            r.wf(),
            r.view() == Seq::<(Seq<u8>, Seq<(Seq<u8>, T)>)>::empty(),
    {
        MultiAsset { policies: Vec::new() }
    }

    /// Records `quantity` of the asset `name` under `policy`: appended to the
    /// policy's group when the policy is present, else in a new group at the end.
    pub fn add(self, policy: [u8; 28], name: Vec<u8>, quantity: T) -> (r: MultiAsset<T>)
        requires
            self.wf(),
        ensures
            r.wf(),
            (exists|i: int| 0 <= i < self.view().len() && self.view()[i].0 == policy@) ==> exists|i: int|
                0 <= i < self.view().len() && self.view()[i].0 == policy@ && r.view() == self.view().update(
                    i,
                    (policy@, self.view()[i].1.push((name@, quantity))),
                ),
            !(exists|i: int| 0 <= i < self.view().len() && self.view()[i].0 == policy@) ==> r.view()
                == self.view().push((policy@, seq![(name@, quantity)])),
    {
        let mut policies = self.policies;
        let mut i: usize = 0;
        while i < policies.len() && !same_policy(&policies[i].0, &policy)
            invariant
                i <= policies@.len(),
                policies@ == self.policies@,
                forall|j: int| 0 <= j < i ==> policies@[j].0@ != policy@,
            decreases policies@.len() - i,
        {
            i = i + 1;
        }
        if i < policies.len() {
            let ghost before = policies@;
            let (p, mut names) = policies.remove(i);
            let ghost names0 = names@;
            names.push((name, quantity));
            assert(group_view(names@) =~= group_view(names0).push((name@, quantity)));
            policies.insert(i, (p, names));
            assert(policies@ =~= before.update(i as int, (p, names)));
            let r = MultiAsset { policies };
            assert(self.view()[i as int].0 == policy@);
            assert(r.view() =~= self.view().update(
                i as int,
                (policy@, self.view()[i as int].1.push((name@, quantity))),
            ));
            r
        } else {
            let mut names: Vec<(Vec<u8>, T)> = Vec::new();
            names.push((name, quantity));
            policies.push((policy, names));
            let r = MultiAsset { policies };
            assert(group_view(names@) =~= seq![(name@, quantity)]);
            assert(r.view() =~= self.view().push((policy@, seq![(name@, quantity)])));
            r
        }
    }
}

/// The datum attached to an output: its 32-byte hash, or the datum itself.
#[derive(Debug, Clone)]
pub enum Datum {
    Hash([u8; 32]),
    Inline(PlutusData),
}

/// A script that an output makes available to later transactions; Plutus
/// scripts are held as their serialized bytes.
#[derive(Debug, Clone)]
pub enum ScriptRef {
    Native(NativeScript),
    PlutusV1(Vec<u8>),
    PlutusV2(Vec<u8>),
}

/// An output: the address that receives it, its lovelace amount, the
/// quantities of native assets when it carries any, and optionally a datum
/// and a reference script.
#[derive(Debug, Clone)]
pub struct Output {
    pub address: Vec<u8>,
    pub lovelace: u64,
    pub assets: Option<MultiAsset<u64>>,
    pub datum: Option<Datum>,
    pub script_ref: Option<ScriptRef>,
}

/// Whether some policy group holds an entry of non-zero quantity.
pub open spec fn has_nonzero(m: Seq<(Seq<u8>, Seq<(Seq<u8>, u64)>)>) -> bool {
    exists|i: int, j: int| 0 <= i < m.len() && 0 <= j < m[i].1.len() && m[i].1[j].1 != 0
}

impl Output {
    pub fn lovelaces(address: Vec<u8>, amount: u64) -> (r: Output)
        ensures
            r.address@ == address@,
            r.lovelace == amount,
            r.assets is None,
            r.datum is None,
            r.script_ref is None,
    {
        Output { address, lovelace: amount, assets: None, datum: None, script_ref: None }
    }

    pub fn multiasset(address: Vec<u8>, amount: u64, assets: MultiAsset<u64>) -> (r: Output)
        ensures
            r.address@ == address@,
            r.lovelace == amount,
            r.assets == Some(assets),
            r.datum is None,
            r.script_ref is None,
    {
        Output { address, lovelace: amount, assets: Some(assets), datum: None, script_ref: None }
    }

    /// The same output, carrying `datum`.
    pub fn with_datum(self, datum: Datum) -> (r: Output)
        ensures
            r == (Output { datum: Some(datum), ..self }),
    {
        let mut o = self;
        o.datum = Some(datum);
        o
    }

    /// The same output, offering `script` for reference.
    pub fn with_script_ref(self, script: ScriptRef) -> (r: Output)
        ensures
            r == (Output { script_ref: Some(script), ..self }),
    {
        let mut o = self;
        o.script_ref = Some(script);
        o
    }

    /// The output carries a native asset in a non-zero quantity.
    pub open spec fn carries_assets(self) -> bool {
        self.assets matches Some(m) && has_nonzero(m.view())
    }

    pub fn is_multiasset(&self) -> (r: bool)
        ensures
            r == self.carries_assets(),
    {
        match &self.assets {
            None => false,
            Some(m) => {
                let mut i: usize = 0;
                while i < m.policies.len()
                    invariant
                        i <= m.policies@.len(),
                        self.assets == Some(*m),
                        forall|a: int, b: int|
                            0 <= a < i && 0 <= b < m.view()[a].1.len() ==> m.view()[a].1[b].1 == 0,
                    decreases m.policies@.len() - i,
                {
                    let names = &m.policies[i].1;
                    let mut j: usize = 0;
                    while j < names.len()
                        invariant
                            i < m.policies@.len(),
                            self.assets == Some(*m),
                            names == &m.policies@[i as int].1,
                            j <= names@.len(),
                            forall|a: int, b: int|
                                0 <= a < i && 0 <= b < m.view()[a].1.len() ==> m.view()[a].1[b].1 == 0,
                            forall|b: int| 0 <= b < j ==> m.view()[i as int].1[b].1 == 0,
                        decreases names@.len() - j,
                    {
                        if names[j].1 != 0 {
                            assert(m.view()[i as int].1 == group_view(names@));
                            assert(m.view()[i as int].1[j as int].1 != 0);
                            assert(has_nonzero(m.view()));
                            assert(self.assets == Some(*m));
                            return true;
                        }
                        j = j + 1;
                    }
                    i = i + 1;
                }
                false
            },
        }
    }
}

} // verus!
