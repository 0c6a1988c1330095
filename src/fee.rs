use crate::error::ValidationError;
use crate::ledger::{encode_transaction, transaction_cbor};
use crate::transaction::{fee_view, Transaction, TransactionBody, TransactionView};
use vstd::prelude::*;

verus! {

/// How many times the fee is recomputed before the search gives up.
pub const MAX_FEE_ROUNDS: u64 = 10;

/// A linear fee: a fixed part plus a price per byte of the encoded transaction.
#[derive(Debug, Clone, Copy, PartialEq, Eq, Structural)]
pub struct Fee {
    pub constant: u64,
    pub per_byte: u64,
}

/// The fee that the linear formula asks for a transaction of `size` bytes.
pub open spec fn linear_fee(fee: Fee, size: int) -> int {
    fee.constant + fee.per_byte * size
}

/// `tx` with its fee field set to `f`, every other field kept.
pub open spec fn with_fee_field(tx: Transaction, f: u64) -> Transaction {
    Transaction { body: TransactionBody { fee: f, ..tx.body }, ..tx }
}

/// The fee search from `tried` with `rounds` recomputations left: the fee at
/// which the formula first agrees with the size of the transaction encoded
/// with that fee, or `None` when the rounds run out or a fee does not fit.
pub open spec fn fee_search(fee: Fee, tx: TransactionView, tried: u64, rounds: nat) -> Option<u64>
    decreases rounds,
{
    if rounds == 0 {
        None
    } else {
        let f = linear_fee(fee, transaction_cbor(TransactionView { fee: tried, ..tx }).len() as int);
        if f > u64::MAX {
            None
        } else if f == tried {
            Some(tried)
        } else {
            fee_search(fee, tx, f as u64, (rounds - 1) as nat)
        }
    }
}

/// The formula asks no less for more bytes.
pub proof fn lemma_linear_fee_grows(fee: Fee, a: int, b: int)
    requires
        0 <= a <= b,
    ensures
        linear_fee(fee, a) <= linear_fee(fee, b),
{
    assert(fee.per_byte * a <= fee.per_byte * b) by (nonlinear_arith)
        requires fee.per_byte >= 0, a <= b;
}

/// The fee that the formula asks for the transaction `v` carrying fee `g`.
pub open spec fn demand(fee: Fee, v: TransactionView, g: u64) -> int {
    linear_fee(fee, transaction_cbor(fee_view(v, g)).len() as int)
}

impl Fee {
    /// The mainnet formula: 155381 plus 44 per byte.
    pub fn linear() -> (r: Fee)
        ensures
            r.constant == 155381,
            r.per_byte == 44,
    {
        Fee { constant: 155381, per_byte: 44 }
    }

    /// The fee for `size` encoded bytes, or `None` when it does not fit in a `u64`.
    pub fn min_fee(&self, size: u64) -> (r: Option<u64>)
        ensures
            r matches Some(f) ==> f == linear_fee(*self, size as int),
            r is None <==> linear_fee(*self, size as int) > u64::MAX,
    {
        match self.per_byte.checked_mul(size) {
            None => {
                assert(linear_fee(*self, size as int) > u64::MAX) by (nonlinear_arith)
                    requires self.per_byte * size > u64::MAX, self.constant >= 0;
                None
            },
            Some(p) => self.constant.checked_add(p),
        }
    }

    /// One step of the fee search: given the fee just tried and the size of the
    /// transaction encoded with it, the search has ended (`Ok(true)`), must go on
    /// with the fee for that size (`Ok(false)`), or the fee does not fit.
    pub fn settled(&self, tried: u64, size: u64) -> (r: Result<bool, ValidationError>)
        ensures
            r == (if linear_fee(*self, size as int) > u64::MAX {
                Err::<bool, ValidationError>(ValidationError::FeeComputationFailure)
            } else {
                Ok(linear_fee(*self, size as int) == tried as int)
            }),
    {
        match self.min_fee(size) {
            None => Err(ValidationError::FeeComputationFailure),
            Some(f) => Ok(f == tried),
        }
    }

    /// Sets the fee of `tx` to a value that pays, by the formula, for the size of
    /// the transaction encoded with that very value. The search starts at zero and
    /// recomputes the fee from the new size at most `MAX_FEE_ROUNDS` times.
    pub fn with_fee(&self, tx: Transaction) -> (r: Result<Transaction, ValidationError>)
        ensures
            r matches Ok(t) ==> t == with_fee_field(tx, t.body.fee),
            r matches Ok(t) ==> t.body.fee == linear_fee(*self, transaction_cbor(t@).len() as int),
            r matches Ok(t) ==> fee_search(*self, tx@, 0, MAX_FEE_ROUNDS as nat) == Some(t.body.fee),
            r matches Ok(t) ==> forall|g: u64| g < t.body.fee ==> #[trigger] demand(*self, tx@, g) > g,
            r is Err ==> r == Err::<Transaction, ValidationError>(ValidationError::FeeComputationFailure),
            linear_fee(*self, transaction_cbor(fee_view(tx@, 0)).len() as int + 8) <= u64::MAX ==> r is Ok,
            fee_search(*self, tx@, 0, MAX_FEE_ROUNDS as nat) is Some <==> r is Ok,
    {
        let mut cur = tx;
        let mut fee: u64 = 0;
        let ghost s0: int = transaction_cbor(fee_view(tx@, 0)).len() as int;
        let ghost bound_ok: bool = linear_fee(*self, s0 + 8) <= u64::MAX;
        let ghost mut x: int = 0;
        let mut round: u64 = 0;
        while round < MAX_FEE_ROUNDS
            invariant
                round <= MAX_FEE_ROUNDS,
                cur == with_fee_field(tx, cur.body.fee),
                fee_search(*self, tx@, 0, MAX_FEE_ROUNDS as nat) == fee_search(*self, tx@, fee, (MAX_FEE_ROUNDS - round) as nat),
                demand(*self, tx@, fee) >= fee,
                forall|g: u64| g < fee ==> #[trigger] demand(*self, tx@, g) > g,
                s0 == transaction_cbor(fee_view(tx@, 0)).len() as int,
                bound_ok == (linear_fee(*self, s0 + 8) <= u64::MAX),
                round == 0 ==> fee == 0,
                round > 0 && bound_ok ==> forall|g: u64| s0 <= #[trigger] transaction_cbor(fee_view(tx@, g)).len() <= s0 + 8,
                round > 0 && bound_ok ==> fee == linear_fee(*self, x) && x <= transaction_cbor(fee_view(tx@, fee)).len()
                    && MAX_FEE_ROUNDS - round >= s0 + 8 - x + 1,
            decreases MAX_FEE_ROUNDS - round,
        {
            cur.body.fee = fee;
            assert(cur == with_fee_field(tx, fee));
            assert(cur@ == (TransactionView { fee: fee, ..tx@ }));
            let bytes = match encode_transaction(&cur) {
                None => return Err(ValidationError::EncodingFailure),
                Some(b) => b,
            };
            let size = bytes.len() as u64;
            proof {
                if round == 0 {
                    assert forall|g: u64| s0 <= #[trigger] transaction_cbor(fee_view(tx@, g)).len() <= s0 + 8 by {
                        assert(fee_view(cur@, g) == fee_view(tx@, g));
                    }
                }
                if bound_ok {
                    assert(fee_view(cur@, fee) == fee_view(tx@, fee));
                    lemma_linear_fee_grows(*self, bytes@.len() as int, s0 + 8);
                }
            }
            match self.settled(fee, size) {
                Err(e) => return Err(e),
                Ok(true) => return Ok(cur),
                Ok(false) => {
                    let next = self.constant + self.per_byte * size;
                    proof {
                        assert(demand(*self, tx@, fee) == next);
                        assert forall|g: u64| g < next implies #[trigger] demand(*self, tx@, g) > g by {
                            if g >= fee {
                                assert(transaction_cbor(fee_view(cur@, g)).len() >= bytes@.len());
                                assert(fee_view(cur@, g) == fee_view(tx@, g));
                                lemma_linear_fee_grows(*self, bytes@.len() as int,
                                    transaction_cbor(fee_view(tx@, g)).len() as int);
                            }
                        }
                        assert(transaction_cbor(fee_view(cur@, next)).len() >= bytes@.len());
                        assert(fee_view(cur@, next) == fee_view(tx@, next));
                        lemma_linear_fee_grows(*self, bytes@.len() as int,
                            transaction_cbor(fee_view(tx@, next)).len() as int);
                    }
                    proof {
                        if bound_ok && round > 0 {
                            assert(bytes@.len() != x);
                        }
                        x = bytes@.len() as int;
                    }
                    fee = next;
                },
            }
            round = round + 1;
        }
        Err(ValidationError::FeeComputationFailure)
    }
}

} // verus!
