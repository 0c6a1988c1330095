pub use crate::builder::TransactionBuilder;
pub use crate::error::ValidationError;
pub use crate::fee::Fee;
pub use crate::model::{Input, MultiAsset, Output};
pub use crate::network::NetworkParams;
pub use crate::transaction::{NetworkTag, Transaction, TransactionBody, Witnesses};

pub use pallas_crypto::key::ed25519::{PublicKey, SecretKey};
pub use pallas_primitives::alonzo::Certificate;
