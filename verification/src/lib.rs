//! A precompiled-contract bridge between selector-tagged, word-encoded contract
//! calls and a multi-asset balance ledger.
//!
//! A call arrives as a byte buffer. The bridge reads the action from the
//! selector word, prices it for the asset that the calling address stands for,
//! holds the price against the caller's gas ceiling, and only then asks for the
//! ledger to be consulted. The ledger itself, the asset metadata and the mapping
//! of addresses to accounts live outside this crate: [`MultiCurrencyPrecompile::execute`]
//! says which question has to be put to them, and [`Pending::complete`] turns
//! the answer into the outcome of the call.

pub mod action;
pub mod currency;
pub mod error;
pub mod input;
pub mod output;
pub mod precompile;
pub mod pricer;
pub mod runtime;
pub mod weights;
pub mod word;

pub use action::Action;
pub use currency::{CurrencyId, DexShare, EvmAddress};
pub use error::DecodeError;
pub use input::Input;
pub use output::Output;
pub use precompile::{
    ExecutionOutcome, FatalKind, MultiCurrencyPrecompile, Pending, Reply, Request, Step,
};
pub use pricer::Pricer;
pub use runtime::Runtime;
pub use weights::{DbWeight, Weight, WeightInfo, WeightToGas};
