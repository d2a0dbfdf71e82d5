//! A two-step, escrow-free sale instruction set for single-item listings.
//!
//! A seller publishes a `Drop`: a fixed price, a commission rate in basis
//! points, and a metadata URI. A buyer later pays exactly that price in one
//! atomic operation that splits the payment between the seller and a platform
//! commission recipient, mints one unit of a fresh non-fungible asset to the
//! buyer, and registers descriptive metadata for it.
//!
//! The host ledger runtime (account loading, signatures, cross-program calls)
//! is out of scope; this crate holds the decision logic and an explicit
//! staged-commit model of the ledger transition, both verified.

pub mod errors;
pub mod executor;
pub mod fees;
pub mod ledger;
pub mod listing;
pub mod sale;

pub use errors::ErrorCode;
pub use errors::LedgerError;
pub use errors::SaleError;
pub use executor::execute_buy;
pub use executor::SaleReceipt;
pub use fees::split_payment;
pub use fees::PaymentSplit;
pub use ledger::IssuedAsset;
pub use ledger::Ledger;
pub use listing::create_drop;
pub use listing::Drop;
pub use sale::buy_drop;
pub use sale::AssetMetadata;
pub use sale::Creator;
pub use sale::MintPlan;
pub use sale::SaleConfig;
pub use sale::SalePlan;
pub use sale::Transfer;
