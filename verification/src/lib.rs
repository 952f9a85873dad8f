//! A subscription-billing escrow ledger.
//!
//! Providers register and publish recurring-payment plans; subscribers fund an
//! escrow balance that is debited once per interval to pay the provider, net of
//! a protocol fee.
//!
//! [`model`] says what the ledger is and what each operation does to it;
//! [`escrow`] is the executable ledger, proved to do just that; [`laws`] holds
//! what follows for every sequence of calls.

pub mod address;
pub mod error;
pub mod escrow;
pub mod event;
pub mod fee;
pub mod laws;
pub mod model;
pub mod record;
pub mod table;
pub mod uint;

pub use address::Address;
pub use error::SubscriptionError;
pub use escrow::SubscriptionEscrow;
pub use event::Event;
pub use record::{PendingPayment, PendingSubscription, PendingWithdrawal, Plan, Subscription};
pub use uint::U256;
