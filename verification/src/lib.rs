//! A bonding-curve token engine with two companion record stores.
//!
//! The engine issues a fungible claim token against a linear price curve and
//! lets holders trade it against a pooled reserve. Every operation is a single
//! transition on an explicit state value: it either commits in full and
//! reports what has to happen outside (a payment leg, an event), or it returns
//! an error and leaves the state as it was.

pub mod address;
pub mod balances;
pub mod curve;
pub mod error;
pub mod laws;
pub mod marketplace;
pub mod registry;
pub mod token;

pub use crate::address::Address;
pub use crate::balances::{Balances, Holding};
pub use crate::curve::Quote;
pub use crate::error::{MarketplaceError, RegistryError, TokenError};
pub use crate::marketplace::{
    Listing, ListingRecord, MarketplaceConfig, MarketplaceView, PapexMarketplace, Trade,
};
pub use crate::registry::{Paper, PaperRecord, PaperStatus, PapexRegistry, RegistryView};
pub use crate::token::{Config, Effects, PapexToken, Payment, TokenEvent, TokenSummary, TokenView};
