//! Campaign escrow and affiliate settlement: campaign and affiliate-link
//! records, the commission split, escrow custody of the listed asset and the
//! settlement that ties them together.

pub mod address;
pub mod affiliate;
pub mod authority;
pub mod campaign;
pub mod commission;
pub mod error;
pub mod escrow;
pub mod record;
pub mod settlement;
pub mod state;
