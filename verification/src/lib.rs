//! Typed bindings for a chain's token-factory module: a closed vocabulary of
//! messages a contract may send (denom creation, minting, burning, admin
//! transfer, metadata, forced transfer) and queries it may issue, together
//! with a verified model of the field-tagged wire encoding both travel in.
//!
//! All validation and state mutation happen in the host chain module; this
//! crate only builds the values and proves that encoding them to the wire
//! form and decoding back is lossless.

pub mod amount;
pub mod codec;
pub mod laws;
pub mod schema;
pub mod wire;

pub use amount::Uint256;
pub use schema::AdminResponse;
pub use schema::DenomCreationFee;
pub use schema::DenomMetadata;
pub use schema::DenomUnit;
pub use schema::DenomsByCreatorResponse;
pub use schema::FullDenomResponse;
pub use schema::MetadataResponse;
pub use schema::TokenFactoryMsg;
pub use schema::TokenFactoryQuery;
pub use schema::TokenParams;
pub use schema::TokenParamsResponse;
