//! The token-factory message and query vocabulary, the typed responses, and
//! total constructor functions for each message and query variant.
//!
//! Every type here is a plain immutable value; constructing one cannot fail.
//! Each type has a deep view: a ghost mirror over `Seq<char>`, `nat` and
//! `Seq`, which the wire codec and its round-trip laws are stated over.

use vstd::prelude::*;

use crate::amount::Uint256;

verus! {

/// One display/base unit pairing for a token, part of its bank metadata.
#[derive(Clone, Debug, PartialEq, Eq)]
pub struct DenomUnit {
    /// Name of this denom unit (e.g. `uatom`).
    pub denom: String,
    /// Power of ten relating this unit to the base denom: 1 of this unit is
    /// 10^exponent of the base denom.
    pub exponent: u32,
    /// Alternative names for this denom unit.
    pub aliases: Vec<String>,
}

/// Bank-module metadata describing a token. The host expects exactly one
/// unit with exponent 0 whose denom equals `base`; that invariant is the
/// host's to enforce, not this layer's.
#[derive(Clone, Debug, PartialEq, Eq)]
pub struct DenomMetadata {
    pub description: String,
    /// The list of denom units for the coin.
    pub denom_units: Vec<DenomUnit>,
    /// The base denom (the unit with exponent 0).
    pub base: String,
    /// The denom clients are suggested to display.
    pub display: String,
    /// Human-readable token name.
    pub name: String,
    /// Token symbol, e.g. as shown on exchanges.
    pub symbol: String,
}

/// The mutating operations a contract can ask the token-factory module to
/// perform. All validation happens host-side.
#[derive(Clone, Debug, PartialEq, Eq)]
pub enum TokenFactoryMsg {
    /// Creates the denom `factory/{creating contract address}/{subdenom}`.
    /// The creating contract becomes its admin.
    CreateDenom { subdenom: String, metadata: Option<DenomMetadata> },
    /// Changes the admin of a factory denom. An empty new admin address
    /// leaves the denom with no admin.
    ChangeAdmin { denom: String, new_admin_address: String },
    /// Mints tokens of a factory denom the sender administers.
    MintTokens { denom: String, amount: Uint256, mint_to_address: String },
    /// Burns tokens of a factory denom the sender administers.
    BurnTokens { denom: String, amount: Uint256, burn_from_address: String },
    /// Sets the bank metadata on a denom the sender controls.
    SetMetadata { metadata: DenomMetadata },
    /// Forces a transfer between two addresses.
    ForceTransfer { denom: String, from_address: String, to_address: String, amount: Uint256 },
}

/// The read-only lookups a contract can issue against token-factory state.
#[derive(Clone, Debug, PartialEq, Eq)]
pub enum TokenFactoryQuery {
    /// Asks the host for the full denom `factory/{creator_addr}/{subdenom}`.
    FullDenom { subdenom: String, creator_addr: String },
    /// Asks for the admin of a denom; the answer is empty if it has none.
    Admin { denom: String },
    /// Asks for the bank metadata of a denom, absent if it has none.
    Metadata { denom: String },
    /// Asks for all denoms a creator has created.
    DenomsByCreator { creator: String },
    /// Asks for the module parameters (the denom creation fee schedule).
    Params {},
}

/// Answer to [`TokenFactoryQuery::FullDenom`].
#[derive(Clone, Debug, PartialEq, Eq)]
pub struct FullDenomResponse {
    pub denom: String,
}

/// Answer to [`TokenFactoryQuery::Admin`]; `admin` is the empty string when
/// the denom has no admin.
#[derive(Clone, Debug, PartialEq, Eq)]
pub struct AdminResponse {
    pub admin: String,
}

/// Answer to [`TokenFactoryQuery::Metadata`]; `metadata` is absent when the
/// denom has none.
#[derive(Clone, Debug, PartialEq, Eq)]
pub struct MetadataResponse {
    pub metadata: Option<DenomMetadata>,
}

/// Answer to [`TokenFactoryQuery::DenomsByCreator`]; the sequence is empty
/// when the creator has created none.
#[derive(Clone, Debug, PartialEq, Eq)]
pub struct DenomsByCreatorResponse {
    pub denoms: Vec<String>,
}

/// One entry of the denom creation fee schedule.
#[derive(Clone, Debug, PartialEq, Eq)]
pub struct DenomCreationFee {
    pub amount: Uint256,
    pub denom: String,
}

/// The token-factory module parameters.
#[derive(Clone, Debug, PartialEq, Eq)]
pub struct TokenParams {
    /// The fee charged for creating a denom; empty when creation is free.
    pub denom_creation_fee: Vec<DenomCreationFee>,
}

/// Answer to [`TokenFactoryQuery::Params`].
#[derive(Clone, Debug, PartialEq, Eq)]
pub struct TokenParamsResponse {
    pub params: TokenParams,
}

// ---------------------------------------------------------------------------
// Deep views: ghost mirrors of the types above.
// ---------------------------------------------------------------------------

pub ghost struct DenomUnitV {
    pub denom: Seq<char>,
    pub exponent: u32,
    pub aliases: Seq<Seq<char>>,
}

pub ghost struct DenomMetadataV {
    pub description: Seq<char>,
    pub denom_units: Seq<DenomUnitV>,
    pub base: Seq<char>,
    pub display: Seq<char>,
    pub name: Seq<char>,
    pub symbol: Seq<char>,
}

pub ghost enum TokenFactoryMsgV {
    CreateDenom { subdenom: Seq<char>, metadata: Option<DenomMetadataV> },
    ChangeAdmin { denom: Seq<char>, new_admin_address: Seq<char> },
    MintTokens { denom: Seq<char>, amount: nat, mint_to_address: Seq<char> },
    BurnTokens { denom: Seq<char>, amount: nat, burn_from_address: Seq<char> },
    SetMetadata { metadata: DenomMetadataV },
    ForceTransfer { denom: Seq<char>, from_address: Seq<char>, to_address: Seq<char>, amount: nat },
}

pub ghost enum TokenFactoryQueryV {
    FullDenom { subdenom: Seq<char>, creator_addr: Seq<char> },
    Admin { denom: Seq<char> },
    Metadata { denom: Seq<char> },
    DenomsByCreator { creator: Seq<char> },
    Params,
}

pub ghost struct FullDenomResponseV {
    pub denom: Seq<char>,
}

pub ghost struct AdminResponseV {
    pub admin: Seq<char>,
}

pub ghost struct MetadataResponseV {
    pub metadata: Option<DenomMetadataV>,
}

pub ghost struct DenomsByCreatorResponseV {
    pub denoms: Seq<Seq<char>>,
}

pub ghost struct DenomCreationFeeV {
    pub amount: nat,
    pub denom: Seq<char>,
}

pub ghost struct TokenParamsV {
    pub denom_creation_fee: Seq<DenomCreationFeeV>,
}

pub ghost struct TokenParamsResponseV {
    pub params: TokenParamsV,
}

impl DeepView for Uint256 {
    type V = nat;

    open spec fn deep_view(&self) -> nat {
        self.value()
    }
}

impl DeepView for DenomUnit {
    type V = DenomUnitV;

    open spec fn deep_view(&self) -> DenomUnitV {
        DenomUnitV {
            denom: self.denom@,
            exponent: self.exponent,
            aliases: self.aliases.deep_view(),
        }
    }
}

impl DeepView for DenomMetadata {
    type V = DenomMetadataV;

    open spec fn deep_view(&self) -> DenomMetadataV {
        DenomMetadataV {
            description: self.description@,
            denom_units: self.denom_units.deep_view(),
            base: self.base@,
            display: self.display@,
            name: self.name@,
            symbol: self.symbol@,
        }
    }
}

impl DeepView for TokenFactoryMsg {
    type V = TokenFactoryMsgV;

    open spec fn deep_view(&self) -> TokenFactoryMsgV {
        match self {
            TokenFactoryMsg::CreateDenom { subdenom, metadata } => (TokenFactoryMsgV::CreateDenom {
                subdenom: subdenom@,
                metadata: metadata.deep_view(),
            }),
            TokenFactoryMsg::ChangeAdmin { denom, new_admin_address } => (TokenFactoryMsgV::ChangeAdmin {
                denom: denom@,
                new_admin_address: new_admin_address@,
            }),
            TokenFactoryMsg::MintTokens { denom, amount, mint_to_address } => (TokenFactoryMsgV::MintTokens {
                denom: denom@,
                amount: amount.value(),
                mint_to_address: mint_to_address@,
            }),
            TokenFactoryMsg::BurnTokens { denom, amount, burn_from_address } => (TokenFactoryMsgV::BurnTokens {
                denom: denom@,
                amount: amount.value(),
                burn_from_address: burn_from_address@,
            }),
            TokenFactoryMsg::SetMetadata { metadata } => (TokenFactoryMsgV::SetMetadata {
                metadata: metadata.deep_view(),
            }),
            TokenFactoryMsg::ForceTransfer { denom, from_address, to_address, amount } => (TokenFactoryMsgV::ForceTransfer {
                denom: denom@,
                from_address: from_address@,
                to_address: to_address@,
                amount: amount.value(),
            }),
        }
    }
}

impl DeepView for TokenFactoryQuery {
    type V = TokenFactoryQueryV;

    open spec fn deep_view(&self) -> TokenFactoryQueryV {
        match self {
            TokenFactoryQuery::FullDenom { subdenom, creator_addr } => (TokenFactoryQueryV::FullDenom {
                subdenom: subdenom@,
                creator_addr: creator_addr@,
            }),
            TokenFactoryQuery::Admin { denom } => (TokenFactoryQueryV::Admin { denom: denom@ }),
            TokenFactoryQuery::Metadata { denom } => (TokenFactoryQueryV::Metadata { denom: denom@ }),
            TokenFactoryQuery::DenomsByCreator { creator } => (TokenFactoryQueryV::DenomsByCreator {
                creator: creator@,
            }),
            TokenFactoryQuery::Params {  } => TokenFactoryQueryV::Params,
        }
    }
}

impl DeepView for FullDenomResponse {
    type V = FullDenomResponseV;

    open spec fn deep_view(&self) -> FullDenomResponseV {
        FullDenomResponseV { denom: self.denom@ }
    }
}

impl DeepView for AdminResponse {
    type V = AdminResponseV;

    open spec fn deep_view(&self) -> AdminResponseV {
        AdminResponseV { admin: self.admin@ }
    }
}

impl DeepView for MetadataResponse {
    type V = MetadataResponseV;

    open spec fn deep_view(&self) -> MetadataResponseV {
        MetadataResponseV { metadata: self.metadata.deep_view() }
    }
}

impl DeepView for DenomsByCreatorResponse {
    type V = DenomsByCreatorResponseV;

    open spec fn deep_view(&self) -> DenomsByCreatorResponseV {
        DenomsByCreatorResponseV { denoms: self.denoms.deep_view() }
    }
}

impl DeepView for DenomCreationFee {
    type V = DenomCreationFeeV;

    open spec fn deep_view(&self) -> DenomCreationFeeV {
        DenomCreationFeeV { amount: self.amount.value(), denom: self.denom@ }
    }
}

impl DeepView for TokenParams {
    type V = TokenParamsV;

    open spec fn deep_view(&self) -> TokenParamsV {
        TokenParamsV { denom_creation_fee: self.denom_creation_fee.deep_view() }
    }
}

impl DeepView for TokenParamsResponse {
    type V = TokenParamsResponseV;

    open spec fn deep_view(&self) -> TokenParamsResponseV {
        TokenParamsResponseV { params: self.params.deep_view() }
    }
}

// ---------------------------------------------------------------------------
// Constructors. All are total: they wrap their arguments into the requested
// variant and cannot fail.
// ---------------------------------------------------------------------------

/// Builds a [`TokenFactoryMsg::CreateDenom`] message.
pub fn token_factory_create_denom(subdenom: String, metadata: Option<DenomMetadata>) -> (m:
    TokenFactoryMsg)
    ensures
        m == (TokenFactoryMsg::CreateDenom { subdenom, metadata }),
{
    TokenFactoryMsg::CreateDenom { subdenom, metadata }
}

/// Builds a [`TokenFactoryMsg::ChangeAdmin`] message.
pub fn token_factory_change_admin(denom: String, new_admin_address: String) -> (m:
    TokenFactoryMsg)
    ensures
        m == (TokenFactoryMsg::ChangeAdmin { denom, new_admin_address }),
{
    TokenFactoryMsg::ChangeAdmin { denom, new_admin_address }
}

/// Builds a [`TokenFactoryMsg::MintTokens`] message.
pub fn token_factory_mint_tokens(denom: String, amount: Uint256, mint_to_address: String) -> (m:
    TokenFactoryMsg)
    ensures
        m == (TokenFactoryMsg::MintTokens { denom, amount, mint_to_address }),
{
    TokenFactoryMsg::MintTokens { denom, amount, mint_to_address }
}

/// Builds a [`TokenFactoryMsg::BurnTokens`] message.
pub fn token_factory_burn_tokens(denom: String, amount: Uint256, burn_from_address: String) -> (m:
    TokenFactoryMsg)
    ensures
        m == (TokenFactoryMsg::BurnTokens { denom, amount, burn_from_address }),
{
    TokenFactoryMsg::BurnTokens { denom, amount, burn_from_address }
}

/// Builds a [`TokenFactoryMsg::SetMetadata`] message.
pub fn token_factory_set_metadata(metadata: DenomMetadata) -> (m: TokenFactoryMsg)
    ensures
        m == (TokenFactoryMsg::SetMetadata { metadata }),
{
    TokenFactoryMsg::SetMetadata { metadata }
}

/// Builds a [`TokenFactoryMsg::ForceTransfer`] message.
pub fn token_factory_force_transfer(
    denom: String,
    from_address: String,
    to_address: String,
    amount: Uint256,
) -> (m: TokenFactoryMsg)
    ensures
        m == (TokenFactoryMsg::ForceTransfer { denom, from_address, to_address, amount }),
{
    TokenFactoryMsg::ForceTransfer { denom, from_address, to_address, amount }
}

/// Builds a [`TokenFactoryQuery::FullDenom`] request.
pub fn full_denom_query(subdenom: String, creator_addr: String) -> (q: TokenFactoryQuery)
    ensures
        q == (TokenFactoryQuery::FullDenom { subdenom, creator_addr }),
{
    TokenFactoryQuery::FullDenom { subdenom, creator_addr }
}

/// Builds a [`TokenFactoryQuery::Admin`] request.
pub fn admin_query(denom: String) -> (q: TokenFactoryQuery)
    ensures
        q == (TokenFactoryQuery::Admin { denom }),
{
    TokenFactoryQuery::Admin { denom }
}

/// Builds a [`TokenFactoryQuery::Metadata`] request.
pub fn metadata_query(denom: String) -> (q: TokenFactoryQuery)
    ensures
        q == (TokenFactoryQuery::Metadata { denom }),
{
    TokenFactoryQuery::Metadata { denom }
}

/// Builds a [`TokenFactoryQuery::DenomsByCreator`] request.
pub fn denoms_by_creator_query(creator: String) -> (q: TokenFactoryQuery)
    ensures
        q == (TokenFactoryQuery::DenomsByCreator { creator }),
{
    TokenFactoryQuery::DenomsByCreator { creator }
}

/// Builds a [`TokenFactoryQuery::Params`] request.
pub fn params_query() -> (q: TokenFactoryQuery)
    ensures
        q == (TokenFactoryQuery::Params {  }),
{
    TokenFactoryQuery::Params {  }
}

} // verus!
