use token_bindings::schema::admin_query;
use token_bindings::schema::denoms_by_creator_query;
use token_bindings::schema::full_denom_query;
use token_bindings::schema::metadata_query;
use token_bindings::schema::params_query;
use token_bindings::schema::token_factory_burn_tokens;
use token_bindings::schema::token_factory_change_admin;
use token_bindings::schema::token_factory_create_denom;
use token_bindings::schema::token_factory_force_transfer;
use token_bindings::schema::token_factory_mint_tokens;
use token_bindings::schema::token_factory_set_metadata;
use token_bindings::DenomMetadata;
use token_bindings::TokenFactoryMsg;
use token_bindings::TokenFactoryQuery;
use token_bindings::Uint256;

fn metadata() -> DenomMetadata {
    DenomMetadata {
        description: "".to_string(),
        denom_units: vec![],
        base: "ufoo".to_string(),
        display: "foo".to_string(),
        name: "Foo".to_string(),
        symbol: "FOO".to_string(),
    }
}

#[test]
fn create_denom_builder() {
    let m = token_factory_create_denom("foo".to_string(), Some(metadata()));
    assert_eq!(
        m,
        TokenFactoryMsg::CreateDenom {
            subdenom: "foo".to_string(),
            metadata: Some(metadata()),
        }
    );
}

#[test]
fn change_admin_builder() {
    let m = token_factory_change_admin("factory/c/foo".to_string(), "newAdmin".to_string());
    assert_eq!(
        m,
        TokenFactoryMsg::ChangeAdmin {
            denom: "factory/c/foo".to_string(),
            new_admin_address: "newAdmin".to_string(),
        }
    );
}

#[test]
fn mint_tokens_builder() {
    let m = token_factory_mint_tokens(
        "factory/c/foo".to_string(),
        Uint256::from_u128(5),
        "rcpt".to_string(),
    );
    assert_eq!(
        m,
        TokenFactoryMsg::MintTokens {
            denom: "factory/c/foo".to_string(),
            amount: Uint256::from_u128(5),
            mint_to_address: "rcpt".to_string(),
        }
    );
}

#[test]
fn burn_tokens_builder() {
    let m = token_factory_burn_tokens(
        "factory/c/foo".to_string(),
        Uint256::from_u128(5),
        "holder".to_string(),
    );
    assert_eq!(
        m,
        TokenFactoryMsg::BurnTokens {
            denom: "factory/c/foo".to_string(),
            amount: Uint256::from_u128(5),
            burn_from_address: "holder".to_string(),
        }
    );
}

#[test]
fn set_metadata_builder() {
    let m = token_factory_set_metadata(metadata());
    assert_eq!(
        m,
        TokenFactoryMsg::SetMetadata {
            metadata: metadata(),
        }
    );
}

#[test]
fn force_transfer_builder() {
    let m = token_factory_force_transfer(
        "factory/c/foo".to_string(),
        "from".to_string(),
        "to".to_string(),
        Uint256::from_u128(5),
    );
    assert_eq!(
        m,
        TokenFactoryMsg::ForceTransfer {
            denom: "factory/c/foo".to_string(),
            from_address: "from".to_string(),
            to_address: "to".to_string(),
            amount: Uint256::from_u128(5),
        }
    );
}

#[test]
fn query_builders() {
    assert_eq!(
        full_denom_query("foo".to_string(), "creator".to_string()),
        TokenFactoryQuery::FullDenom {
            subdenom: "foo".to_string(),
            creator_addr: "creator".to_string(),
        }
    );
    assert_eq!(
        admin_query("d".to_string()),
        TokenFactoryQuery::Admin {
            denom: "d".to_string(),
        }
    );
    assert_eq!(
        metadata_query("d".to_string()),
        TokenFactoryQuery::Metadata {
            denom: "d".to_string(),
        }
    );
    assert_eq!(
        denoms_by_creator_query("c".to_string()),
        TokenFactoryQuery::DenomsByCreator {
            creator: "c".to_string(),
        }
    );
    assert_eq!(params_query(), TokenFactoryQuery::Params {});
}

#[test]
fn amount_limbs() {
    let a = Uint256::new(1, 2);
    assert_eq!(a.lo, 1);
    assert_eq!(a.hi, 2);
    let b = Uint256::from_u128(u128::MAX);
    assert_eq!(b.lo, u128::MAX);
    assert_eq!(b.hi, 0);
}
