use token_bindings::codec::decode_admin_response;
use token_bindings::codec::decode_denoms_by_creator_response;
use token_bindings::codec::decode_full_denom_response;
use token_bindings::codec::decode_metadata_response;
use token_bindings::codec::decode_msg;
use token_bindings::codec::decode_params_response;
use token_bindings::codec::decode_query;
use token_bindings::codec::decode_unit;
use token_bindings::codec::encode_admin_response;
use token_bindings::codec::encode_denoms_by_creator_response;
use token_bindings::codec::encode_full_denom_response;
use token_bindings::codec::encode_metadata_response;
use token_bindings::codec::encode_msg;
use token_bindings::codec::encode_params_response;
use token_bindings::codec::encode_query;
use token_bindings::wire::WireValue;
use token_bindings::AdminResponse;
use token_bindings::DenomCreationFee;
use token_bindings::DenomMetadata;
use token_bindings::DenomUnit;
use token_bindings::DenomsByCreatorResponse;
use token_bindings::FullDenomResponse;
use token_bindings::MetadataResponse;
use token_bindings::TokenFactoryMsg;
use token_bindings::TokenFactoryQuery;
use token_bindings::TokenParams;
use token_bindings::TokenParamsResponse;
use token_bindings::Uint256;

fn sample_metadata() -> DenomMetadata {
    DenomMetadata {
        description: "a factory token".to_string(),
        denom_units: vec![
            DenomUnit {
                denom: "ufoo".to_string(),
                exponent: 0,
                aliases: vec!["microfoo".to_string()],
            },
            DenomUnit {
                denom: "foo".to_string(),
                exponent: 6,
                aliases: vec![],
            },
        ],
        base: "ufoo".to_string(),
        display: "foo".to_string(),
        name: "Foo Token".to_string(),
        symbol: "FOO".to_string(),
    }
}

fn roundtrip_msg(m: TokenFactoryMsg) {
    let wire = encode_msg(&m);
    let back = decode_msg(&wire).expect("a message the crate encoded must decode");
    assert_eq!(back, m);
}

fn roundtrip_query(q: TokenFactoryQuery) {
    let wire = encode_query(&q);
    let back = decode_query(&wire).expect("a query the crate encoded must decode");
    assert_eq!(back, q);
}

#[test]
fn create_denom_roundtrip() {
    roundtrip_msg(TokenFactoryMsg::CreateDenom {
        subdenom: "foo".to_string(),
        metadata: None,
    });
    roundtrip_msg(TokenFactoryMsg::CreateDenom {
        subdenom: "foo".to_string(),
        metadata: Some(sample_metadata()),
    });
}

#[test]
fn change_admin_roundtrip() {
    roundtrip_msg(TokenFactoryMsg::ChangeAdmin {
        denom: "factory/contractAddr1/foo".to_string(),
        new_admin_address: "newAdminAddr".to_string(),
    });
    roundtrip_msg(TokenFactoryMsg::ChangeAdmin {
        denom: "factory/contractAddr1/foo".to_string(),
        new_admin_address: "".to_string(),
    });
}

#[test]
fn mint_tokens_roundtrip() {
    let m = TokenFactoryMsg::MintTokens {
        denom: "factory/contractAddr1/foo".to_string(),
        amount: Uint256::from_u128(1_000_000_000_000_000_000_000_000),
        mint_to_address: "recvAddr1".to_string(),
    };
    let wire = encode_msg(&m);
    let back = decode_msg(&wire).expect("mint message must decode");
    assert_eq!(back, m);
    match back {
        TokenFactoryMsg::MintTokens { amount, .. } => {
            assert_eq!(amount, Uint256::from_u128(1_000_000_000_000_000_000_000_000));
        }
        other => panic!("decoded into the wrong variant: {:?}", other),
    }
}

#[test]
fn mint_tokens_large_amount_roundtrip() {
    // An amount above 128 bits keeps both limbs across the round trip.
    let m = TokenFactoryMsg::MintTokens {
        denom: "factory/contractAddr1/foo".to_string(),
        amount: Uint256::new(7, 9),
        mint_to_address: "recvAddr1".to_string(),
    };
    roundtrip_msg(m);
}

#[test]
fn burn_tokens_roundtrip() {
    roundtrip_msg(TokenFactoryMsg::BurnTokens {
        denom: "factory/contractAddr1/foo".to_string(),
        amount: Uint256::from_u128(100),
        burn_from_address: "contractAddr1".to_string(),
    });
}

#[test]
fn set_metadata_roundtrip() {
    roundtrip_msg(TokenFactoryMsg::SetMetadata {
        metadata: sample_metadata(),
    });
}

#[test]
fn force_transfer_roundtrip() {
    roundtrip_msg(TokenFactoryMsg::ForceTransfer {
        denom: "factory/contractAddr1/foo".to_string(),
        from_address: "fromAddr".to_string(),
        to_address: "toAddr".to_string(),
        amount: Uint256::from_u128(42),
    });
}

#[test]
fn full_denom_query_roundtrip() {
    roundtrip_query(TokenFactoryQuery::FullDenom {
        subdenom: "foo".to_string(),
        creator_addr: "contractAddr1".to_string(),
    });
}

#[test]
fn admin_query_roundtrip() {
    roundtrip_query(TokenFactoryQuery::Admin {
        denom: "factory/contractAddr1/foo".to_string(),
    });
}

#[test]
fn metadata_query_roundtrip() {
    roundtrip_query(TokenFactoryQuery::Metadata {
        denom: "factory/contractAddr1/foo".to_string(),
    });
}

#[test]
fn denoms_by_creator_query_roundtrip() {
    roundtrip_query(TokenFactoryQuery::DenomsByCreator {
        creator: "creatorAddr".to_string(),
    });
}

#[test]
fn params_query_roundtrip() {
    roundtrip_query(TokenFactoryQuery::Params {});
}

#[test]
fn full_denom_query_wire_tag_and_fields() {
    let wire = encode_query(&TokenFactoryQuery::FullDenom {
        subdenom: "foo".to_string(),
        creator_addr: "contractAddr1".to_string(),
    });
    match wire {
        WireValue::Obj(fields) => {
            assert_eq!(fields.len(), 1);
            assert_eq!(fields[0].0, "full_denom");
            match &fields[0].1 {
                WireValue::Obj(body) => {
                    assert_eq!(body.len(), 2);
                    assert_eq!(body[0].0, "subdenom");
                    assert_eq!(body[0].1, WireValue::Str("foo".to_string()));
                    assert_eq!(body[1].0, "creator_addr");
                    assert_eq!(body[1].1, WireValue::Str("contractAddr1".to_string()));
                }
                other => panic!("the request body must be an object, got {:?}", other),
            }
        }
        other => panic!("the request must be a tagged object, got {:?}", other),
    }
}

#[test]
fn admin_response_empty_string_roundtrip() {
    let r = AdminResponse {
        admin: "".to_string(),
    };
    let wire = encode_admin_response(&r);
    // The empty admin must stay an empty text node, not become null.
    match &wire {
        WireValue::Obj(fields) => {
            assert_eq!(fields[0].1, WireValue::Str("".to_string()));
        }
        other => panic!("the answer must be an object, got {:?}", other),
    }
    let back = decode_admin_response(&wire).expect("the empty admin must decode");
    assert_eq!(back, r);
    assert_eq!(encode_admin_response(&back), wire);
}

#[test]
fn admin_response_roundtrip() {
    let r = AdminResponse {
        admin: "adminAddr".to_string(),
    };
    let back = decode_admin_response(&encode_admin_response(&r)).unwrap();
    assert_eq!(back, r);
}

#[test]
fn full_denom_response_roundtrip() {
    let r = FullDenomResponse {
        denom: "factory/contractAddr1/foo".to_string(),
    };
    let back = decode_full_denom_response(&encode_full_denom_response(&r)).unwrap();
    assert_eq!(back, r);
}

#[test]
fn metadata_response_absent_roundtrip() {
    let r = MetadataResponse { metadata: None };
    let back = decode_metadata_response(&encode_metadata_response(&r)).unwrap();
    assert_eq!(back, r);
}

#[test]
fn metadata_response_present_roundtrip() {
    let r = MetadataResponse {
        metadata: Some(sample_metadata()),
    };
    let back = decode_metadata_response(&encode_metadata_response(&r)).unwrap();
    assert_eq!(back, r);
}

#[test]
fn denoms_by_creator_response_empty_roundtrip() {
    let r = DenomsByCreatorResponse { denoms: vec![] };
    let decoded = decode_denoms_by_creator_response(&encode_denoms_by_creator_response(&r));
    // A creator without denoms is a well-formed answer, not a decode failure.
    assert_eq!(decoded, Some(r));
}

#[test]
fn denoms_by_creator_response_roundtrip() {
    let r = DenomsByCreatorResponse {
        denoms: vec![
            "factory/creatorAddr/one".to_string(),
            "factory/creatorAddr/two".to_string(),
        ],
    };
    let back = decode_denoms_by_creator_response(&encode_denoms_by_creator_response(&r)).unwrap();
    assert_eq!(back, r);
}

#[test]
fn params_response_roundtrip() {
    let r = TokenParamsResponse {
        params: TokenParams {
            denom_creation_fee: vec![DenomCreationFee {
                amount: Uint256::from_u128(10_000_000),
                denom: "uatom".to_string(),
            }],
        },
    };
    let back = decode_params_response(&encode_params_response(&r)).unwrap();
    assert_eq!(back, r);
}

#[test]
fn params_response_free_creation_roundtrip() {
    let r = TokenParamsResponse {
        params: TokenParams {
            denom_creation_fee: vec![],
        },
    };
    let back = decode_params_response(&encode_params_response(&r)).unwrap();
    assert_eq!(back, r);
}

#[test]
fn decode_ignores_unknown_fields() {
    let wire = WireValue::Obj(vec![
        ("note".to_string(), WireValue::Str("extra".to_string())),
        ("admin".to_string(), WireValue::Str("adminAddr".to_string())),
    ]);
    let back = decode_admin_response(&wire).expect("extra fields must be passed over");
    assert_eq!(back.admin, "adminAddr");
}

#[test]
fn decode_fails_on_missing_required_field() {
    let wire = WireValue::Obj(vec![(
        "exponent".to_string(),
        WireValue::Num(0),
    )]);
    assert_eq!(decode_unit(&wire), None);
}

#[test]
fn decode_fails_on_wrong_tag() {
    let wire = WireValue::Obj(vec![(
        "unknown_op".to_string(),
        WireValue::Obj(vec![]),
    )]);
    assert_eq!(decode_msg(&wire), None);
}

#[test]
fn decode_fails_on_two_tags() {
    let body = WireValue::Obj(vec![("denom".to_string(), WireValue::Str("d".to_string()))]);
    let body2 = WireValue::Obj(vec![("denom".to_string(), WireValue::Str("d".to_string()))]);
    let wire = WireValue::Obj(vec![
        ("admin".to_string(), body),
        ("metadata".to_string(), body2),
    ]);
    assert_eq!(decode_query(&wire), None);
}

#[test]
fn decode_fails_on_bad_array_item() {
    let wire = WireValue::Obj(vec![(
        "denoms".to_string(),
        WireValue::Arr(vec![
            WireValue::Str("ok".to_string()),
            WireValue::Num(3),
        ]),
    )]);
    assert_eq!(decode_denoms_by_creator_response(&wire), None);
}

#[test]
fn decode_fails_on_non_object() {
    assert_eq!(decode_msg(&WireValue::Str("create_denom".to_string())), None);
    assert_eq!(decode_query(&WireValue::Null), None);
    assert_eq!(decode_admin_response(&WireValue::Num(1)), None);
}

#[test]
fn decode_fails_on_oversized_exponent() {
    let wire = WireValue::Obj(vec![
        ("denom".to_string(), WireValue::Str("ufoo".to_string())),
        ("exponent".to_string(), WireValue::Num(1 << 40)),
        ("aliases".to_string(), WireValue::Arr(vec![])),
    ]);
    assert_eq!(decode_unit(&wire), None);
}
