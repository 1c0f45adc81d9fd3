//! The round-trip laws of the wire codec: encoding any message, query or
//! response and decoding the result gives back the value that was encoded,
//! field for field.

use vstd::prelude::*;

use crate::schema::AdminResponseV;
use crate::schema::DenomCreationFeeV;
use crate::schema::DenomMetadataV;
use crate::schema::DenomUnitV;
use crate::schema::DenomsByCreatorResponseV;
use crate::schema::FullDenomResponseV;
use crate::schema::MetadataResponseV;
use crate::schema::TokenFactoryMsgV;
use crate::schema::TokenFactoryQueryV;
use crate::schema::TokenParamsResponseV;
use crate::schema::TokenParamsV;
use crate::codec::as_str_fn;
use crate::codec::dec_admin_response;
use crate::codec::dec_denoms_by_creator_response;
use crate::codec::dec_fee;
use crate::codec::dec_fee_fn;
use crate::codec::dec_full_denom_response;
use crate::codec::dec_metadata_response;
use crate::codec::dec_msg;
use crate::codec::dec_params;
use crate::codec::dec_params_response;
use crate::codec::dec_query;
use crate::codec::enc_admin_response;
use crate::codec::enc_denoms_by_creator_response;
use crate::codec::enc_fee;
use crate::codec::enc_fees;
use crate::codec::enc_full_denom_response;
use crate::codec::enc_metadata_response;
use crate::codec::enc_msg;
use crate::codec::enc_params;
use crate::codec::enc_params_response;
use crate::codec::enc_query;
use crate::codec::dec_arr;
use crate::codec::dec_metadata;
use crate::codec::dec_opt_metadata;
use crate::codec::dec_unit;
use crate::codec::dec_unit_fn;
use crate::codec::enc_metadata;
use crate::codec::enc_opt_metadata;
use crate::codec::enc_unit;
use crate::codec::enc_units;
use crate::codec::get_str;
use crate::codec::get_str_arr;
use crate::codec::get_u32;
use crate::codec::get_units;
use crate::codec::str_arr;
use crate::wire::WireV;
use crate::wire::lemma_obj_get_at;
use crate::wire::obj_get;

verus! {

/// An array of texts decodes back to the texts it encodes.
pub proof fn lemma_str_arr_round_trip(s: Seq<Seq<char>>)
    ensures
        dec_arr(str_arr(s), as_str_fn()) == Option::Some(s),
{
    let f = as_str_fn();
    let items = str_arr(s);
    assert(forall|i: int| 0 <= i < items.len() ==> (#[trigger] f(items[i])) is Some);
    assert(Seq::new(items.len(), |i: int| f(items[i])->0) =~= s);
}

/// A denom unit decodes back to the unit it encodes.
pub proof fn lemma_unit_round_trip(u: DenomUnitV)
    ensures
        dec_unit(enc_unit(u)) == Option::Some(u),
{
    reveal_strlit("denom");
    reveal_strlit("exponent");
    reveal_strlit("aliases");
    let fs = seq![
        ("denom"@, WireV::Str(u.denom)),
        ("exponent"@, WireV::Num(u.exponent as u64)),
        ("aliases"@, WireV::Arr(str_arr(u.aliases))),
    ];
    assert(fs[0].0 == "denom"@ && fs[1].0 == "exponent"@);
    assert("denom"@ != "exponent"@);
    assert("denom"@ != "aliases"@);
    assert("exponent"@ != "aliases"@);
    lemma_obj_get_at(fs, "denom"@, 0);
    lemma_obj_get_at(fs, "exponent"@, 1);
    lemma_obj_get_at(fs, "aliases"@, 2);
    assert(get_str(fs, "denom"@) == Option::Some(u.denom));
    assert(get_u32(fs, "exponent"@) == Option::Some(u.exponent));
    lemma_str_arr_round_trip(u.aliases);
    assert(get_str_arr(fs, "aliases"@) == Option::Some(u.aliases));
}

/// An array of denom units decodes back to the units it encodes.
pub proof fn lemma_units_round_trip(us: Seq<DenomUnitV>)
    ensures
        dec_arr(enc_units(us), dec_unit_fn()) == Option::Some(us),
{
    let f = dec_unit_fn();
    let items = enc_units(us);
    assert forall|i: int| 0 <= i < items.len() implies (#[trigger] f(items[i])) == Option::Some(
        us[i],
    ) by {
        lemma_unit_round_trip(us[i]);
    }
    assert(Seq::new(items.len(), |i: int| f(items[i])->0) =~= us);
}

/// A denom metadata decodes back to the metadata it encodes.
#[verifier::rlimit(50)]
pub proof fn lemma_metadata_round_trip(m: DenomMetadataV)
    ensures
        dec_metadata(enc_metadata(m)) == Option::Some(m),
{
    let fs = seq![
        ("description"@, WireV::Str(m.description)),
        ("denom_units"@, WireV::Arr(enc_units(m.denom_units))),
        ("base"@, WireV::Str(m.base)),
        ("display"@, WireV::Str(m.display)),
        ("name"@, WireV::Str(m.name)),
        ("symbol"@, WireV::Str(m.symbol)),
    ];
    assert("description"@ != "denom_units"@) by {
        reveal_strlit("description");
        reveal_strlit("denom_units");
        assert("description"@[2] == 's' && "denom_units"@[2] == 'n');
    }
    assert("description"@ != "base"@ && "description"@ != "display"@ && "description"@ != "name"@
        && "description"@ != "symbol"@) by {
        reveal_strlit("description");
        reveal_strlit("base");
        reveal_strlit("display");
        reveal_strlit("name");
        reveal_strlit("symbol");
        assert("description"@.len() == 11 && "base"@.len() == 4 && "display"@.len() == 7
            && "name"@.len() == 4 && "symbol"@.len() == 6);
    }
    assert("denom_units"@ != "base"@ && "denom_units"@ != "display"@ && "denom_units"@ != "name"@
        && "denom_units"@ != "symbol"@) by {
        reveal_strlit("denom_units");
        reveal_strlit("base");
        reveal_strlit("display");
        reveal_strlit("name");
        reveal_strlit("symbol");
        assert("denom_units"@.len() == 11 && "base"@.len() == 4 && "display"@.len() == 7
            && "name"@.len() == 4 && "symbol"@.len() == 6);
    }
    assert("base"@ != "display"@ && "base"@ != "symbol"@ && "display"@ != "name"@ && "display"@
        != "symbol"@ && "name"@ != "symbol"@) by {
        reveal_strlit("base");
        reveal_strlit("display");
        reveal_strlit("name");
        reveal_strlit("symbol");
        assert("base"@.len() == 4 && "display"@.len() == 7 && "name"@.len() == 4 && "symbol"@.len()
            == 6);
    }
    assert("base"@ != "name"@) by {
        reveal_strlit("base");
        reveal_strlit("name");
        assert("base"@[0] == 'b' && "name"@[0] == 'n');
    }
    lemma_obj_get_at(fs, "description"@, 0);
    lemma_obj_get_at(fs, "denom_units"@, 1);
    lemma_obj_get_at(fs, "base"@, 2);
    lemma_obj_get_at(fs, "display"@, 3);
    lemma_obj_get_at(fs, "name"@, 4);
    lemma_obj_get_at(fs, "symbol"@, 5);
    lemma_units_round_trip(m.denom_units);
    assert(get_units(fs, "denom_units"@) == Option::Some(m.denom_units));
}

/// An optional denom metadata decodes back to the value it encodes: an
/// absent one stays absent, a present one keeps all its fields.
pub proof fn lemma_opt_metadata_round_trip(m: Option<DenomMetadataV>)
    ensures
        dec_opt_metadata(enc_opt_metadata(m)) == Option::Some(m),
{
    match m {
        Option::Some(md) => {
            lemma_metadata_round_trip(md);
        },
        Option::None => {
        },
    }
}

/// Every message decodes back to the message it encodes: the round-trip
/// law for all six message variants.
pub proof fn lemma_msg_round_trip(m: TokenFactoryMsgV)
    ensures
        dec_msg(enc_msg(m)) == Option::Some(m),
{
    match m {
        TokenFactoryMsgV::CreateDenom { subdenom, metadata } => {
            let bfs = seq![
                ("subdenom"@, WireV::Str(subdenom)),
                ("metadata"@, enc_opt_metadata(metadata)),
            ];
            assert("subdenom"@ != "metadata"@) by {
                reveal_strlit("subdenom");
                reveal_strlit("metadata");
                assert("subdenom"@[0] == 's' && "metadata"@[0] == 'm');
            }
            lemma_obj_get_at(bfs, "subdenom"@, 0);
            lemma_obj_get_at(bfs, "metadata"@, 1);
            lemma_opt_metadata_round_trip(metadata);
        },
        TokenFactoryMsgV::ChangeAdmin { denom, new_admin_address } => {
            let bfs = seq![
                ("denom"@, WireV::Str(denom)),
                ("new_admin_address"@, WireV::Str(new_admin_address)),
            ];
            assert("denom"@ != "new_admin_address"@ && "change_admin"@ != "create_denom"@) by {
                reveal_strlit("denom");
                reveal_strlit("new_admin_address");
                reveal_strlit("change_admin");
                reveal_strlit("create_denom");
                assert("denom"@.len() == 5 && "new_admin_address"@.len() == 17);
                assert("change_admin"@[1] == 'h' && "create_denom"@[1] == 'r');
            }
            lemma_obj_get_at(bfs, "denom"@, 0);
            lemma_obj_get_at(bfs, "new_admin_address"@, 1);
        },
        TokenFactoryMsgV::MintTokens { denom, amount, mint_to_address } => {
            let bfs = seq![
                ("denom"@, WireV::Str(denom)),
                ("amount"@, WireV::Big(amount)),
                ("mint_to_address"@, WireV::Str(mint_to_address)),
            ];
            assert("denom"@ != "amount"@ && "denom"@ != "mint_to_address"@ && "amount"@
                != "mint_to_address"@ && "mint_tokens"@ != "create_denom"@ && "mint_tokens"@
                != "change_admin"@) by {
                reveal_strlit("denom");
                reveal_strlit("amount");
                reveal_strlit("mint_to_address");
                reveal_strlit("mint_tokens");
                reveal_strlit("create_denom");
                reveal_strlit("change_admin");
                assert("denom"@.len() == 5 && "amount"@.len() == 6 && "mint_to_address"@.len()
                    == 15 && "mint_tokens"@.len() == 11 && "create_denom"@.len() == 12
                    && "change_admin"@.len() == 12);
            }
            lemma_obj_get_at(bfs, "denom"@, 0);
            lemma_obj_get_at(bfs, "amount"@, 1);
            lemma_obj_get_at(bfs, "mint_to_address"@, 2);
        },
        TokenFactoryMsgV::BurnTokens { denom, amount, burn_from_address } => {
            let bfs = seq![
                ("denom"@, WireV::Str(denom)),
                ("amount"@, WireV::Big(amount)),
                ("burn_from_address"@, WireV::Str(burn_from_address)),
            ];
            assert("denom"@ != "amount"@ && "denom"@ != "burn_from_address"@ && "amount"@
                != "burn_from_address"@ && "burn_tokens"@ != "create_denom"@ && "burn_tokens"@
                != "change_admin"@ && "burn_tokens"@ != "mint_tokens"@) by {
                reveal_strlit("denom");
                reveal_strlit("amount");
                reveal_strlit("burn_from_address");
                reveal_strlit("burn_tokens");
                reveal_strlit("create_denom");
                reveal_strlit("change_admin");
                reveal_strlit("mint_tokens");
                assert("denom"@.len() == 5 && "amount"@.len() == 6 && "burn_from_address"@.len()
                    == 17 && "burn_tokens"@.len() == 11 && "create_denom"@.len() == 12
                    && "change_admin"@.len() == 12);
                assert("burn_tokens"@[0] == 'b' && "mint_tokens"@[0] == 'm');
            }
            lemma_obj_get_at(bfs, "denom"@, 0);
            lemma_obj_get_at(bfs, "amount"@, 1);
            lemma_obj_get_at(bfs, "burn_from_address"@, 2);
        },
        TokenFactoryMsgV::SetMetadata { metadata } => {
            let bfs = seq![("metadata"@, enc_metadata(metadata))];
            assert("set_metadata"@ != "create_denom"@ && "set_metadata"@ != "change_admin"@
                && "set_metadata"@ != "mint_tokens"@ && "set_metadata"@ != "burn_tokens"@) by {
                reveal_strlit("set_metadata");
                reveal_strlit("create_denom");
                reveal_strlit("change_admin");
                reveal_strlit("mint_tokens");
                reveal_strlit("burn_tokens");
                assert("set_metadata"@.len() == 12 && "mint_tokens"@.len() == 11
                    && "burn_tokens"@.len() == 11);
                assert("set_metadata"@[0] == 's' && "create_denom"@[0] == 'c' && "change_admin"@[0]
                    == 'c');
            }
            lemma_obj_get_at(bfs, "metadata"@, 0);
            lemma_metadata_round_trip(metadata);
        },
        TokenFactoryMsgV::ForceTransfer { denom, from_address, to_address, amount } => {
            let bfs = seq![
                ("denom"@, WireV::Str(denom)),
                ("from_address"@, WireV::Str(from_address)),
                ("to_address"@, WireV::Str(to_address)),
                ("amount"@, WireV::Big(amount)),
            ];
            assert("denom"@ != "from_address"@ && "denom"@ != "to_address"@ && "denom"@
                != "amount"@ && "from_address"@ != "to_address"@ && "from_address"@ != "amount"@
                && "to_address"@ != "amount"@) by {
                reveal_strlit("denom");
                reveal_strlit("from_address");
                reveal_strlit("to_address");
                reveal_strlit("amount");
                assert("denom"@.len() == 5 && "from_address"@.len() == 12 && "to_address"@.len()
                    == 10 && "amount"@.len() == 6);
            }
            assert("force_transfer"@ != "create_denom"@ && "force_transfer"@ != "change_admin"@
                && "force_transfer"@ != "mint_tokens"@ && "force_transfer"@ != "burn_tokens"@
                && "force_transfer"@ != "set_metadata"@) by {
                reveal_strlit("force_transfer");
                reveal_strlit("create_denom");
                reveal_strlit("change_admin");
                reveal_strlit("mint_tokens");
                reveal_strlit("burn_tokens");
                reveal_strlit("set_metadata");
                assert("force_transfer"@.len() == 14 && "create_denom"@.len() == 12
                    && "change_admin"@.len() == 12 && "mint_tokens"@.len() == 11
                    && "burn_tokens"@.len() == 11 && "set_metadata"@.len() == 12);
            }
            lemma_obj_get_at(bfs, "denom"@, 0);
            lemma_obj_get_at(bfs, "from_address"@, 1);
            lemma_obj_get_at(bfs, "to_address"@, 2);
            lemma_obj_get_at(bfs, "amount"@, 3);
        },
    }
}

/// Every query request decodes back to the request it encodes: the
/// round-trip law for all five query variants.
pub proof fn lemma_query_round_trip(q: TokenFactoryQueryV)
    ensures
        dec_query(enc_query(q)) == Option::Some(q),
{
    assert("full_denom"@.len() == 10 && "admin"@.len() == 5 && "metadata"@.len() == 8
        && "denoms_by_creator"@.len() == 17 && "params"@.len() == 6) by {
        reveal_strlit("full_denom");
        reveal_strlit("admin");
        reveal_strlit("metadata");
        reveal_strlit("denoms_by_creator");
        reveal_strlit("params");
    }
    match q {
        TokenFactoryQueryV::FullDenom { subdenom, creator_addr } => {
            let bfs = seq![
                ("subdenom"@, WireV::Str(subdenom)),
                ("creator_addr"@, WireV::Str(creator_addr)),
            ];
            assert("subdenom"@ != "creator_addr"@) by {
                reveal_strlit("subdenom");
                reveal_strlit("creator_addr");
                assert("subdenom"@.len() == 8 && "creator_addr"@.len() == 12);
            }
            lemma_obj_get_at(bfs, "subdenom"@, 0);
            lemma_obj_get_at(bfs, "creator_addr"@, 1);
        },
        TokenFactoryQueryV::Admin { denom } => {
            let bfs = seq![("denom"@, WireV::Str(denom))];
            lemma_obj_get_at(bfs, "denom"@, 0);
        },
        TokenFactoryQueryV::Metadata { denom } => {
            let bfs = seq![("denom"@, WireV::Str(denom))];
            lemma_obj_get_at(bfs, "denom"@, 0);
        },
        TokenFactoryQueryV::DenomsByCreator { creator } => {
            let bfs = seq![("creator"@, WireV::Str(creator))];
            lemma_obj_get_at(bfs, "creator"@, 0);
        },
        TokenFactoryQueryV::Params => {
        },
    }
}

/// A full-denom answer decodes back to the answer it encodes.
pub proof fn lemma_full_denom_response_round_trip(r: FullDenomResponseV)
    ensures
        dec_full_denom_response(enc_full_denom_response(r)) == Option::Some(r),
{
    lemma_obj_get_at(seq![("denom"@, WireV::Str(r.denom))], "denom"@, 0);
}

/// An admin answer decodes back to the answer it encodes; in particular an
/// empty admin text survives the round trip as an empty text.
pub proof fn lemma_admin_response_round_trip(r: AdminResponseV)
    ensures
        dec_admin_response(enc_admin_response(r)) == Option::Some(r),
{
    lemma_obj_get_at(seq![("admin"@, WireV::Str(r.admin))], "admin"@, 0);
}

/// A metadata answer decodes back to the answer it encodes, whether the
/// metadata is absent or present.
pub proof fn lemma_metadata_response_round_trip(r: MetadataResponseV)
    ensures
        dec_metadata_response(enc_metadata_response(r)) == Option::Some(r),
{
    lemma_obj_get_at(
        seq![("metadata"@, enc_opt_metadata(r.metadata))],
        "metadata"@,
        0,
    );
    lemma_opt_metadata_round_trip(r.metadata);
}

/// A denoms-by-creator answer decodes back to the answer it encodes; in
/// particular an empty denom list survives as an empty list, not as a
/// failure.
pub proof fn lemma_denoms_by_creator_response_round_trip(r: DenomsByCreatorResponseV)
    ensures
        dec_denoms_by_creator_response(enc_denoms_by_creator_response(r)) == Option::Some(r),
{
    lemma_obj_get_at(seq![("denoms"@, WireV::Arr(str_arr(r.denoms)))], "denoms"@, 0);
    lemma_str_arr_round_trip(r.denoms);
}

/// A denom creation fee entry decodes back to the entry it encodes.
pub proof fn lemma_fee_round_trip(f: DenomCreationFeeV)
    ensures
        dec_fee(enc_fee(f)) == Option::Some(f),
{
    let fs = seq![("amount"@, WireV::Big(f.amount)), ("denom"@, WireV::Str(f.denom))];
    assert("amount"@ != "denom"@) by {
        reveal_strlit("amount");
        reveal_strlit("denom");
        assert("amount"@.len() == 6 && "denom"@.len() == 5);
    }
    lemma_obj_get_at(fs, "amount"@, 0);
    lemma_obj_get_at(fs, "denom"@, 1);
}

/// An array of fee entries decodes back to the entries it encodes.
pub proof fn lemma_fees_round_trip(fees: Seq<DenomCreationFeeV>)
    ensures
        dec_arr(enc_fees(fees), dec_fee_fn()) == Option::Some(fees),
{
    let f = dec_fee_fn();
    let items = enc_fees(fees);
    assert forall|i: int| 0 <= i < items.len() implies (#[trigger] f(items[i])) == Option::Some(
        fees[i],
    ) by {
        lemma_fee_round_trip(fees[i]);
    }
    assert(Seq::new(items.len(), |i: int| f(items[i])->0) =~= fees);
}

/// The module parameters decode back to the parameters they encode.
pub proof fn lemma_params_round_trip(p: TokenParamsV)
    ensures
        dec_params(enc_params(p)) == Option::Some(p),
{
    lemma_obj_get_at(
        seq![("denom_creation_fee"@, WireV::Arr(enc_fees(p.denom_creation_fee)))],
        "denom_creation_fee"@,
        0,
    );
    lemma_fees_round_trip(p.denom_creation_fee);
}

/// A params answer decodes back to the answer it encodes.
pub proof fn lemma_params_response_round_trip(r: TokenParamsResponseV)
    ensures
        dec_params_response(enc_params_response(r)) == Option::Some(r),
{
    lemma_obj_get_at(seq![("params"@, enc_params(r.params))], "params"@, 0);
    lemma_params_round_trip(r.params);
}

} // verus!
