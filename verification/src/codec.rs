//! Encoding of the schema types into the wire form and decoding back.
//!
//! Each type has a spec-level encoder and decoder over its deep view, and
//! executable counterparts proved to agree with them. Decoders look fields
//! up by key and pass over fields with unknown keys, so an answer from a
//! newer host that carries extra fields still decodes; a missing required
//! field makes the decode fail. The round-trip laws live in [`crate::laws`].

use vstd::prelude::*;
use vstd::string::StringExecFns;

use crate::amount::Uint256;
use crate::schema::AdminResponse;
use crate::schema::AdminResponseV;
use crate::schema::DenomCreationFee;
use crate::schema::DenomCreationFeeV;
use crate::schema::DenomMetadata;
use crate::schema::DenomMetadataV;
use crate::schema::DenomsByCreatorResponse;
use crate::schema::DenomsByCreatorResponseV;
use crate::schema::FullDenomResponse;
use crate::schema::FullDenomResponseV;
use crate::schema::MetadataResponse;
use crate::schema::MetadataResponseV;
use crate::schema::TokenParams;
use crate::schema::TokenParamsResponse;
use crate::schema::TokenParamsResponseV;
use crate::schema::TokenParamsV;
use crate::schema::DenomUnit;
use crate::schema::DenomUnitV;
use crate::schema::TokenFactoryMsg;
use crate::schema::TokenFactoryMsgV;
use crate::schema::TokenFactoryQuery;
use crate::schema::TokenFactoryQueryV;
use crate::wire::WireV;
use crate::wire::WireValue;
use crate::wire::arr_dv;
use crate::wire::fields_dv;
use crate::wire::obj_find;
use crate::wire::obj_get;
use crate::wire::wire_dv;

verus! {

// ---------------------------------------------------------------------------
// Spec-level readers of single wire nodes and object fields.
// ---------------------------------------------------------------------------

/// Reads a text node.
pub open spec fn as_str(v: WireV) -> Option<Seq<char>> {
    match v {
        WireV::Str(s) => Option::Some(s),
        _ => Option::None,
    }
}

/// Reads a small number node that fits an exponent.
pub open spec fn as_u32(v: WireV) -> Option<u32> {
    match v {
        WireV::Num(n) => if n <= u32::MAX {
            Option::Some(n as u32)
        } else {
            Option::None
        },
        _ => Option::None,
    }
}

/// Reads a 256-bit amount node.
pub open spec fn as_big(v: WireV) -> Option<nat> {
    match v {
        WireV::Big(n) => Option::Some(n),
        _ => Option::None,
    }
}

/// Reads a required text field.
pub open spec fn get_str(fs: Seq<(Seq<char>, WireV)>, k: Seq<char>) -> Option<Seq<char>> {
    match obj_get(fs, k) {
        Option::Some(v) => as_str(v),
        Option::None => Option::None,
    }
}

/// Reads a required exponent field.
pub open spec fn get_u32(fs: Seq<(Seq<char>, WireV)>, k: Seq<char>) -> Option<u32> {
    match obj_get(fs, k) {
        Option::Some(v) => as_u32(v),
        Option::None => Option::None,
    }
}

/// Reads a required amount field.
pub open spec fn get_big(fs: Seq<(Seq<char>, WireV)>, k: Seq<char>) -> Option<nat> {
    match obj_get(fs, k) {
        Option::Some(v) => as_big(v),
        Option::None => Option::None,
    }
}

/// Decodes every item of an array with the given item decoder; one bad item
/// fails the whole array.
pub open spec fn dec_arr<T>(items: Seq<WireV>, f: spec_fn(WireV) -> Option<T>) -> Option<Seq<T>> {
    if forall|i: int| 0 <= i < items.len() ==> (#[trigger] f(items[i])) is Some {
        Option::Some(Seq::new(items.len(), |i: int| f(items[i])->0))
    } else {
        Option::None
    }
}

/// Encodes a sequence of texts as an array of text nodes.
pub open spec fn str_arr(s: Seq<Seq<char>>) -> Seq<WireV> {
    Seq::new(s.len(), |i: int| WireV::Str(s[i]))
}

/// The text-node reader as a function value, for decoding arrays of texts.
pub open spec fn as_str_fn() -> spec_fn(WireV) -> Option<Seq<char>> {
    |v: WireV| as_str(v)
}

/// Reads a required field holding an array of texts.
pub open spec fn get_str_arr(fs: Seq<(Seq<char>, WireV)>, k: Seq<char>) -> Option<Seq<Seq<char>>> {
    match obj_get(fs, k) {
        Option::Some(WireV::Arr(items)) => dec_arr(items, as_str_fn()),
        _ => Option::None,
    }
}

// ---------------------------------------------------------------------------
// The denom unit.
// ---------------------------------------------------------------------------

/// The wire form of a denom unit.
pub open spec fn enc_unit(u: DenomUnitV) -> WireV {
    WireV::Obj(
        seq![
            ("denom"@, WireV::Str(u.denom)),
            ("exponent"@, WireV::Num(u.exponent as u64)),
            ("aliases"@, WireV::Arr(str_arr(u.aliases))),
        ],
    )
}

/// Decodes a denom unit from its wire form.
pub open spec fn dec_unit(v: WireV) -> Option<DenomUnitV> {
    match v {
        WireV::Obj(fs) => match (get_str(fs, "denom"@), get_u32(fs, "exponent"@), get_str_arr(
            fs,
            "aliases"@,
        )) {
            (Option::Some(denom), Option::Some(exponent), Option::Some(aliases)) => Option::Some(
                DenomUnitV { denom, exponent, aliases },
            ),
            _ => Option::None,
        },
        _ => Option::None,
    }
}

// ---------------------------------------------------------------------------
// The denom metadata.
// ---------------------------------------------------------------------------

/// Encodes a sequence of denom units as an array of their wire forms.
pub open spec fn enc_units(us: Seq<DenomUnitV>) -> Seq<WireV> {
    Seq::new(us.len(), |i: int| enc_unit(us[i]))
}

/// The denom unit decoder as a function value, for decoding unit arrays.
pub open spec fn dec_unit_fn() -> spec_fn(WireV) -> Option<DenomUnitV> {
    |v: WireV| dec_unit(v)
}

/// Reads a required field holding an array of denom units.
pub open spec fn get_units(fs: Seq<(Seq<char>, WireV)>, k: Seq<char>) -> Option<Seq<DenomUnitV>> {
    match obj_get(fs, k) {
        Option::Some(WireV::Arr(items)) => dec_arr(items, dec_unit_fn()),
        _ => Option::None,
    }
}

/// The wire form of a denom metadata.
pub open spec fn enc_metadata(m: DenomMetadataV) -> WireV {
    WireV::Obj(
        seq![
            ("description"@, WireV::Str(m.description)),
            ("denom_units"@, WireV::Arr(enc_units(m.denom_units))),
            ("base"@, WireV::Str(m.base)),
            ("display"@, WireV::Str(m.display)),
            ("name"@, WireV::Str(m.name)),
            ("symbol"@, WireV::Str(m.symbol)),
        ],
    )
}

/// Decodes a denom metadata from its wire form.
pub open spec fn dec_metadata(v: WireV) -> Option<DenomMetadataV> {
    match v {
        WireV::Obj(fs) => match (get_str(fs, "description"@), get_units(fs, "denom_units"@), get_str(
            fs,
            "base"@,
        ), get_str(fs, "display"@), get_str(fs, "name"@), get_str(fs, "symbol"@)) {
            (
                Option::Some(description),
                Option::Some(denom_units),
                Option::Some(base),
                Option::Some(display),
                Option::Some(name),
                Option::Some(symbol),
            ) => Option::Some(
                DenomMetadataV { description, denom_units, base, display, name, symbol },
            ),
            _ => Option::None,
        },
        _ => Option::None,
    }
}

/// The wire form of an optional metadata: absent metadata is a null node.
pub open spec fn enc_opt_metadata(m: Option<DenomMetadataV>) -> WireV {
    match m {
        Option::Some(md) => enc_metadata(md),
        Option::None => WireV::Null,
    }
}

/// Decodes an optional metadata node: a null node is an absent metadata.
pub open spec fn dec_opt_metadata(v: WireV) -> Option<Option<DenomMetadataV>> {
    match v {
        WireV::Null => Option::Some(Option::None),
        _ => match dec_metadata(v) {
            Option::Some(m) => Option::Some(Option::Some(m)),
            Option::None => Option::None,
        },
    }
}

/// Reads a required field holding an optional metadata.
pub open spec fn get_opt_metadata(fs: Seq<(Seq<char>, WireV)>, k: Seq<char>) -> Option<
    Option<DenomMetadataV>,
> {
    match obj_get(fs, k) {
        Option::Some(v) => dec_opt_metadata(v),
        Option::None => Option::None,
    }
}

// ---------------------------------------------------------------------------
// Messages and queries: spec codec.
// ---------------------------------------------------------------------------

/// Reads a required field holding a (non-optional) denom metadata.
pub open spec fn get_metadata(fs: Seq<(Seq<char>, WireV)>, k: Seq<char>) -> Option<DenomMetadataV> {
    match obj_get(fs, k) {
        Option::Some(v) => dec_metadata(v),
        Option::None => Option::None,
    }
}

/// The wire form of a message: an object with a single field whose key is
/// the variant tag and whose value carries the variant's fields.
pub open spec fn enc_msg(m: TokenFactoryMsgV) -> WireV {
    match m {
        TokenFactoryMsgV::CreateDenom { subdenom, metadata } => WireV::Obj(
            seq![
                ("create_denom"@, WireV::Obj(
                    seq![
                        ("subdenom"@, WireV::Str(subdenom)),
                        ("metadata"@, enc_opt_metadata(metadata)),
                    ],
                )),
            ],
        ),
        TokenFactoryMsgV::ChangeAdmin { denom, new_admin_address } => WireV::Obj(
            seq![
                ("change_admin"@, WireV::Obj(
                    seq![
                        ("denom"@, WireV::Str(denom)),
                        ("new_admin_address"@, WireV::Str(new_admin_address)),
                    ],
                )),
            ],
        ),
        TokenFactoryMsgV::MintTokens { denom, amount, mint_to_address } => WireV::Obj(
            seq![
                ("mint_tokens"@, WireV::Obj(
                    seq![
                        ("denom"@, WireV::Str(denom)),
                        ("amount"@, WireV::Big(amount)),
                        ("mint_to_address"@, WireV::Str(mint_to_address)),
                    ],
                )),
            ],
        ),
        TokenFactoryMsgV::BurnTokens { denom, amount, burn_from_address } => WireV::Obj(
            seq![
                ("burn_tokens"@, WireV::Obj(
                    seq![
                        ("denom"@, WireV::Str(denom)),
                        ("amount"@, WireV::Big(amount)),
                        ("burn_from_address"@, WireV::Str(burn_from_address)),
                    ],
                )),
            ],
        ),
        TokenFactoryMsgV::SetMetadata { metadata } => WireV::Obj(
            seq![("set_metadata"@, WireV::Obj(seq![("metadata"@, enc_metadata(metadata))]))],
        ),
        TokenFactoryMsgV::ForceTransfer { denom, from_address, to_address, amount } => WireV::Obj(
            seq![
                ("force_transfer"@, WireV::Obj(
                    seq![
                        ("denom"@, WireV::Str(denom)),
                        ("from_address"@, WireV::Str(from_address)),
                        ("to_address"@, WireV::Str(to_address)),
                        ("amount"@, WireV::Big(amount)),
                    ],
                )),
            ],
        ),
    }
}

/// Decodes a create-denom message body.
pub open spec fn dec_create_denom(body: WireV) -> Option<TokenFactoryMsgV> {
    match body {
        WireV::Obj(fs) => match (get_str(fs, "subdenom"@), get_opt_metadata(fs, "metadata"@)) {
            (Option::Some(subdenom), Option::Some(metadata)) => Option::Some(
                TokenFactoryMsgV::CreateDenom { subdenom, metadata },
            ),
            _ => Option::None,
        },
        _ => Option::None,
    }
}

/// Decodes a change-admin message body.
pub open spec fn dec_change_admin(body: WireV) -> Option<TokenFactoryMsgV> {
    match body {
        WireV::Obj(fs) => match (get_str(fs, "denom"@), get_str(fs, "new_admin_address"@)) {
            (Option::Some(denom), Option::Some(new_admin_address)) => Option::Some(
                TokenFactoryMsgV::ChangeAdmin { denom, new_admin_address },
            ),
            _ => Option::None,
        },
        _ => Option::None,
    }
}

/// Decodes a mint-tokens message body.
pub open spec fn dec_mint_tokens(body: WireV) -> Option<TokenFactoryMsgV> {
    match body {
        WireV::Obj(fs) => match (get_str(fs, "denom"@), get_big(fs, "amount"@), get_str(
            fs,
            "mint_to_address"@,
        )) {
            (Option::Some(denom), Option::Some(amount), Option::Some(mint_to_address)) => (
            Option::Some(TokenFactoryMsgV::MintTokens { denom, amount, mint_to_address })),
            _ => Option::None,
        },
        _ => Option::None,
    }
}

/// Decodes a burn-tokens message body.
pub open spec fn dec_burn_tokens(body: WireV) -> Option<TokenFactoryMsgV> {
    match body {
        WireV::Obj(fs) => match (get_str(fs, "denom"@), get_big(fs, "amount"@), get_str(
            fs,
            "burn_from_address"@,
        )) {
            (Option::Some(denom), Option::Some(amount), Option::Some(burn_from_address)) => (
            Option::Some(TokenFactoryMsgV::BurnTokens { denom, amount, burn_from_address })),
            _ => Option::None,
        },
        _ => Option::None,
    }
}

/// Decodes a set-metadata message body.
pub open spec fn dec_set_metadata(body: WireV) -> Option<TokenFactoryMsgV> {
    match body {
        WireV::Obj(fs) => match get_metadata(fs, "metadata"@) {
            Option::Some(metadata) => Option::Some(TokenFactoryMsgV::SetMetadata { metadata }),
            Option::None => Option::None,
        },
        _ => Option::None,
    }
}

/// Decodes a force-transfer message body.
pub open spec fn dec_force_transfer(body: WireV) -> Option<TokenFactoryMsgV> {
    match body {
        WireV::Obj(fs) => match (get_str(fs, "denom"@), get_str(fs, "from_address"@), get_str(
            fs,
            "to_address"@,
        ), get_big(fs, "amount"@)) {
            (
                Option::Some(denom),
                Option::Some(from_address),
                Option::Some(to_address),
                Option::Some(amount),
            ) => Option::Some(
                TokenFactoryMsgV::ForceTransfer { denom, from_address, to_address, amount },
            ),
            _ => Option::None,
        },
        _ => Option::None,
    }
}

/// Decodes a message: the object must carry exactly the one tag field, and
/// the tag must be one of the six message tags.
pub open spec fn dec_msg(v: WireV) -> Option<TokenFactoryMsgV> {
    match v {
        WireV::Obj(fs) => if fs.len() == 1 {
            if fs[0].0 == "create_denom"@ {
                dec_create_denom(fs[0].1)
            } else if fs[0].0 == "change_admin"@ {
                dec_change_admin(fs[0].1)
            } else if fs[0].0 == "mint_tokens"@ {
                dec_mint_tokens(fs[0].1)
            } else if fs[0].0 == "burn_tokens"@ {
                dec_burn_tokens(fs[0].1)
            } else if fs[0].0 == "set_metadata"@ {
                dec_set_metadata(fs[0].1)
            } else if fs[0].0 == "force_transfer"@ {
                dec_force_transfer(fs[0].1)
            } else {
                Option::None
            }
        } else {
            Option::None
        },
        _ => Option::None,
    }
}

/// The wire form of a query request, tagged like a message.
pub open spec fn enc_query(q: TokenFactoryQueryV) -> WireV {
    match q {
        TokenFactoryQueryV::FullDenom { subdenom, creator_addr } => WireV::Obj(
            seq![
                ("full_denom"@, WireV::Obj(
                    seq![
                        ("subdenom"@, WireV::Str(subdenom)),
                        ("creator_addr"@, WireV::Str(creator_addr)),
                    ],
                )),
            ],
        ),
        TokenFactoryQueryV::Admin { denom } => WireV::Obj(
            seq![("admin"@, WireV::Obj(seq![("denom"@, WireV::Str(denom))]))],
        ),
        TokenFactoryQueryV::Metadata { denom } => WireV::Obj(
            seq![("metadata"@, WireV::Obj(seq![("denom"@, WireV::Str(denom))]))],
        ),
        TokenFactoryQueryV::DenomsByCreator { creator } => WireV::Obj(
            seq![("denoms_by_creator"@, WireV::Obj(seq![("creator"@, WireV::Str(creator))]))],
        ),
        TokenFactoryQueryV::Params => WireV::Obj(
            seq![("params"@, WireV::Obj(Seq::empty()))],
        ),
    }
}

/// Decodes a full-denom query body.
pub open spec fn dec_full_denom(body: WireV) -> Option<TokenFactoryQueryV> {
    match body {
        WireV::Obj(fs) => match (get_str(fs, "subdenom"@), get_str(fs, "creator_addr"@)) {
            (Option::Some(subdenom), Option::Some(creator_addr)) => Option::Some(
                TokenFactoryQueryV::FullDenom { subdenom, creator_addr },
            ),
            _ => Option::None,
        },
        _ => Option::None,
    }
}

/// Decodes an admin query body.
pub open spec fn dec_admin(body: WireV) -> Option<TokenFactoryQueryV> {
    match body {
        WireV::Obj(fs) => match get_str(fs, "denom"@) {
            Option::Some(denom) => Option::Some(TokenFactoryQueryV::Admin { denom }),
            Option::None => Option::None,
        },
        _ => Option::None,
    }
}

/// Decodes a metadata query body.
pub open spec fn dec_metadata_query(body: WireV) -> Option<TokenFactoryQueryV> {
    match body {
        WireV::Obj(fs) => match get_str(fs, "denom"@) {
            Option::Some(denom) => Option::Some(TokenFactoryQueryV::Metadata { denom }),
            Option::None => Option::None,
        },
        _ => Option::None,
    }
}

/// Decodes a denoms-by-creator query body.
pub open spec fn dec_denoms_by_creator(body: WireV) -> Option<TokenFactoryQueryV> {
    match body {
        WireV::Obj(fs) => match get_str(fs, "creator"@) {
            Option::Some(creator) => Option::Some(TokenFactoryQueryV::DenomsByCreator { creator }),
            Option::None => Option::None,
        },
        _ => Option::None,
    }
}

/// Decodes a params query body: any object will do, it carries no field.
pub open spec fn dec_params_query(body: WireV) -> Option<TokenFactoryQueryV> {
    match body {
        WireV::Obj(_) => Option::Some(TokenFactoryQueryV::Params),
        _ => Option::None,
    }
}

/// Decodes a query request.
pub open spec fn dec_query(v: WireV) -> Option<TokenFactoryQueryV> {
    match v {
        WireV::Obj(fs) => if fs.len() == 1 {
            if fs[0].0 == "full_denom"@ {
                dec_full_denom(fs[0].1)
            } else if fs[0].0 == "admin"@ {
                dec_admin(fs[0].1)
            } else if fs[0].0 == "metadata"@ {
                dec_metadata_query(fs[0].1)
            } else if fs[0].0 == "denoms_by_creator"@ {
                dec_denoms_by_creator(fs[0].1)
            } else if fs[0].0 == "params"@ {
                dec_params_query(fs[0].1)
            } else {
                Option::None
            }
        } else {
            Option::None
        },
        _ => Option::None,
    }
}

// ---------------------------------------------------------------------------
// Executable object and array builders.
// ---------------------------------------------------------------------------

/// Builds a one-field object.
pub fn obj1(k1: &str, v1: WireValue) -> (r: WireValue)
    ensures
        wire_dv(r) == WireV::Obj(seq![(k1@, wire_dv(v1))]),
{
    let ghost g1 = wire_dv(v1);
    let mut fields: Vec<(String, WireValue)> = Vec::new();
    fields.push((String::from_str(k1), v1));
    proof {
        assert(fields_dv(fields@) =~= seq![(k1@, g1)]);
    }
    WireValue::Obj(fields)
}

/// Builds a two-field object.
pub fn obj2(k1: &str, v1: WireValue, k2: &str, v2: WireValue) -> (r: WireValue)
    ensures
        wire_dv(r) == WireV::Obj(seq![(k1@, wire_dv(v1)), (k2@, wire_dv(v2))]),
{
    let ghost g1 = wire_dv(v1);
    let ghost g2 = wire_dv(v2);
    let mut fields: Vec<(String, WireValue)> = Vec::new();
    fields.push((String::from_str(k1), v1));
    fields.push((String::from_str(k2), v2));
    proof {
        assert(fields_dv(fields@) =~= seq![(k1@, g1), (k2@, g2)]);
    }
    WireValue::Obj(fields)
}

/// Builds a three-field object.
pub fn obj3(k1: &str, v1: WireValue, k2: &str, v2: WireValue, k3: &str, v3: WireValue) -> (r:
    WireValue)
    ensures
        wire_dv(r) == WireV::Obj(seq![(k1@, wire_dv(v1)), (k2@, wire_dv(v2)), (k3@, wire_dv(v3))]),
{
    let ghost g1 = wire_dv(v1);
    let ghost g2 = wire_dv(v2);
    let ghost g3 = wire_dv(v3);
    let mut fields: Vec<(String, WireValue)> = Vec::new();
    fields.push((String::from_str(k1), v1));
    fields.push((String::from_str(k2), v2));
    fields.push((String::from_str(k3), v3));
    proof {
        assert(fields_dv(fields@) =~= seq![(k1@, g1), (k2@, g2), (k3@, g3)]);
    }
    WireValue::Obj(fields)
}

/// Builds a four-field object.
pub fn obj4(
    k1: &str,
    v1: WireValue,
    k2: &str,
    v2: WireValue,
    k3: &str,
    v3: WireValue,
    k4: &str,
    v4: WireValue,
) -> (r: WireValue)
    ensures
        wire_dv(r) == WireV::Obj(
            seq![(k1@, wire_dv(v1)), (k2@, wire_dv(v2)), (k3@, wire_dv(v3)), (k4@, wire_dv(v4))],
        ),
{
    let ghost g1 = wire_dv(v1);
    let ghost g2 = wire_dv(v2);
    let ghost g3 = wire_dv(v3);
    let ghost g4 = wire_dv(v4);
    let mut fields: Vec<(String, WireValue)> = Vec::new();
    fields.push((String::from_str(k1), v1));
    fields.push((String::from_str(k2), v2));
    fields.push((String::from_str(k3), v3));
    fields.push((String::from_str(k4), v4));
    proof {
        assert(fields_dv(fields@) =~= seq![(k1@, g1), (k2@, g2), (k3@, g3), (k4@, g4)]);
    }
    WireValue::Obj(fields)
}

/// Builds a six-field object.
pub fn obj6(
    k1: &str,
    v1: WireValue,
    k2: &str,
    v2: WireValue,
    k3: &str,
    v3: WireValue,
    k4: &str,
    v4: WireValue,
    k5: &str,
    v5: WireValue,
    k6: &str,
    v6: WireValue,
) -> (r: WireValue)
    ensures
        wire_dv(r) == WireV::Obj(
            seq![
                (k1@, wire_dv(v1)),
                (k2@, wire_dv(v2)),
                (k3@, wire_dv(v3)),
                (k4@, wire_dv(v4)),
                (k5@, wire_dv(v5)),
                (k6@, wire_dv(v6)),
            ],
        ),
{
    let ghost g1 = wire_dv(v1);
    let ghost g2 = wire_dv(v2);
    let ghost g3 = wire_dv(v3);
    let ghost g4 = wire_dv(v4);
    let ghost g5 = wire_dv(v5);
    let ghost g6 = wire_dv(v6);
    let mut fields: Vec<(String, WireValue)> = Vec::new();
    fields.push((String::from_str(k1), v1));
    fields.push((String::from_str(k2), v2));
    fields.push((String::from_str(k3), v3));
    fields.push((String::from_str(k4), v4));
    fields.push((String::from_str(k5), v5));
    fields.push((String::from_str(k6), v6));
    proof {
        assert(fields_dv(fields@) =~= seq![
            (k1@, g1),
            (k2@, g2),
            (k3@, g3),
            (k4@, g4),
            (k5@, g5),
            (k6@, g6),
        ]);
    }
    WireValue::Obj(fields)
}

/// Encodes a vector of texts as a wire array.
pub fn enc_str_vec(xs: &Vec<String>) -> (r: WireValue)
    ensures
        wire_dv(r) == WireV::Arr(str_arr(xs.deep_view())),
{
    let mut items: Vec<WireValue> = Vec::new();
    let mut i: usize = 0;
    while i < xs.len()
        invariant
            i <= xs.len(),
            items@.len() == i,
            forall|j: int| 0 <= j < i ==> wire_dv(#[trigger] items@[j]) == WireV::Str(xs@[j]@),
        decreases xs.len() - i,
    {
        items.push(WireValue::Str(xs[i].clone()));
        i += 1;
    }
    proof {
        assert(arr_dv(items@) =~= str_arr(xs.deep_view()));
    }
    WireValue::Arr(items)
}

// ---------------------------------------------------------------------------
// Executable field readers.
// ---------------------------------------------------------------------------

/// Reads a required text field as an owned string.
pub fn get_str_field(fields: &Vec<(String, WireValue)>, k: &str) -> (r: Option<String>)
    ensures
        r is Some <==> get_str(fields_dv(fields@), k@) is Some,
        r is Some ==> (r->0)@ == get_str(fields_dv(fields@), k@)->0,
{
    let key_s = String::from_str(k);
    match obj_find(fields, &key_s) {
        Option::Some(w) => match w {
            WireValue::Str(s) => Option::Some(s.clone()),
            _ => Option::None,
        },
        Option::None => Option::None,
    }
}

/// Reads a required exponent field.
pub fn get_u32_field(fields: &Vec<(String, WireValue)>, k: &str) -> (r: Option<u32>)
    ensures
        r is Some <==> get_u32(fields_dv(fields@), k@) is Some,
        r is Some ==> r->0 == get_u32(fields_dv(fields@), k@)->0,
{
    let key_s = String::from_str(k);
    match obj_find(fields, &key_s) {
        Option::Some(w) => match w {
            WireValue::Num(n) => if *n <= u32::MAX as u64 {
                Option::Some(*n as u32)
            } else {
                Option::None
            },
            _ => Option::None,
        },
        Option::None => Option::None,
    }
}

/// Reads a required amount field.
pub fn get_big_field(fields: &Vec<(String, WireValue)>, k: &str) -> (r: Option<Uint256>)
    ensures
        r is Some <==> get_big(fields_dv(fields@), k@) is Some,
        r is Some ==> (r->0).value() == get_big(fields_dv(fields@), k@)->0,
{
    let key_s = String::from_str(k);
    match obj_find(fields, &key_s) {
        Option::Some(w) => match w {
            WireValue::Big(u) => Option::Some(*u),
            _ => Option::None,
        },
        Option::None => Option::None,
    }
}

/// Reads a required field holding an array of texts.
pub fn get_str_vec_field(fields: &Vec<(String, WireValue)>, k: &str) -> (r: Option<Vec<String>>)
    ensures
        r is Some <==> get_str_arr(fields_dv(fields@), k@) is Some,
        r is Some ==> (r->0).deep_view() == get_str_arr(fields_dv(fields@), k@)->0,
{
    let key_s = String::from_str(k);
    match obj_find(fields, &key_s) {
        Option::Some(w) => match w {
            WireValue::Arr(items) => {
                let ghost gitems = arr_dv(items@);
                let mut out: Vec<String> = Vec::new();
                let mut i: usize = 0;
                while i < items.len()
                    invariant
                        i <= items.len(),
                        out@.len() == i,
                        gitems == arr_dv(items@),
                        gitems.len() == items@.len(),
                        obj_get(fields_dv(fields@), k@) == Option::Some(WireV::Arr(gitems)),
                        forall|j: int|
                            0 <= j < i ==> as_str(#[trigger] gitems[j]) == Option::Some(
                                out@[j]@,
                            ),
                    decreases items.len() - i,
                {
                    match &items[i] {
                        WireValue::Str(s) => {
                            out.push(s.clone());
                        },
                        _ => {
                            proof {
                                assert(as_str_fn()(gitems[i as int]) is None);
                            }
                            return Option::None;
                        },
                    }
                    i += 1;
                }
                proof {
                    let f = as_str_fn();
                    assert(forall|j: int|
                        0 <= j < gitems.len() ==> (#[trigger] f(gitems[j])) is Some);
                    assert(out.deep_view() =~= Seq::new(gitems.len(), |j: int| f(gitems[j])->0));
                }
                Option::Some(out)
            },
            _ => Option::None,
        },
        Option::None => Option::None,
    }
}

// ---------------------------------------------------------------------------
// Executable codec for the denom unit.
// ---------------------------------------------------------------------------

/// Encodes a denom unit.
pub fn encode_unit(u: &DenomUnit) -> (r: WireValue)
    ensures
        wire_dv(r) == enc_unit(u.deep_view()),
{
    obj3(
        "denom",
        WireValue::Str(u.denom.clone()),
        "exponent",
        WireValue::Num(u.exponent as u64),
        "aliases",
        enc_str_vec(&u.aliases),
    )
}

/// Decodes a denom unit.
pub fn decode_unit(v: &WireValue) -> (r: Option<DenomUnit>)
    ensures
        r is Some <==> dec_unit(wire_dv(*v)) is Some,
        r is Some ==> (r->0).deep_view() == dec_unit(wire_dv(*v))->0,
{
    match v {
        WireValue::Obj(fields) => {
            let denom = get_str_field(fields, "denom");
            let exponent = get_u32_field(fields, "exponent");
            let aliases = get_str_vec_field(fields, "aliases");
            match (denom, exponent, aliases) {
                (Option::Some(denom), Option::Some(exponent), Option::Some(aliases)) => (
                Option::Some(DenomUnit { denom, exponent, aliases })),
                _ => Option::None,
            }
        },
        _ => Option::None,
    }
}

// ---------------------------------------------------------------------------
// Executable codec for the denom metadata.
// ---------------------------------------------------------------------------

/// Encodes a vector of denom units as a wire array.
pub fn enc_units_vec(us: &Vec<DenomUnit>) -> (r: WireValue)
    ensures
        wire_dv(r) == WireV::Arr(enc_units(us.deep_view())),
{
    let mut items: Vec<WireValue> = Vec::new();
    let mut i: usize = 0;
    while i < us.len()
        invariant
            i <= us.len(),
            items@.len() == i,
            forall|j: int|
                0 <= j < i ==> wire_dv(#[trigger] items@[j]) == enc_unit(us.deep_view()[j]),
        decreases us.len() - i,
    {
        items.push(encode_unit(&us[i]));
        i += 1;
    }
    proof {
        assert(arr_dv(items@) =~= enc_units(us.deep_view()));
    }
    WireValue::Arr(items)
}

/// Encodes a denom metadata.
pub fn encode_metadata(m: &DenomMetadata) -> (r: WireValue)
    ensures
        wire_dv(r) == enc_metadata(m.deep_view()),
{
    obj6(
        "description",
        WireValue::Str(m.description.clone()),
        "denom_units",
        enc_units_vec(&m.denom_units),
        "base",
        WireValue::Str(m.base.clone()),
        "display",
        WireValue::Str(m.display.clone()),
        "name",
        WireValue::Str(m.name.clone()),
        "symbol",
        WireValue::Str(m.symbol.clone()),
    )
}

/// Encodes an optional denom metadata; an absent one becomes a null node.
pub fn encode_opt_metadata(m: &Option<DenomMetadata>) -> (r: WireValue)
    ensures
        wire_dv(r) == enc_opt_metadata(m.deep_view()),
{
    match m {
        Option::Some(md) => encode_metadata(md),
        Option::None => WireValue::Null,
    }
}

/// Reads a required field holding an array of denom units.
pub fn get_units_field(fields: &Vec<(String, WireValue)>, k: &str) -> (r: Option<Vec<DenomUnit>>)
    ensures
        r is Some <==> get_units(fields_dv(fields@), k@) is Some,
        r is Some ==> (r->0).deep_view() == get_units(fields_dv(fields@), k@)->0,
{
    let key_s = String::from_str(k);
    match obj_find(fields, &key_s) {
        Option::Some(w) => match w {
            WireValue::Arr(items) => {
                let ghost gitems = arr_dv(items@);
                let mut out: Vec<DenomUnit> = Vec::new();
                let mut i: usize = 0;
                while i < items.len()
                    invariant
                        i <= items.len(),
                        out@.len() == i,
                        gitems == arr_dv(items@),
                        gitems.len() == items@.len(),
                        obj_get(fields_dv(fields@), k@) == Option::Some(WireV::Arr(gitems)),
                        forall|j: int|
                            0 <= j < i ==> dec_unit_fn()(#[trigger] gitems[j]) == Option::Some(
                                out@[j].deep_view(),
                            ),
                    decreases items.len() - i,
                {
                    match decode_unit(&items[i]) {
                        Option::Some(u) => {
                            out.push(u);
                        },
                        Option::None => {
                            proof {
                                assert(dec_unit_fn()(gitems[i as int]) is None);
                            }
                            return Option::None;
                        },
                    }
                    i += 1;
                }
                proof {
                    let f = dec_unit_fn();
                    assert(forall|j: int|
                        0 <= j < gitems.len() ==> (#[trigger] f(gitems[j])) is Some);
                    assert(out.deep_view() =~= Seq::new(gitems.len(), |j: int| f(gitems[j])->0));
                }
                Option::Some(out)
            },
            _ => Option::None,
        },
        Option::None => Option::None,
    }
}

/// Decodes a denom metadata.
pub fn decode_metadata(v: &WireValue) -> (r: Option<DenomMetadata>)
    ensures
        r is Some <==> dec_metadata(wire_dv(*v)) is Some,
        r is Some ==> (r->0).deep_view() == dec_metadata(wire_dv(*v))->0,
{
    match v {
        WireValue::Obj(fields) => {
            let description = get_str_field(fields, "description");
            let denom_units = get_units_field(fields, "denom_units");
            let base = get_str_field(fields, "base");
            let display = get_str_field(fields, "display");
            let name = get_str_field(fields, "name");
            let symbol = get_str_field(fields, "symbol");
            match (description, denom_units, base, display, name, symbol) {
                (
                    Option::Some(description),
                    Option::Some(denom_units),
                    Option::Some(base),
                    Option::Some(display),
                    Option::Some(name),
                    Option::Some(symbol),
                ) => (Option::Some(
                    DenomMetadata { description, denom_units, base, display, name, symbol },
                )),
                _ => Option::None,
            }
        },
        _ => Option::None,
    }
}

/// Reads a required field holding an optional denom metadata.
pub fn get_opt_metadata_field(fields: &Vec<(String, WireValue)>, k: &str) -> (r: Option<
    Option<DenomMetadata>,
>)
    ensures
        r is Some <==> get_opt_metadata(fields_dv(fields@), k@) is Some,
        r is Some ==> (r->0).deep_view() == get_opt_metadata(fields_dv(fields@), k@)->0,
{
    let key_s = String::from_str(k);
    match obj_find(fields, &key_s) {
        Option::Some(w) => match w {
            WireValue::Null => Option::Some(Option::None),
            _ => match decode_metadata(w) {
                Option::Some(m) => Option::Some(Option::Some(m)),
                Option::None => Option::None,
            },
        },
        Option::None => Option::None,
    }
}

// ---------------------------------------------------------------------------
// Messages and queries: executable codec.
// ---------------------------------------------------------------------------

/// Compares a field key or tag against an expected name.
fn tag_is(tag: &String, t: &str) -> (r: bool)
    ensures
        r == (tag@ == t@),
{
    tag.eq(&String::from_str(t))
}

/// Reads a required field holding a (non-optional) denom metadata.
pub fn get_metadata_field(fields: &Vec<(String, WireValue)>, k: &str) -> (r: Option<DenomMetadata>)
    ensures
        r is Some <==> get_metadata(fields_dv(fields@), k@) is Some,
        r is Some ==> (r->0).deep_view() == get_metadata(fields_dv(fields@), k@)->0,
{
    let key_s = String::from_str(k);
    match obj_find(fields, &key_s) {
        Option::Some(w) => decode_metadata(w),
        Option::None => Option::None,
    }
}

/// Encodes a message into its wire form.
pub fn encode_msg(m: &TokenFactoryMsg) -> (r: WireValue)
    ensures
        wire_dv(r) == enc_msg(m.deep_view()),
{
    match m {
        TokenFactoryMsg::CreateDenom { subdenom, metadata } => obj1(
            "create_denom",
            obj2(
                "subdenom",
                WireValue::Str(subdenom.clone()),
                "metadata",
                encode_opt_metadata(metadata),
            ),
        ),
        TokenFactoryMsg::ChangeAdmin { denom, new_admin_address } => obj1(
            "change_admin",
            obj2(
                "denom",
                WireValue::Str(denom.clone()),
                "new_admin_address",
                WireValue::Str(new_admin_address.clone()),
            ),
        ),
        TokenFactoryMsg::MintTokens { denom, amount, mint_to_address } => obj1(
            "mint_tokens",
            obj3(
                "denom",
                WireValue::Str(denom.clone()),
                "amount",
                WireValue::Big(*amount),
                "mint_to_address",
                WireValue::Str(mint_to_address.clone()),
            ),
        ),
        TokenFactoryMsg::BurnTokens { denom, amount, burn_from_address } => obj1(
            "burn_tokens",
            obj3(
                "denom",
                WireValue::Str(denom.clone()),
                "amount",
                WireValue::Big(*amount),
                "burn_from_address",
                WireValue::Str(burn_from_address.clone()),
            ),
        ),
        TokenFactoryMsg::SetMetadata { metadata } => obj1(
            "set_metadata",
            obj1("metadata", encode_metadata(metadata)),
        ),
        TokenFactoryMsg::ForceTransfer { denom, from_address, to_address, amount } => obj1(
            "force_transfer",
            obj4(
                "denom",
                WireValue::Str(denom.clone()),
                "from_address",
                WireValue::Str(from_address.clone()),
                "to_address",
                WireValue::Str(to_address.clone()),
                "amount",
                WireValue::Big(*amount),
            ),
        ),
    }
}

/// Decodes a create-denom message body.
fn decode_create_denom(body: &WireValue) -> (r: Option<TokenFactoryMsg>)
    ensures
        r is Some <==> dec_create_denom(wire_dv(*body)) is Some,
        r is Some ==> (r->0).deep_view() == dec_create_denom(wire_dv(*body))->0,
{
    match body {
        WireValue::Obj(fields) => {
            let subdenom = get_str_field(fields, "subdenom");
            let metadata = get_opt_metadata_field(fields, "metadata");
            match (subdenom, metadata) {
                (Option::Some(subdenom), Option::Some(metadata)) => (Option::Some(
                    TokenFactoryMsg::CreateDenom { subdenom, metadata },
                )),
                _ => Option::None,
            }
        },
        _ => Option::None,
    }
}

/// Decodes a change-admin message body.
fn decode_change_admin(body: &WireValue) -> (r: Option<TokenFactoryMsg>)
    ensures
        r is Some <==> dec_change_admin(wire_dv(*body)) is Some,
        r is Some ==> (r->0).deep_view() == dec_change_admin(wire_dv(*body))->0,
{
    match body {
        WireValue::Obj(fields) => {
            let denom = get_str_field(fields, "denom");
            let new_admin_address = get_str_field(fields, "new_admin_address");
            match (denom, new_admin_address) {
                (Option::Some(denom), Option::Some(new_admin_address)) => (Option::Some(
                    TokenFactoryMsg::ChangeAdmin { denom, new_admin_address },
                )),
                _ => Option::None,
            }
        },
        _ => Option::None,
    }
}

/// Decodes a mint-tokens message body.
fn decode_mint_tokens(body: &WireValue) -> (r: Option<TokenFactoryMsg>)
    ensures
        r is Some <==> dec_mint_tokens(wire_dv(*body)) is Some,
        r is Some ==> (r->0).deep_view() == dec_mint_tokens(wire_dv(*body))->0,
{
    match body {
        WireValue::Obj(fields) => {
            let denom = get_str_field(fields, "denom");
            let amount = get_big_field(fields, "amount");
            let mint_to_address = get_str_field(fields, "mint_to_address");
            match (denom, amount, mint_to_address) {
                (Option::Some(denom), Option::Some(amount), Option::Some(mint_to_address)) => (
                Option::Some(TokenFactoryMsg::MintTokens { denom, amount, mint_to_address })),
                _ => Option::None,
            }
        },
        _ => Option::None,
    }
}

/// Decodes a burn-tokens message body.
fn decode_burn_tokens(body: &WireValue) -> (r: Option<TokenFactoryMsg>)
    ensures
        r is Some <==> dec_burn_tokens(wire_dv(*body)) is Some,
        r is Some ==> (r->0).deep_view() == dec_burn_tokens(wire_dv(*body))->0,
{
    match body {
        WireValue::Obj(fields) => {
            let denom = get_str_field(fields, "denom");
            let amount = get_big_field(fields, "amount");
            let burn_from_address = get_str_field(fields, "burn_from_address");
            match (denom, amount, burn_from_address) {
                (Option::Some(denom), Option::Some(amount), Option::Some(burn_from_address)) => (
                Option::Some(TokenFactoryMsg::BurnTokens { denom, amount, burn_from_address })),
                _ => Option::None,
            }
        },
        _ => Option::None,
    }
}

/// Decodes a set-metadata message body.
fn decode_set_metadata(body: &WireValue) -> (r: Option<TokenFactoryMsg>)
    ensures
        r is Some <==> dec_set_metadata(wire_dv(*body)) is Some,
        r is Some ==> (r->0).deep_view() == dec_set_metadata(wire_dv(*body))->0,
{
    match body {
        WireValue::Obj(fields) => {
            match get_metadata_field(fields, "metadata") {
                Option::Some(metadata) => Option::Some(TokenFactoryMsg::SetMetadata { metadata }),
                Option::None => Option::None,
            }
        },
        _ => Option::None,
    }
}

/// Decodes a force-transfer message body.
fn decode_force_transfer(body: &WireValue) -> (r: Option<TokenFactoryMsg>)
    ensures
        r is Some <==> dec_force_transfer(wire_dv(*body)) is Some,
        r is Some ==> (r->0).deep_view() == dec_force_transfer(wire_dv(*body))->0,
{
    match body {
        WireValue::Obj(fields) => {
            let denom = get_str_field(fields, "denom");
            let from_address = get_str_field(fields, "from_address");
            let to_address = get_str_field(fields, "to_address");
            let amount = get_big_field(fields, "amount");
            match (denom, from_address, to_address, amount) {
                (
                    Option::Some(denom),
                    Option::Some(from_address),
                    Option::Some(to_address),
                    Option::Some(amount),
                ) => Option::Some(
                    TokenFactoryMsg::ForceTransfer { denom, from_address, to_address, amount },
                ),
                _ => Option::None,
            }
        },
        _ => Option::None,
    }
}

/// Decodes a message from its wire form.
pub fn decode_msg(v: &WireValue) -> (r: Option<TokenFactoryMsg>)
    ensures
        r is Some <==> dec_msg(wire_dv(*v)) is Some,
        r is Some ==> (r->0).deep_view() == dec_msg(wire_dv(*v))->0,
{
    match v {
        WireValue::Obj(fields) => {
            if fields.len() != 1 {
                return Option::None;
            }
            proof {
                assert(fields_dv(fields@)[0] == (fields@[0].0@, wire_dv(fields@[0].1)));
            }
            let tag = &fields[0].0;
            let body = &fields[0].1;
            if tag_is(tag, "create_denom") {
                decode_create_denom(body)
            } else if tag_is(tag, "change_admin") {
                decode_change_admin(body)
            } else if tag_is(tag, "mint_tokens") {
                decode_mint_tokens(body)
            } else if tag_is(tag, "burn_tokens") {
                decode_burn_tokens(body)
            } else if tag_is(tag, "set_metadata") {
                decode_set_metadata(body)
            } else if tag_is(tag, "force_transfer") {
                decode_force_transfer(body)
            } else {
                Option::None
            }
        },
        _ => Option::None,
    }
}

/// Encodes a query request into its wire form.
pub fn encode_query(q: &TokenFactoryQuery) -> (r: WireValue)
    ensures
        wire_dv(r) == enc_query(q.deep_view()),
{
    match q {
        TokenFactoryQuery::FullDenom { subdenom, creator_addr } => obj1(
            "full_denom",
            obj2(
                "subdenom",
                WireValue::Str(subdenom.clone()),
                "creator_addr",
                WireValue::Str(creator_addr.clone()),
            ),
        ),
        TokenFactoryQuery::Admin { denom } => obj1(
            "admin",
            obj1("denom", WireValue::Str(denom.clone())),
        ),
        TokenFactoryQuery::Metadata { denom } => obj1(
            "metadata",
            obj1("denom", WireValue::Str(denom.clone())),
        ),
        TokenFactoryQuery::DenomsByCreator { creator } => obj1(
            "denoms_by_creator",
            obj1("creator", WireValue::Str(creator.clone())),
        ),
        TokenFactoryQuery::Params {  } => {
            let empty: Vec<(String, WireValue)> = Vec::new();
            proof {
                assert(fields_dv(empty@) =~= Seq::<(Seq<char>, WireV)>::empty());
            }
            obj1("params", WireValue::Obj(empty))
        },
    }
}

/// Decodes a query request from its wire form.
pub fn decode_query(v: &WireValue) -> (r: Option<TokenFactoryQuery>)
    ensures
        r is Some <==> dec_query(wire_dv(*v)) is Some,
        r is Some ==> (r->0).deep_view() == dec_query(wire_dv(*v))->0,
{
    match v {
        WireValue::Obj(fields) => {
            if fields.len() != 1 {
                return Option::None;
            }
            proof {
                assert(fields_dv(fields@)[0] == (fields@[0].0@, wire_dv(fields@[0].1)));
            }
            let tag = &fields[0].0;
            let body = &fields[0].1;
            if tag_is(tag, "full_denom") {
                match body {
                    WireValue::Obj(bf) => {
                        let subdenom = get_str_field(bf, "subdenom");
                        let creator_addr = get_str_field(bf, "creator_addr");
                        match (subdenom, creator_addr) {
                            (Option::Some(subdenom), Option::Some(creator_addr)) => (Option::Some(
                                TokenFactoryQuery::FullDenom { subdenom, creator_addr },
                            )),
                            _ => Option::None,
                        }
                    },
                    _ => Option::None,
                }
            } else if tag_is(tag, "admin") {
                match body {
                    WireValue::Obj(bf) => match get_str_field(bf, "denom") {
                        Option::Some(denom) => Option::Some(TokenFactoryQuery::Admin { denom }),
                        Option::None => Option::None,
                    },
                    _ => Option::None,
                }
            } else if tag_is(tag, "metadata") {
                match body {
                    WireValue::Obj(bf) => match get_str_field(bf, "denom") {
                        Option::Some(denom) => Option::Some(TokenFactoryQuery::Metadata { denom }),
                        Option::None => Option::None,
                    },
                    _ => Option::None,
                }
            } else if tag_is(tag, "denoms_by_creator") {
                match body {
                    WireValue::Obj(bf) => match get_str_field(bf, "creator") {
                        Option::Some(creator) => Option::Some(
                            TokenFactoryQuery::DenomsByCreator { creator },
                        ),
                        Option::None => Option::None,
                    },
                    _ => Option::None,
                }
            } else if tag_is(tag, "params") {
                match body {
                    WireValue::Obj(_) => Option::Some(TokenFactoryQuery::Params {  }),
                    _ => Option::None,
                }
            } else {
                Option::None
            }
        },
        _ => Option::None,
    }
}

// ---------------------------------------------------------------------------
// Responses: spec codec.
// ---------------------------------------------------------------------------

/// The wire form of a full-denom answer.
pub open spec fn enc_full_denom_response(r: FullDenomResponseV) -> WireV {
    WireV::Obj(seq![("denom"@, WireV::Str(r.denom))])
}

/// Decodes a full-denom answer.
pub open spec fn dec_full_denom_response(v: WireV) -> Option<FullDenomResponseV> {
    match v {
        WireV::Obj(fs) => match get_str(fs, "denom"@) {
            Option::Some(denom) => Option::Some(FullDenomResponseV { denom }),
            Option::None => Option::None,
        },
        _ => Option::None,
    }
}

/// The wire form of an admin answer. An empty admin text means the denom
/// has no admin, and it stays a text node: absence of an admin is not
/// encoded as an absent value.
pub open spec fn enc_admin_response(r: AdminResponseV) -> WireV {
    WireV::Obj(seq![("admin"@, WireV::Str(r.admin))])
}

/// Decodes an admin answer.
pub open spec fn dec_admin_response(v: WireV) -> Option<AdminResponseV> {
    match v {
        WireV::Obj(fs) => match get_str(fs, "admin"@) {
            Option::Some(admin) => Option::Some(AdminResponseV { admin }),
            Option::None => Option::None,
        },
        _ => Option::None,
    }
}

/// The wire form of a metadata answer.
pub open spec fn enc_metadata_response(r: MetadataResponseV) -> WireV {
    WireV::Obj(seq![("metadata"@, enc_opt_metadata(r.metadata))])
}

/// Decodes a metadata answer.
pub open spec fn dec_metadata_response(v: WireV) -> Option<MetadataResponseV> {
    match v {
        WireV::Obj(fs) => match get_opt_metadata(fs, "metadata"@) {
            Option::Some(metadata) => Option::Some(MetadataResponseV { metadata }),
            Option::None => Option::None,
        },
        _ => Option::None,
    }
}

/// The wire form of a denoms-by-creator answer; a creator without denoms
/// yields an empty array, which is a well-formed answer, not a failure.
pub open spec fn enc_denoms_by_creator_response(r: DenomsByCreatorResponseV) -> WireV {
    WireV::Obj(seq![("denoms"@, WireV::Arr(str_arr(r.denoms)))])
}

/// Decodes a denoms-by-creator answer.
pub open spec fn dec_denoms_by_creator_response(v: WireV) -> Option<DenomsByCreatorResponseV> {
    match v {
        WireV::Obj(fs) => match get_str_arr(fs, "denoms"@) {
            Option::Some(denoms) => Option::Some(DenomsByCreatorResponseV { denoms }),
            Option::None => Option::None,
        },
        _ => Option::None,
    }
}

/// The wire form of one denom creation fee entry.
pub open spec fn enc_fee(f: DenomCreationFeeV) -> WireV {
    WireV::Obj(seq![("amount"@, WireV::Big(f.amount)), ("denom"@, WireV::Str(f.denom))])
}

/// Decodes one denom creation fee entry.
pub open spec fn dec_fee(v: WireV) -> Option<DenomCreationFeeV> {
    match v {
        WireV::Obj(fs) => match (get_big(fs, "amount"@), get_str(fs, "denom"@)) {
            (Option::Some(amount), Option::Some(denom)) => Option::Some(
                DenomCreationFeeV { amount, denom },
            ),
            _ => Option::None,
        },
        _ => Option::None,
    }
}

/// Encodes a sequence of fee entries as an array of their wire forms.
pub open spec fn enc_fees(fs: Seq<DenomCreationFeeV>) -> Seq<WireV> {
    Seq::new(fs.len(), |i: int| enc_fee(fs[i]))
}

/// The fee decoder as a function value, for decoding fee arrays.
pub open spec fn dec_fee_fn() -> spec_fn(WireV) -> Option<DenomCreationFeeV> {
    |v: WireV| dec_fee(v)
}

/// Reads a required field holding an array of fee entries.
pub open spec fn get_fees(fs: Seq<(Seq<char>, WireV)>, k: Seq<char>) -> Option<
    Seq<DenomCreationFeeV>,
> {
    match obj_get(fs, k) {
        Option::Some(WireV::Arr(items)) => dec_arr(items, dec_fee_fn()),
        _ => Option::None,
    }
}

/// The wire form of the module parameters.
pub open spec fn enc_params(p: TokenParamsV) -> WireV {
    WireV::Obj(seq![("denom_creation_fee"@, WireV::Arr(enc_fees(p.denom_creation_fee)))])
}

/// Decodes the module parameters.
pub open spec fn dec_params(v: WireV) -> Option<TokenParamsV> {
    match v {
        WireV::Obj(fs) => match get_fees(fs, "denom_creation_fee"@) {
            Option::Some(denom_creation_fee) => Option::Some(TokenParamsV { denom_creation_fee }),
            Option::None => Option::None,
        },
        _ => Option::None,
    }
}

/// The wire form of a params answer.
pub open spec fn enc_params_response(r: TokenParamsResponseV) -> WireV {
    WireV::Obj(seq![("params"@, enc_params(r.params))])
}

/// Decodes a params answer.
pub open spec fn dec_params_response(v: WireV) -> Option<TokenParamsResponseV> {
    match v {
        WireV::Obj(fs) => match obj_get(fs, "params"@) {
            Option::Some(pv) => match dec_params(pv) {
                Option::Some(params) => Option::Some(TokenParamsResponseV { params }),
                Option::None => Option::None,
            },
            Option::None => Option::None,
        },
        _ => Option::None,
    }
}

// ---------------------------------------------------------------------------
// Responses: executable codec.
// ---------------------------------------------------------------------------

/// Encodes a full-denom answer.
pub fn encode_full_denom_response(r: &FullDenomResponse) -> (w: WireValue)
    ensures
        wire_dv(w) == enc_full_denom_response(r.deep_view()),
{
    obj1("denom", WireValue::Str(r.denom.clone()))
}

/// Decodes a full-denom answer.
pub fn decode_full_denom_response(v: &WireValue) -> (r: Option<FullDenomResponse>)
    ensures
        r is Some <==> dec_full_denom_response(wire_dv(*v)) is Some,
        r is Some ==> (r->0).deep_view() == dec_full_denom_response(wire_dv(*v))->0,
{
    match v {
        WireValue::Obj(fields) => match get_str_field(fields, "denom") {
            Option::Some(denom) => Option::Some(FullDenomResponse { denom }),
            Option::None => Option::None,
        },
        _ => Option::None,
    }
}

/// Encodes an admin answer, keeping an empty admin as an empty text.
pub fn encode_admin_response(r: &AdminResponse) -> (w: WireValue)
    ensures
        wire_dv(w) == enc_admin_response(r.deep_view()),
{
    obj1("admin", WireValue::Str(r.admin.clone()))
}

/// Decodes an admin answer.
pub fn decode_admin_response(v: &WireValue) -> (r: Option<AdminResponse>)
    ensures
        r is Some <==> dec_admin_response(wire_dv(*v)) is Some,
        r is Some ==> (r->0).deep_view() == dec_admin_response(wire_dv(*v))->0,
{
    match v {
        WireValue::Obj(fields) => match get_str_field(fields, "admin") {
            Option::Some(admin) => Option::Some(AdminResponse { admin }),
            Option::None => Option::None,
        },
        _ => Option::None,
    }
}

/// Encodes a metadata answer.
pub fn encode_metadata_response(r: &MetadataResponse) -> (w: WireValue)
    ensures
        wire_dv(w) == enc_metadata_response(r.deep_view()),
{
    obj1("metadata", encode_opt_metadata(&r.metadata))
}

/// Decodes a metadata answer.
pub fn decode_metadata_response(v: &WireValue) -> (r: Option<MetadataResponse>)
    ensures
        r is Some <==> dec_metadata_response(wire_dv(*v)) is Some,
        r is Some ==> (r->0).deep_view() == dec_metadata_response(wire_dv(*v))->0,
{
    match v {
        WireValue::Obj(fields) => match get_opt_metadata_field(fields, "metadata") {
            Option::Some(metadata) => Option::Some(MetadataResponse { metadata }),
            Option::None => Option::None,
        },
        _ => Option::None,
    }
}

/// Encodes a denoms-by-creator answer.
pub fn encode_denoms_by_creator_response(r: &DenomsByCreatorResponse) -> (w: WireValue)
    ensures
        wire_dv(w) == enc_denoms_by_creator_response(r.deep_view()),
{
    obj1("denoms", enc_str_vec(&r.denoms))
}

/// Decodes a denoms-by-creator answer; an empty denom list decodes as an
/// empty vector, not as a failure.
pub fn decode_denoms_by_creator_response(v: &WireValue) -> (r: Option<DenomsByCreatorResponse>)
    ensures
        r is Some <==> dec_denoms_by_creator_response(wire_dv(*v)) is Some,
        r is Some ==> (r->0).deep_view() == dec_denoms_by_creator_response(wire_dv(*v))->0,
{
    match v {
        WireValue::Obj(fields) => match get_str_vec_field(fields, "denoms") {
            Option::Some(denoms) => Option::Some(DenomsByCreatorResponse { denoms }),
            Option::None => Option::None,
        },
        _ => Option::None,
    }
}

/// Encodes one denom creation fee entry.
pub fn encode_fee(f: &DenomCreationFee) -> (w: WireValue)
    ensures
        wire_dv(w) == enc_fee(f.deep_view()),
{
    obj2("amount", WireValue::Big(f.amount), "denom", WireValue::Str(f.denom.clone()))
}

/// Decodes one denom creation fee entry.
pub fn decode_fee(v: &WireValue) -> (r: Option<DenomCreationFee>)
    ensures
        r is Some <==> dec_fee(wire_dv(*v)) is Some,
        r is Some ==> (r->0).deep_view() == dec_fee(wire_dv(*v))->0,
{
    match v {
        WireValue::Obj(fields) => {
            let amount = get_big_field(fields, "amount");
            let denom = get_str_field(fields, "denom");
            match (amount, denom) {
                (Option::Some(amount), Option::Some(denom)) => (Option::Some(
                    DenomCreationFee { amount, denom },
                )),
                _ => Option::None,
            }
        },
        _ => Option::None,
    }
}

/// Encodes a vector of fee entries as a wire array.
pub fn enc_fees_vec(fs: &Vec<DenomCreationFee>) -> (r: WireValue)
    ensures
        wire_dv(r) == WireV::Arr(enc_fees(fs.deep_view())),
{
    let mut items: Vec<WireValue> = Vec::new();
    let mut i: usize = 0;
    while i < fs.len()
        invariant
            i <= fs.len(),
            items@.len() == i,
            forall|j: int|
                0 <= j < i ==> wire_dv(#[trigger] items@[j]) == enc_fee(fs.deep_view()[j]),
        decreases fs.len() - i,
    {
        items.push(encode_fee(&fs[i]));
        i += 1;
    }
    proof {
        assert(arr_dv(items@) =~= enc_fees(fs.deep_view()));
    }
    WireValue::Arr(items)
}

/// Reads a required field holding an array of fee entries.
pub fn get_fees_field(fields: &Vec<(String, WireValue)>, k: &str) -> (r: Option<
    Vec<DenomCreationFee>,
>)
    ensures
        r is Some <==> get_fees(fields_dv(fields@), k@) is Some,
        r is Some ==> (r->0).deep_view() == get_fees(fields_dv(fields@), k@)->0,
{
    let key_s = String::from_str(k);
    match obj_find(fields, &key_s) {
        Option::Some(w) => match w {
            WireValue::Arr(items) => {
                let ghost gitems = arr_dv(items@);
                let mut out: Vec<DenomCreationFee> = Vec::new();
                let mut i: usize = 0;
                while i < items.len()
                    invariant
                        i <= items.len(),
                        out@.len() == i,
                        gitems == arr_dv(items@),
                        gitems.len() == items@.len(),
                        obj_get(fields_dv(fields@), k@) == Option::Some(WireV::Arr(gitems)),
                        forall|j: int|
                            0 <= j < i ==> dec_fee_fn()(#[trigger] gitems[j]) == Option::Some(
                                out@[j].deep_view(),
                            ),
                    decreases items.len() - i,
                {
                    match decode_fee(&items[i]) {
                        Option::Some(f) => {
                            out.push(f);
                        },
                        Option::None => {
                            proof {
                                assert(dec_fee_fn()(gitems[i as int]) is None);
                            }
                            return Option::None;
                        },
                    }
                    i += 1;
                }
                proof {
                    let f = dec_fee_fn();
                    assert(forall|j: int|
                        0 <= j < gitems.len() ==> (#[trigger] f(gitems[j])) is Some);
                    assert(out.deep_view() =~= Seq::new(gitems.len(), |j: int| f(gitems[j])->0));
                }
                Option::Some(out)
            },
            _ => Option::None,
        },
        Option::None => Option::None,
    }
}

/// Encodes the module parameters.
pub fn encode_params(p: &TokenParams) -> (w: WireValue)
    ensures
        wire_dv(w) == enc_params(p.deep_view()),
{
    obj1("denom_creation_fee", enc_fees_vec(&p.denom_creation_fee))
}

/// Decodes the module parameters.
pub fn decode_params(v: &WireValue) -> (r: Option<TokenParams>)
    ensures
        r is Some <==> dec_params(wire_dv(*v)) is Some,
        r is Some ==> (r->0).deep_view() == dec_params(wire_dv(*v))->0,
{
    match v {
        WireValue::Obj(fields) => match get_fees_field(fields, "denom_creation_fee") {
            Option::Some(denom_creation_fee) => Option::Some(
                TokenParams { denom_creation_fee },
            ),
            Option::None => Option::None,
        },
        _ => Option::None,
    }
}

/// Encodes a params answer.
pub fn encode_params_response(r: &TokenParamsResponse) -> (w: WireValue)
    ensures
        wire_dv(w) == enc_params_response(r.deep_view()),
{
    obj1("params", encode_params(&r.params))
}

/// Decodes a params answer.
pub fn decode_params_response(v: &WireValue) -> (r: Option<TokenParamsResponse>)
    ensures
        r is Some <==> dec_params_response(wire_dv(*v)) is Some,
        r is Some ==> (r->0).deep_view() == dec_params_response(wire_dv(*v))->0,
{
    match v {
        WireValue::Obj(fields) => {
            let key_s = String::from_str("params");
            match obj_find(fields, &key_s) {
                Option::Some(w) => match decode_params(w) {
                    Option::Some(params) => Option::Some(TokenParamsResponse { params }),
                    Option::None => Option::None,
                },
                Option::None => Option::None,
            }
        },
        _ => Option::None,
    }
}

} // verus!
