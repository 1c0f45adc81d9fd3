//! The field-tagged wire form that messages, queries and responses travel
//! in: a tree of null, string, number, 256-bit amount, array and object
//! nodes. An object is an ordered list of key/value fields; a tagged union
//! is an object with a single field whose key is the variant tag.
//!
//! Rendering this tree to concrete bytes (and parsing bytes back) is the
//! host serializer's job outside this crate; everything the schema layer
//! states is about this tree.

use vstd::prelude::*;

use crate::amount::Uint256;

verus! {

/// One node of the wire form.
#[derive(Debug, PartialEq, Eq)]
pub enum WireValue {
    /// An absent value.
    Null,
    /// A text value.
    Str(String),
    /// A small unsigned number, carried numerically.
    Num(u64),
    /// A 256-bit amount, carried as text on the wire.
    Big(Uint256),
    /// An ordered sequence of values.
    Arr(Vec<WireValue>),
    /// An ordered sequence of named fields.
    Obj(Vec<(String, WireValue)>),
}

/// The mathematical mirror of [`WireValue`].
pub ghost enum WireV {
    Null,
    Str(Seq<char>),
    Num(u64),
    Big(nat),
    Arr(Seq<WireV>),
    Obj(Seq<(Seq<char>, WireV)>),
}

/// The mathematical value a wire node stands for.
pub open spec fn wire_dv(v: WireValue) -> WireV
    decreases v,
{
    match v {
        WireValue::Null => WireV::Null,
        WireValue::Str(s) => WireV::Str(s@),
        WireValue::Num(n) => WireV::Num(n),
        WireValue::Big(u) => WireV::Big(u.value()),
        WireValue::Arr(items) => WireV::Arr(arr_dv(items@)),
        WireValue::Obj(fields) => WireV::Obj(fields_dv(fields@)),
    }
}

/// The deep view of an array's item list.
pub open spec fn arr_dv(items: Seq<WireValue>) -> Seq<WireV>
    decreases items,
{
    Seq::new(
        items.len(),
        |i: int|
            if 0 <= i < items.len() {
                wire_dv(items[i])
            } else {
                WireV::Null
            },
    )
}

/// The deep view of an object's field list.
pub open spec fn fields_dv(fields: Seq<(String, WireValue)>) -> Seq<(Seq<char>, WireV)>
    decreases fields,
{
    Seq::new(
        fields.len(),
        |i: int|
            if 0 <= i < fields.len() {
                (fields[i].0@, wire_dv(fields[i].1))
            } else {
                (Seq::empty(), WireV::Null)
            },
    )
}

/// Looks a key up in an object's field list; the first occurrence wins,
/// fields with other keys are passed over.
pub open spec fn obj_get(fields: Seq<(Seq<char>, WireV)>, key: Seq<char>) -> Option<WireV>
    decreases fields.len(),
{
    if fields.len() == 0 {
        Option::None
    } else if fields[0].0 == key {
        Option::Some(fields[0].1)
    } else {
        obj_get(fields.drop_first(), key)
    }
}

/// Looking up in one more field changes the result only where the key was
/// absent so far.
pub proof fn lemma_obj_get_push(fields: Seq<(Seq<char>, WireV)>, key: Seq<char>, f: (Seq<char>, WireV))
    ensures
        obj_get(fields.push(f), key) == (if obj_get(fields, key) is Some {
            obj_get(fields, key)
        } else if f.0 == key {
            Option::Some(f.1)
        } else {
            Option::<WireV>::None
        }),
    decreases fields.len(),
{
    if fields.len() == 0 {
        assert(fields.push(f)[0] == f);
        assert(fields.push(f).drop_first() =~= Seq::<(Seq<char>, WireV)>::empty());
    } else {
        assert(fields.push(f)[0] == fields[0]);
        assert(fields.push(f).drop_first() =~= fields.drop_first().push(f));
        lemma_obj_get_push(fields.drop_first(), key, f);
    }
}

/// Finds the first field with the given key, returning a borrow of its
/// value.
pub fn obj_find<'a>(fields: &'a Vec<(String, WireValue)>, key: &String) -> (r: Option<
    &'a WireValue,
>)
    ensures
        match r {
            Option::Some(w) => obj_get(fields_dv(fields@), key@) == Option::Some(wire_dv(*w)),
            Option::None => obj_get(fields_dv(fields@), key@) is None,
        },
{
    let ghost all = fields_dv(fields@);
    let mut i: usize = 0;
    while i < fields.len()
        invariant
            i <= fields.len(),
            all == fields_dv(fields@),
            obj_get(all.take(i as int), key@) is None,
        decreases fields.len() - i,
    {
        proof {
            assert(all.take(i + 1) =~= all.take(i as int).push(all[i as int]));
            lemma_obj_get_push(all.take(i as int), key@, all[i as int]);
        }
        if fields[i].0.eq(key) {
            assert(obj_get(all.take(i + 1), key@) == Option::Some(all[i as int].1));
            proof {
                lemma_obj_get_take_extends(all, key@, i + 1);
            }
            return Option::Some(&fields[i].1);
        }
        i += 1;
    }
    proof {
        assert(all.take(fields.len() as int) =~= all);
    }
    Option::None
}

/// Looking up a key finds the first field that carries it: if the fields
/// before position `j` all carry other keys and the field at `j` carries
/// `key`, the lookup answers with that field's value.
pub proof fn lemma_obj_get_at(fs: Seq<(Seq<char>, WireV)>, key: Seq<char>, j: int)
    requires
        0 <= j < fs.len(),
        fs[j].0 == key,
        forall|i: int| 0 <= i < j ==> (#[trigger] fs[i]).0 != key,
    ensures
        obj_get(fs, key) == Option::Some(fs[j].1),
    decreases j,
{
    if j > 0 {
        assert(fs[0].0 != key);
        assert(fs.drop_first()[j - 1] == fs[j]);
        assert(forall|i: int| 0 <= i < j - 1 ==> (#[trigger] fs.drop_first()[i]).0 != key);
        lemma_obj_get_at(fs.drop_first(), key, j - 1);
    }
}

/// Once a key is found in a prefix, the whole list gives the same answer.
pub proof fn lemma_obj_get_take_extends(fields: Seq<(Seq<char>, WireV)>, key: Seq<char>, n: int)
    requires
        0 <= n <= fields.len(),
        obj_get(fields.take(n), key) is Some,
    ensures
        obj_get(fields, key) == obj_get(fields.take(n), key),
    decreases fields.len(),
{
    if n > 0 && fields.len() > 0 {
        if fields[0].0 == key {
            assert(fields.take(n)[0] == fields[0]);
        } else {
            assert(fields.take(n)[0] == fields[0]);
            assert(fields.take(n).drop_first() =~= fields.drop_first().take(n - 1));
            lemma_obj_get_take_extends(fields.drop_first(), key, n - 1);
        }
    }
}

} // verus!
