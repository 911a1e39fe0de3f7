//! A plain JSON tree and verified access to its object fields.
//!
//! Request bodies are built as [`JsonValue`] trees and response bodies arrive
//! as such trees; the schema logic of the crate reads and writes them field
//! by field. Turning a tree into wire bytes, and bytes into a tree, is generic
//! JSON work that the surrounding program does.

use vstd::prelude::*;

verus! {

/// One JSON document or fragment.
#[derive(Debug)]
pub enum JsonValue {
    Null,
    Bool(bool),
    Int(i64),
    Str(String),
    Arr(Vec<JsonValue>),
    Obj(Vec<(String, JsonValue)>),
}

/// The first value under `name` among `fields`, if any.
pub open spec fn spec_lookup(fields: Seq<(String, JsonValue)>, name: Seq<char>) -> Option<
    JsonValue,
>
    decreases fields.len(),
{
    if fields.len() == 0 {
        Option::None
    } else if fields[0].0@ == name {
        Option::Some(fields[0].1)
    } else {
        spec_lookup(fields.drop_first(), name)
    }
}

/// Finds the first field called `name`.
pub fn obj_get<'a>(fields: &'a Vec<(String, JsonValue)>, name: &str) -> (r: Option<&'a JsonValue>)
    ensures
        match r {
            Option::Some(v) => spec_lookup(fields@, name@) == Option::Some(*v),
            Option::None => spec_lookup(fields@, name@) is None,
        },
{
    let name_owned: String = name.to_owned();
    let n = fields.len();
    let mut i: usize = 0;
    proof {
        assert(fields@.skip(0) =~= fields@);
    }
    while i < n
        invariant
            i <= n == fields@.len(),
            name_owned@ == name@,
            spec_lookup(fields@, name@) == spec_lookup(fields@.skip(i as int), name@),
        decreases n - i,
    {
        let pair = &fields[i];
        proof {
            assert(fields@.skip(i as int)[0] == fields@[i as int]);
            assert(fields@.skip(i as int).drop_first() =~= fields@.skip(i + 1));
        }
        if pair.0.eq(&name_owned) {
            return Some(&pair.1);
        }
        i = i + 1;
    }
    None
}

} // verus!
