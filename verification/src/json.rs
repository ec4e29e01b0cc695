//! A plain model of the JSON trees the store hands this crate.
//!
//! Stored algorithm data, profile routing references and payment metadata
//! arrive as JSON values; this type holds them as plain data so that the
//! shape checks and decoders over them are ordinary verified code. An
//! object is an ordered key/value list and the first entry with a key
//! wins. Numbers are unsigned integers: nothing this crate decodes holds
//! fractions or negatives.

use vstd::prelude::*;
use crate::enums::str_is;

verus! {

#[derive(Debug)]
pub enum JsonVal {
    Null,
    Bool(bool),
    UInt(u64),
    Str(String),
    Arr(Vec<JsonVal>),
    Obj(Vec<(String, JsonVal)>),
}

/// The value stored under the first occurrence of `key`.
pub open spec fn obj_lookup(o: Seq<(String, JsonVal)>, key: Seq<char>) -> Option<JsonVal>
    decreases o.len(),
{
    if o.len() == 0 {
        None
    } else if o[0].0@ == key {
        Some(o[0].1)
    } else {
        obj_lookup(o.drop_first(), key)
    }
}

#[verifier::loop_isolation(false)]
pub fn obj_get<'a>(o: &'a Vec<(String, JsonVal)>, key: &str) -> (r: Option<&'a JsonVal>)
    ensures
        match r {
            Some(v) => obj_lookup(o@, key@) == Some(*v),
            None => obj_lookup(o@, key@) is None,
        },
{
    proof {
        assert(o@.subrange(0, o@.len() as int) =~= o@);
    }
    let mut i: usize = 0;
    while i < o.len()
        invariant
            i <= o@.len(),
            obj_lookup(o@, key@) == obj_lookup(o@.subrange(i as int, o@.len() as int), key@),
        decreases o@.len() - i,
    {
        let ghost rest = o@.subrange(i as int, o@.len() as int);
        proof {
            assert(rest.drop_first() =~= o@.subrange(i as int + 1, o@.len() as int));
            assert(rest[0] == o@[i as int]);
        }
        if str_is(o[i].0.as_str(), key) {
            return Some(&o[i].1);
        }
        i += 1;
    }
    proof {
        assert(o@.subrange(o@.len() as int, o@.len() as int) =~= Seq::<(String, JsonVal)>::empty());
    }
    None
}

} // verus!
