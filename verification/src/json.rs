use vstd::prelude::*;
use crate::text::str_eq;

verus! {

/// One wire value: the JSON tree shape that this layer reads. The
/// transport hands a whole page over in this form; every parser in the
/// crate is a pure function of it.
///
/// The schemas this layer decodes carry numbers only as non-negative
/// integers (identifiers, counts, status codes); fractional quantities
/// such as prices travel as strings and go through their own validators.
/// `UInt` therefore covers every number the mapping reads.
#[derive(Debug, PartialEq)]
pub enum Json {
    Null,
    Bool(bool),
    UInt(u64),
    Str(String),
    Arr(Vec<Json>),
    Obj(Vec<(String, Json)>),
}

/// The value of the first field called `name`, if any.
pub open spec fn spec_lookup(fields: Seq<(String, Json)>, name: Seq<char>) -> Option<Json>
    decreases fields.len(),
{
    if fields.len() == 0 {
        None
    } else if fields[0].0@ == name {
        Some(fields[0].1)
    } else {
        spec_lookup(fields.skip(1), name)
    }
}

/// A field that is absent, or present as JSON null, counts as not given:
/// every optional field of the schema is independently nullable.
pub open spec fn spec_given(fields: Seq<(String, Json)>, name: Seq<char>) -> bool {
    match spec_lookup(fields, name) {
        Option::None => false,
        Option::Some(v) => !(v is Null),
    }
}

proof fn lemma_lookup_step(fields: Seq<(String, Json)>, name: Seq<char>, i: int)
    requires
        0 <= i < fields.len(),
        fields[i].0@ != name,
    ensures
        spec_lookup(fields.skip(i), name) == spec_lookup(fields.skip(i + 1), name),
{
    assert(fields.skip(i)[0] == fields[i]);
    assert(fields.skip(i).skip(1) =~= fields.skip(i + 1));
}

/// Finds the first field called `name` in a wire object's field list.
pub fn lookup<'a>(fields: &'a Vec<(String, Json)>, name: &str) -> (r: Option<&'a Json>)
    ensures
        match r {
            Option::Some(v) => spec_lookup(fields@, name@) == Some(*v),
            Option::None => spec_lookup(fields@, name@) is None,
        },
{
    let n = fields.len();
    proof {
        assert(fields@.skip(0) =~= fields@);
    }
    let mut i: usize = 0;
    while i < n
        invariant
            0 <= i <= n,
            n == fields@.len(),
            spec_lookup(fields@, name@) == spec_lookup(fields@.skip(i as int), name@),
        decreases n - i,
    {
        if str_eq(fields[i].0.as_str(), name) {
            proof {
                assert(fields@.skip(i as int)[0] == fields@[i as int]);
            }
            return Some(&fields[i].1);
        }
        proof {
            lemma_lookup_step(fields@, name@, i as int);
        }
        i += 1;
    }
    proof {
        assert(fields@.skip(n as int) =~= Seq::<(String, Json)>::empty());
    }
    None
}

} // verus!
