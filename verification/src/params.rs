//! Named parameters, as datasets, models and extensions carry them.
use vstd::prelude::*;
use vstd::string::*;
use crate::text::same_text;

verus! {

/// One parameter: a key and its value.
#[derive(Clone, Debug)]
pub struct Param {
    pub key: String,
    pub value: String,
}

/// The value of the first parameter with the given key, if there is one.
pub open spec fn param_value(params: Seq<Param>, key: Seq<char>) -> Option<Seq<char>>
    decreases params.len(),
{
    if params.len() == 0 {
        None
    } else if params[0].key@ == key {
        Some(params[0].value@)
    } else {
        param_value(params.skip(1), key)
    }
}

/// The value of a parameter, or `default` where it is not given.
pub open spec fn param_or(params: Seq<Param>, key: Seq<char>, default: Seq<char>) -> Seq<char> {
    match param_value(params, key) {
        Some(v) => v,
        None => default,
    }
}

/// The value of the first parameter with the given key, if there is one.
pub fn find(params: &Vec<Param>, key: &str) -> (r: Option<String>)
    ensures
        match r {
            Some(v) => param_value(params@, key@) == Some(v@),
            None => param_value(params@, key@) is None,
        },
{
    let mut i: usize = 0;
    proof {
        assert(params@.skip(0) =~= params@);
    }
    while i < params.len()
        invariant
            i <= params@.len(),
            param_value(params@.skip(i as int), key@) == param_value(params@, key@),
        decreases params@.len() - i,
    {
        if same_text(params[i].key.as_str(), key) {
            return Some(params[i].value.clone());
        }
        proof {
            assert(params@.skip(i as int).skip(1) =~= params@.skip(i + 1));
        }
        i += 1;
    }
    None
}

/// The value of the first parameter with the given key, or `default` where
/// it is not given.
pub fn lookup(params: &Vec<Param>, key: &str, default: &str) -> (r: String)
    ensures
        r@ == param_or(params@, key@, default@),
{
    match find(params, key) {
        Some(v) => v,
        None => default.to_owned(),
    }
}

} // verus!
