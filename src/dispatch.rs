use vstd::prelude::*;

use crate::value::{Json, Value};

verus! {

/// One remote call, ready for the session handle: the name of the method,
/// the payload object (none for a command without fields), and the tag
/// under which the result is to be read.
#[derive(Clone, Debug, PartialEq)]
pub struct WsCall {
    pub method: String,
    pub payload: Option<Value>,
    pub tag: String,
}

/// The view of an optional value.
pub open spec fn opt_view(o: Option<Value>) -> Option<Json> {
    match o {
        Some(v) => Some(v@),
        None => None,
    }
}

/// Whether `tag` reads `name`.
pub fn tag_is(tag: &String, name: &str) -> (r: bool)
    ensures
        r == (tag@ == name@),
{
    let n = String::from_str(name);
    *tag == n
}

} // verus!
