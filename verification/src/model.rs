//! The trait every decodable model of the API implements: a canonical
//! mapping from a JSON tree onto the model's fields.

use vstd::prelude::*;
use crate::json::JsonValue;

verus! {

/// A model of the graph API: a record type with a decode mapping from a
/// parsed JSON tree.
pub trait FBModel: View + Sized {
    /// The decode mapping of the model: what a given tree decodes to, or
    /// `None` where the tree's shape does not match the model.
    spec fn spec_decode(v: JsonValue) -> Option<Self::V>;

    /// Decode a JSON tree into this model; `None` exactly where the
    /// tree's shape does not match.
    fn decode_tree(v: &JsonValue) -> (r: Option<Self>)
        ensures
            (match r {
                Some(m) => Self::spec_decode(*v) == Some(m@),
                None => Self::spec_decode(*v) is None,
            }),
    ;
}

} // verus!
