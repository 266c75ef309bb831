//! The host-neutral interchange tree: the serializer's output, made only
//! of ordered string-keyed mappings, ordered lists, strings and unsigned
//! integers, suitable for crossing a process or runtime boundary.

use vstd::prelude::*;

verus! {

/// One node of the interchange tree.
#[derive(Debug)]
pub enum Value {
    /// An ordered key-value mapping with string keys.
    Mapping(Vec<(String, Value)>),
    /// An ordered sequence.
    List(Vec<Value>),
    /// A string scalar.
    Text(String),
    /// An unsigned integer scalar.
    Int(u64),
}

impl Value {
    /// The key-value pairs of a mapping, in emission order.
    pub open spec fn pairs(self) -> Seq<(String, Value)> {
        match self {
            Value::Mapping(pairs) => pairs@,
            _ => Seq::empty(),
        }
    }

    /// The items of a list, in order.
    pub open spec fn items(self) -> Seq<Value> {
        match self {
            Value::List(items) => items@,
            _ => Seq::empty(),
        }
    }

    /// The characters of a string scalar.
    pub open spec fn text(self) -> Seq<char> {
        match self {
            Value::Text(s) => s@,
            _ => Seq::empty(),
        }
    }

    /// Whether some pair of the mapping carries the key `key`.
    pub open spec fn has_key(self, key: Seq<char>) -> bool {
        exists|i: int| 0 <= i < self.pairs().len() && #[trigger] self.pairs()[i].0@ == key
    }
}

} // verus!
