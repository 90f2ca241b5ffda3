use vstd::prelude::*;
use crate::json::{JsonModel, JsonValue};

verus! {

/// What an application's tile type has to offer: a default, a copy, and a
/// structured value that stands for it in the map's files.
///
/// The three spec functions name what the executable functions return. An
/// implementation that is verified says what they are. For any other they
/// stay unknown, and everything that this library proves of such a type is
/// proved whatever they are.
pub trait TileTypeAble: Sized {
    /// The tile type that a new editor selects and that the first tile of a
    /// map gets.
    open spec fn default_spec() -> Self {
        arbitrary()
    }

    /// The structured value that stands for this tile type.
    open spec fn encoded(&self) -> JsonModel {
        arbitrary()
    }

    /// The tile type that a structured value stands for, if it stands for
    /// one.
    open spec fn decoded(value: JsonModel) -> Option<Self> {
        arbitrary()
    }

    /// The tile type that a new editor selects and that the first tile of a
    /// map gets.
    fn default_type() -> (typ: Self)
        ensures
            typ == Self::default_spec(),
    ;

    /// A copy of this tile type.
    fn clone_type(&self) -> (typ: Self)
        ensures
            typ == *self,
    ;

    /// The structured value that stands for this tile type.
    fn to_json(&self) -> (value: JsonValue)
        ensures
            value@ == self.encoded(),
    ;

    /// The tile type that a structured value stands for, or `None` where it
    /// stands for none.
    fn from_json(value: &JsonValue) -> (typ: Option<Self>)
        ensures
            typ == Self::decoded(value@),
    ;
}

} // verus!
