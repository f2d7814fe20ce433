//! The capability interface and its concrete implementors.

use vstd::prelude::*;

verus! {

/// The capability contract: a single operation, `speak`.
///
/// Any concrete type may conform by supplying the operation; no shared
/// representation is required between implementors. `sound` is the
/// mathematical description of the observable output, and `speak` is owed
/// to produce exactly that output. The caller decides what to do with the
/// produced text (for instance, print it); producing it has no other
/// effect.
pub trait Speak {
    /// The sound this value makes, as a sequence of characters.
    spec fn sound(&self) -> Seq<char>;

    /// Produce the observable output of this value's speak behavior.
    fn speak(&self) -> (s: String)
        ensures
            s@ == self.sound(),
    ;
}

/// A concrete implementor: an empty marker type that says "meowww".
pub struct Cat;

impl Speak for Cat {
    open spec fn sound(&self) -> Seq<char> {
        "meowww"@
    }

    fn speak(&self) -> (s: String) {
        "meowww".to_owned()
    }
}

/// A concrete implementor: an empty marker type that says "WOOF".
pub struct Dog;

impl Speak for Dog {
    open spec fn sound(&self) -> Seq<char> {
        "WOOF"@
    }

    fn speak(&self) -> (s: String) {
        "WOOF".to_owned()
    }
}

} // verus!
