//! The type-erased capability handle and its dispatch table.

use vstd::prelude::*;
use crate::capability::{Speak, Cat, Dog};

verus! {

/// Identifies the concrete implementor type a thunk reinterprets an
/// erased reference as. One thunk exists per implementor type.
///
/// A memory-safe verified library cannot reinterpret a raw pointer, so the
/// thunk is carried as this tag and interpreted by [`SpeakThunk::invoke`];
/// this trades the zero-overhead reinterpretation for a checked one, a
/// deliberate deviation from the pointer-cast design.
#[derive(Clone, Copy, PartialEq, Eq, Structural)]
pub enum SpeakThunk {
    ForCat,
    ForDog,
}

/// A non-owning reference to a concrete value whose static type has been
/// erased: the handle's code never names the concrete type, only this
/// union. The union is closed; a new implementor joins by adding a variant
/// here and an [`Erase`] impl.
pub enum ErasedRef<'a> {
    Cat(&'a Cat),
    Dog(&'a Dog),
}

impl<'a> ErasedRef<'a> {
    /// The thunk matching the true concrete type behind this erased
    /// reference.
    pub open spec fn tag(self) -> SpeakThunk {
        match self {
            ErasedRef::Cat(_) => SpeakThunk::ForCat,
            ErasedRef::Dog(_) => SpeakThunk::ForDog,
        }
    }

    /// The sound of the referent.
    pub open spec fn sound(self) -> Seq<char> {
        match self {
            ErasedRef::Cat(c) => c.sound(),
            ErasedRef::Dog(d) => d.sound(),
        }
    }
}

impl SpeakThunk {
    /// Reinterpret the erased reference as the concrete type this thunk
    /// was built for and invoke that type's speak behavior.
    ///
    /// The precondition is the soundness invariant of the whole mechanism:
    /// a thunk may only ever be applied to a referent of exactly the type
    /// it was built for. Applying it to any other referent would be a type
    /// confusion, so no such call is admitted.
    pub fn invoke(&self, data: &ErasedRef<'_>) -> (s: String)
        requires
            *self == data.tag(),
        ensures
            s@ == data.sound(),
    {
        match self {
            SpeakThunk::ForCat => match data {
                ErasedRef::Cat(c) => c.speak(),
                _ => vstd::pervasive::unreached(),
            },
            SpeakThunk::ForDog => match data {
                ErasedRef::Dog(d) => d.speak(),
                _ => vstd::pervasive::unreached(),
            },
        }
    }
}

/// The dispatch table: an immutable record holding exactly one function
/// entry, the speak thunk. Tables carry no referent state, so one table
/// value per concrete type serves every handle over that type.
#[derive(Clone, Copy, PartialEq, Eq, Structural)]
pub struct SpeakFunctions {
    pub speak_thunk: SpeakThunk,
}

/// The table built for a given thunk.
pub open spec fn table_for(thunk: SpeakThunk) -> SpeakFunctions {
    SpeakFunctions { speak_thunk: thunk }
}

/// Construction-time hooks of the erasure mechanism: how a borrowed value
/// of a concrete implementor type erases its static type, and which
/// dispatch table serves that type. The handle depends on the concrete
/// type only through this trait, and only at construction time.
pub trait Erase: Speak {
    /// The thunk specialized to this concrete type.
    spec fn thunk_spec() -> SpeakThunk;

    /// Erase a borrowed value of this type to an opaque reference. The
    /// erased reference keeps the value's identity (its tag names this
    /// type, and its sound is this value's sound) but its static type no
    /// longer appears in the result.
    fn erase<'a>(&'a self) -> (e: ErasedRef<'a>)
        ensures
            e.tag() == Self::thunk_spec(),
            e.sound() == self.sound(),
    ;

    /// The dispatch table for this concrete type: always the same value,
    /// so every handle over this type shares one table.
    fn table() -> (t: SpeakFunctions)
        ensures
            t == table_for(Self::thunk_spec()),
    ;
}

impl Erase for Cat {
    open spec fn thunk_spec() -> SpeakThunk {
        SpeakThunk::ForCat
    }

    fn erase<'a>(&'a self) -> (e: ErasedRef<'a>) {
        ErasedRef::Cat(self)
    }

    fn table() -> (t: SpeakFunctions) {
        SpeakFunctions { speak_thunk: SpeakThunk::ForCat }
    }
}

impl Erase for Dog {
    open spec fn thunk_spec() -> SpeakThunk {
        SpeakThunk::ForDog
    }

    fn erase<'a>(&'a self) -> (e: ErasedRef<'a>) {
        ErasedRef::Dog(self)
    }

    fn table() -> (t: SpeakFunctions) {
        SpeakFunctions { speak_thunk: SpeakThunk::ForDog }
    }
}

/// The type-erased capability handle: a non-owning erased reference paired
/// with the dispatch table built for the referent's true concrete type.
/// The handle may not outlive the borrowed value; the lifetime parameter
/// enforces that statically. A handle owns neither its referent nor its
/// table, so dropping or overwriting it affects neither.
pub struct AnythingSpeak<'a> {
    pub data: ErasedRef<'a>,
    pub functions: SpeakFunctions,
}

impl<'a> AnythingSpeak<'a> {
    /// The soundness invariant: the stored table is the one built for the
    /// exact concrete type of the value the erased reference points to.
    /// Construction establishes it and nothing ever breaks it; a handle
    /// whose table mismatched its referent would dispatch to a thunk for
    /// the wrong type.
    pub open spec fn wf(self) -> bool {
        self.functions.speak_thunk == self.data.tag()
    }

    /// The sound of the underlying value.
    pub open spec fn sound(self) -> Seq<char> {
        self.data.sound()
    }

    /// Construct a handle from a borrowed value of any conforming concrete
    /// type. Total: no inputs are rejected. The returned handle is well
    /// formed — its table is the one for the referent's type — and, asked
    /// to speak, produces exactly the sound the borrowed value itself
    /// would produce, though the handle's own type no longer mentions the
    /// concrete type.
    pub fn new<T: Erase>(t: &'a T) -> (h: Self)
        ensures
            h.wf(),
            h.sound() == t.sound(),
            h.functions == table_for(T::thunk_spec()),
    {
        AnythingSpeak { data: t.erase(), functions: T::table() }
    }

    /// Invoke the capability through the handle: fetch the thunk from the
    /// stored table and apply it to the stored erased reference. No
    /// branching on the referent happens here; correctness rests entirely
    /// on the well-formedness invariant, which every constructed handle
    /// carries.
    pub fn speak(&self) -> (s: String)
        requires
            self.wf(),
        ensures
            s@ == self.sound(),
    {
        self.functions.speak_thunk.invoke(&self.data)
    }

    /// Replace this handle with another: both the erased reference and the
    /// table reference are replaced together, and nothing of the old pair
    /// survives. The old referent and old table are unaffected, since the
    /// handle owned neither.
    pub fn reassign(&mut self, other: AnythingSpeak<'a>)
        ensures
            *final(self) == other,
    {
        *self = other;
    }
}

} // verus!
