//! The laws of the dispatch mechanism, stated and proved once for all
//! handles rather than checked anew at each call site.

use vstd::prelude::*;
use crate::capability::{Speak, Cat, Dog};
use crate::handle::{AnythingSpeak, Erase, ErasedRef, table_for};

verus! {

/// The two implementor types have distinct observable outputs, so a
/// correct dispatch to one can never be mistaken for a dispatch to the
/// other.
pub proof fn lemma_cat_dog_sounds_differ(c: Cat, d: Dog)
    ensures
        c.sound() != d.sound(),
{
    reveal_strlit("meowww");
    reveal_strlit("WOOF");
    assert(c.sound().len() != d.sound().len());
}

/// Dispatch correctness: a handle assembled the way construction assembles
/// it — an erased reference that keeps the borrowed value's identity, and
/// the table built for that value's concrete type — is well formed and is
/// owed exactly the borrowed value's own sound. Together with the
/// contracts of `AnythingSpeak::new`, `AnythingSpeak::speak` and
/// `Speak::speak`, this says that speaking through the handle and invoking
/// the concrete value's speak behavior directly produce the same
/// observable output, for every implementor type and every value of it.
pub proof fn lemma_dispatch_correctness<T: Erase>(v: T, h: AnythingSpeak)
    requires
        h.data.tag() == T::thunk_spec(),
        h.data.sound() == v.sound(),
        h.functions == table_for(T::thunk_spec()),
    ensures
        h.wf(),
        h.sound() == v.sound(),
{
}

/// Independence across instances: two well-formed handles whose referents
/// are of distinct concrete types each produce their own referent's sound,
/// and those sounds are distinct — neither handle's existence disturbs the
/// other's dispatch.
pub proof fn lemma_independence(h1: AnythingSpeak, h2: AnythingSpeak)
    requires
        h1.wf(),
        h2.wf(),
        h1.data.tag() != h2.data.tag(),
    ensures
        h1.sound() == h1.data.sound(),
        h2.sound() == h2.data.sound(),
        h1.sound() != h2.sound(),
{
    match h1.data {
        ErasedRef::Cat(c) => match h2.data {
            ErasedRef::Dog(d) => lemma_cat_dog_sounds_differ(*c, *d),
            ErasedRef::Cat(_) => assert(false),
        },
        ErasedRef::Dog(d) => match h2.data {
            ErasedRef::Cat(c) => lemma_cat_dog_sounds_differ(*c, *d),
            ErasedRef::Dog(_) => assert(false),
        },
    }
}

/// Reassignment correctness: when a handle variable is replaced by a
/// well-formed handle over a value of another concrete type, the new
/// handle is owed the new referent's sound and never the old one's, and
/// carries none of the old table — no stale-table leakage is possible.
pub proof fn lemma_reassignment(before: AnythingSpeak, after: AnythingSpeak)
    requires
        before.wf(),
        after.wf(),
        before.data.tag() != after.data.tag(),
    ensures
        after.sound() == after.data.sound(),
        after.sound() != before.sound(),
        after.functions != before.functions,
{
    lemma_independence(before, after);
}

/// Table reuse: a well-formed handle's table is determined by its
/// referent's concrete type alone, so any two handles over values of one
/// type carry one and the same table value, and the shared table decides
/// neither handle's sound — tables hold no state about the referent.
pub proof fn lemma_table_reuse(h1: AnythingSpeak, h2: AnythingSpeak)
    requires
        h1.wf(),
        h2.wf(),
        h1.data.tag() == h2.data.tag(),
    ensures
        h1.functions == h2.functions,
        h1.functions == table_for(h1.data.tag()),
        h1.sound() == h1.data.sound(),
        h2.sound() == h2.data.sound(),
{
}

} // verus!
