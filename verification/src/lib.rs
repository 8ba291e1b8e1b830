use vstd::prelude::*;

verus! {

/// The value of the constant predicate: it is `true`.
pub open spec fn foo_spec() -> bool {
    true
}

/// The constant predicate. It takes no arguments, touches no state, and
/// always succeeds, returning `true`.
pub fn foo() -> (r: bool)
    ensures
        r == foo_spec(),
        r,
{
    true
}

/// Repeated invocation is idempotent: the predicate has no state, so any
/// two results it can ever return are equal, and each of them is `true`.
pub proof fn lemma_foo_deterministic(a: bool, b: bool)
    requires
        a == foo_spec(),
        b == foo_spec(),
    ensures
        a == b,
        a,
{
}

} // verus!
