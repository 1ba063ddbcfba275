//! The surface that generated declarations implement at run time.

use vstd::prelude::*;

verus! {

/// Implemented by the newest version of a versioned data structure.
pub trait Versioned: Sized {
    /// The version-tagged union over all versions.
    type Versioned: VersionTagged<Self>;
}

/// Implemented by the version-tagged union of a versioned data structure.
pub trait VersionTagged<T>: From<T> + Into<T> {
    /// The version of the variant this value holds.
    fn version_str(&self) -> &'static str;
}

/// The version-tagged union of `T`.
pub type AnyVersion<T> = <T as Versioned>::Versioned;

/// Implemented by every declared version of a versioned data structure.
pub trait VersionOf<T: Versioned>: Into<AnyVersion<T>> + Sized {
    /// The version text of this version.
    const VERSION: &'static str;

    /// This version out of the union, or the mismatch when the union holds
    /// another version.
    fn try_from_versioned(tagged: AnyVersion<T>) -> Result<Self, VersionMismatch>;
}

/// Narrowing a union to a version it does not hold.
#[derive(Clone, Copy, Debug, PartialEq, Eq)]
pub struct VersionMismatch {
    /// The version asked for.
    pub expected: &'static str,
    /// The version held.
    pub found: &'static str,
}


/// `r` is what migrating `x` from version position `from` to the last of
/// `count` versions can give, when `step(i, y)` migrates `y` from position
/// `i` to `i + 1`.
pub open spec fn folds_to<T, F: Fn(usize, T) -> T>(step: F, from: int, count: int, x: T, r: T) -> bool
    decreases count - from,
{
    if from + 1 >= count {
        r == x
    } else {
        exists|y: T| #[trigger] step.ensures((from as usize, x), y) && folds_to(step, from + 1, count, y, r)
    }
}

/// The migrations from position `from` on, applied in order.
pub open spec fn apply_steps<T>(g: spec_fn(int, T) -> T, from: int, count: int, x: T) -> T
    decreases count - from,
{
    if from + 1 >= count {
        x
    } else {
        apply_steps(g, from + 1, count, g(from, x))
    }
}

/// Migrates a value held at version position `index`, of `count` declared
/// versions, forward to the last: one step at a time, never skipping a
/// version, and taking no step when it is already the last.
pub fn fold_forward<T, F: Fn(usize, T) -> T>(index: usize, value: T, count: usize, step: &F) -> (r: T)
    requires
        index < count,
        forall|i: usize, x: T| index <= i && i + 1 < count ==> #[trigger] step.requires((i, x)),
    ensures
        folds_to(*step, index as int, count as int, value, r),
    decreases count - index,
{
    if index + 1 >= count {
        value
    } else {
        let next = step(index, value);
        fold_forward(index + 1, next, count, step)
    }
}

/// When each step is a function `g` of its position and value, folding from
/// position `from` applies `g` at `from`, `from + 1`, ... up to the last
/// version, in that order; from the last version it applies nothing.
pub proof fn law_fold_sequential<T, F: Fn(usize, T) -> T>(
    step: F,
    g: spec_fn(int, T) -> T,
    from: int,
    count: int,
    x: T,
    r: T,
)
    requires
        0 <= from < count,
        count <= usize::MAX,
        forall|i: usize, a: T, b: T| #[trigger] step.ensures((i, a), b) ==> b == g(i as int, a),
        folds_to(step, from, count, x, r),
    ensures
        r == apply_steps(g, from, count, x),
        from + 1 == count ==> r == x,
    decreases count - from,
{
    if from + 1 < count {
        let y = choose|y: T| #[trigger] step.ensures((from as usize, x), y) && folds_to(step, from + 1, count, y, r);
        assert(y == g(from, x));
        law_fold_sequential(step, g, from + 1, count, y, r);
    }
}

} // verus!
