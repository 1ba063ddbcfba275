//! A versioned data structure written out as the engine expands it, with the
//! migrations its author supplies.
//!
//! ```text
//! versions "0.1.0", "0.2.0", "0.3.0", "1.9.0"
//! struct Foo {
//!     field_0: String,
//!     #[cfg(">=0.2")]        field_1: i32,
//!     #[cfg("0.2")]          field_2: u64,
//!     #[cfg(">0.2, <1.8.0")] field_3: String,
//! }
//! ```

#![allow(non_camel_case_types)]

use vstd::prelude::*;
use crate::runtime::{VersionMismatch, VersionOf, VersionTagged, Versioned};

verus! {

#[derive(Debug)]
pub struct Foo_v0_1_0 {
    pub field_0: String,
}

#[derive(Debug)]
pub struct Foo_v0_2_0 {
    pub field_0: String,
    pub field_1: i32,
    pub field_2: u64,
}

#[derive(Debug)]
pub struct Foo_v0_3_0 {
    pub field_0: String,
    pub field_1: i32,
    pub field_3: String,
}

#[derive(Debug)]
pub struct Foo_v1_9_0 {
    pub field_0: String,
    pub field_1: i32,
}

/// The newest version.
pub type Foo = Foo_v1_9_0;

/// A `Foo` of any declared version.
#[derive(Debug)]
pub enum VersionedFoo {
    Foo_v0_1_0(Foo_v0_1_0),
    Foo_v0_2_0(Foo_v0_2_0),
    Foo_v0_3_0(Foo_v0_3_0),
    Foo_v1_9_0(Foo_v1_9_0),
}

// ----- values -----

pub struct FooV010 {
    pub field_0: Seq<char>,
}

pub struct FooV020 {
    pub field_0: Seq<char>,
    pub field_1: i32,
    pub field_2: u64,
}

pub struct FooV030 {
    pub field_0: Seq<char>,
    pub field_1: i32,
    pub field_3: Seq<char>,
}

pub struct FooV190 {
    pub field_0: Seq<char>,
    pub field_1: i32,
}

pub enum AnyFoo {
    V010(FooV010),
    V020(FooV020),
    V030(FooV030),
    V190(FooV190),
}

impl View for Foo_v0_1_0 {
    type V = FooV010;

    open spec fn view(&self) -> FooV010 {
        FooV010 { field_0: self.field_0@ }
    }
}

impl View for Foo_v0_2_0 {
    type V = FooV020;

    open spec fn view(&self) -> FooV020 {
        FooV020 { field_0: self.field_0@, field_1: self.field_1, field_2: self.field_2 }
    }
}

impl View for Foo_v0_3_0 {
    type V = FooV030;

    open spec fn view(&self) -> FooV030 {
        FooV030 { field_0: self.field_0@, field_1: self.field_1, field_3: self.field_3@ }
    }
}

impl View for Foo_v1_9_0 {
    type V = FooV190;

    open spec fn view(&self) -> FooV190 {
        FooV190 { field_0: self.field_0@, field_1: self.field_1 }
    }
}

impl View for VersionedFoo {
    type V = AnyFoo;

    open spec fn view(&self) -> AnyFoo {
        match self {
            VersionedFoo::Foo_v0_1_0(x) => AnyFoo::V010(x@),
            VersionedFoo::Foo_v0_2_0(x) => AnyFoo::V020(x@),
            VersionedFoo::Foo_v0_3_0(x) => AnyFoo::V030(x@),
            VersionedFoo::Foo_v1_9_0(x) => AnyFoo::V190(x@),
        }
    }
}

// ----- the migrations -----

pub open spec fn to_0_2_0(foo: FooV010) -> FooV020 {
    FooV020 { field_0: foo.field_0, field_1: 0, field_2: 0 }
}

pub open spec fn to_0_3_0(foo: FooV020) -> FooV030 {
    FooV030 { field_0: foo.field_0, field_1: foo.field_1, field_3: "default here"@ }
}

pub open spec fn to_1_9_0(foo: FooV030) -> FooV190 {
    FooV190 { field_0: foo.field_0, field_1: foo.field_1 }
}

/// From 0.1.0 to 0.2.0: the new fields start at zero.
pub fn migrate_to_0_2_0(foo: Foo_v0_1_0) -> (r: Foo_v0_2_0)
    ensures
        r@ == to_0_2_0(foo@),
{
    Foo_v0_2_0 { field_0: foo.field_0, field_1: 0, field_2: 0 }
}

/// From 0.2.0 to 0.3.0: `field_2` is dropped, `field_3` gets a default.
pub fn migrate_to_0_3_0(foo: Foo_v0_2_0) -> (r: Foo_v0_3_0)
    ensures
        r@ == to_0_3_0(foo@),
{
    Foo_v0_3_0 { field_0: foo.field_0, field_1: foo.field_1, field_3: String::from_str("default here") }
}

/// From 0.3.0 to 1.9.0: `field_3` is dropped.
pub fn migrate_to_1_9_0(foo: Foo_v0_3_0) -> (r: Foo_v1_9_0)
    ensures
        r@ == to_1_9_0(foo@),
{
    Foo_v1_9_0 { field_0: foo.field_0, field_1: foo.field_1 }
}

// ----- the union -----

/// How far a value is from the newest version, in migration steps.
pub open spec fn steps_left(u: AnyFoo) -> nat {
    match u {
        AnyFoo::V010(_) => 3,
        AnyFoo::V020(_) => 2,
        AnyFoo::V030(_) => 1,
        AnyFoo::V190(_) => 0,
    }
}

/// One migration step; the newest version stays as it is.
pub open spec fn step(u: AnyFoo) -> AnyFoo {
    match u {
        AnyFoo::V010(x) => AnyFoo::V020(to_0_2_0(x)),
        AnyFoo::V020(x) => AnyFoo::V030(to_0_3_0(x)),
        AnyFoo::V030(x) => AnyFoo::V190(to_1_9_0(x)),
        AnyFoo::V190(x) => AnyFoo::V190(x),
    }
}

/// Migrating step by step until the newest version is reached.
pub open spec fn fold(u: AnyFoo) -> FooV190
    decreases steps_left(u),
{
    match u {
        AnyFoo::V190(x) => x,
        _ => fold(step(u)),
    }
}

/// The version text of the variant a value holds.
pub open spec fn held_version(u: AnyFoo) -> &'static str {
    match u {
        AnyFoo::V010(_) => "0.1.0",
        AnyFoo::V020(_) => "0.2.0",
        AnyFoo::V030(_) => "0.3.0",
        AnyFoo::V190(_) => "1.9.0",
    }
}

impl VersionedFoo {
    /// Migrates one step forward.
    pub fn advance(self) -> (r: VersionedFoo)
        ensures
            r@ == step(self@),
    {
        match self {
            VersionedFoo::Foo_v0_1_0(x) => VersionedFoo::Foo_v0_2_0(migrate_to_0_2_0(x)),
            VersionedFoo::Foo_v0_2_0(x) => VersionedFoo::Foo_v0_3_0(migrate_to_0_3_0(x)),
            VersionedFoo::Foo_v0_3_0(x) => VersionedFoo::Foo_v1_9_0(migrate_to_1_9_0(x)),
            VersionedFoo::Foo_v1_9_0(x) => VersionedFoo::Foo_v1_9_0(x),
        }
    }

    /// Migrates to the newest version, one declared version at a time.
    pub fn into_latest(self) -> (r: Foo)
        ensures
            r@ == fold(self@),
        decreases steps_left(self@),
    {
        match self {
            VersionedFoo::Foo_v1_9_0(x) => x,
            other => other.advance().into_latest(),
        }
    }
}

impl From<VersionedFoo> for Foo_v1_9_0 {
    /// Migrates to the newest version; see `VersionedFoo::into_latest`.
    fn from(from: VersionedFoo) -> (r: Foo_v1_9_0)
        ensures
            r@ == fold(from@),
    {
        from.into_latest()
    }
}

impl vstd::std_specs::convert::FromSpecImpl<VersionedFoo> for Foo_v1_9_0 {
    /// The result is stated over views, by the postcondition of `from`.
    open spec fn obeys_from_spec() -> bool {
        false
    }

    open spec fn from_spec(v: VersionedFoo) -> Foo_v1_9_0 {
        arbitrary()
    }
}

impl From<Foo_v0_1_0> for VersionedFoo {
    fn from(x: Foo_v0_1_0) -> (r: VersionedFoo) {
        VersionedFoo::Foo_v0_1_0(x)
    }
}

impl vstd::std_specs::convert::FromSpecImpl<Foo_v0_1_0> for VersionedFoo {
    open spec fn obeys_from_spec() -> bool {
        true
    }

    open spec fn from_spec(x: Foo_v0_1_0) -> VersionedFoo {
        VersionedFoo::Foo_v0_1_0(x)
    }
}

impl From<Foo_v0_2_0> for VersionedFoo {
    fn from(x: Foo_v0_2_0) -> (r: VersionedFoo) {
        VersionedFoo::Foo_v0_2_0(x)
    }
}

impl vstd::std_specs::convert::FromSpecImpl<Foo_v0_2_0> for VersionedFoo {
    open spec fn obeys_from_spec() -> bool {
        true
    }

    open spec fn from_spec(x: Foo_v0_2_0) -> VersionedFoo {
        VersionedFoo::Foo_v0_2_0(x)
    }
}

impl From<Foo_v0_3_0> for VersionedFoo {
    fn from(x: Foo_v0_3_0) -> (r: VersionedFoo) {
        VersionedFoo::Foo_v0_3_0(x)
    }
}

impl vstd::std_specs::convert::FromSpecImpl<Foo_v0_3_0> for VersionedFoo {
    open spec fn obeys_from_spec() -> bool {
        true
    }

    open spec fn from_spec(x: Foo_v0_3_0) -> VersionedFoo {
        VersionedFoo::Foo_v0_3_0(x)
    }
}

impl From<Foo_v1_9_0> for VersionedFoo {
    fn from(x: Foo_v1_9_0) -> (r: VersionedFoo) {
        VersionedFoo::Foo_v1_9_0(x)
    }
}

impl vstd::std_specs::convert::FromSpecImpl<Foo_v1_9_0> for VersionedFoo {
    open spec fn obeys_from_spec() -> bool {
        true
    }

    open spec fn from_spec(x: Foo_v1_9_0) -> VersionedFoo {
        VersionedFoo::Foo_v1_9_0(x)
    }
}

impl VersionOf<Foo> for Foo_v0_1_0 {
    const VERSION: &'static str = "0.1.0";

    fn try_from_versioned(tagged: VersionedFoo) -> (r: Result<Foo_v0_1_0, VersionMismatch>)
        ensures
            match tagged {
                VersionedFoo::Foo_v0_1_0(x) => r == Ok::<_, VersionMismatch>(x),
                _ => r == Err::<Foo_v0_1_0, _>(VersionMismatch { expected: "0.1.0", found: held_version(tagged@) }),
            },
    {
        match tagged {
            VersionedFoo::Foo_v0_1_0(x) => Ok(x),
            other => Err(VersionMismatch { expected: "0.1.0", found: other.version_str() }),
        }
    }
}

impl VersionOf<Foo> for Foo_v0_2_0 {
    const VERSION: &'static str = "0.2.0";

    fn try_from_versioned(tagged: VersionedFoo) -> (r: Result<Foo_v0_2_0, VersionMismatch>)
        ensures
            match tagged {
                VersionedFoo::Foo_v0_2_0(x) => r == Ok::<_, VersionMismatch>(x),
                _ => r == Err::<Foo_v0_2_0, _>(VersionMismatch { expected: "0.2.0", found: held_version(tagged@) }),
            },
    {
        match tagged {
            VersionedFoo::Foo_v0_2_0(x) => Ok(x),
            other => Err(VersionMismatch { expected: "0.2.0", found: other.version_str() }),
        }
    }
}

impl VersionOf<Foo> for Foo_v0_3_0 {
    const VERSION: &'static str = "0.3.0";

    fn try_from_versioned(tagged: VersionedFoo) -> (r: Result<Foo_v0_3_0, VersionMismatch>)
        ensures
            match tagged {
                VersionedFoo::Foo_v0_3_0(x) => r == Ok::<_, VersionMismatch>(x),
                _ => r == Err::<Foo_v0_3_0, _>(VersionMismatch { expected: "0.3.0", found: held_version(tagged@) }),
            },
    {
        match tagged {
            VersionedFoo::Foo_v0_3_0(x) => Ok(x),
            other => Err(VersionMismatch { expected: "0.3.0", found: other.version_str() }),
        }
    }
}

impl VersionOf<Foo> for Foo_v1_9_0 {
    const VERSION: &'static str = "1.9.0";

    fn try_from_versioned(tagged: VersionedFoo) -> (r: Result<Foo_v1_9_0, VersionMismatch>)
        ensures
            match tagged {
                VersionedFoo::Foo_v1_9_0(x) => r == Ok::<_, VersionMismatch>(x),
                _ => r == Err::<Foo_v1_9_0, _>(VersionMismatch { expected: "1.9.0", found: held_version(tagged@) }),
            },
    {
        match tagged {
            VersionedFoo::Foo_v1_9_0(x) => Ok(x),
            other => Err(VersionMismatch { expected: "1.9.0", found: other.version_str() }),
        }
    }
}

impl VersionTagged<Foo> for VersionedFoo {
    fn version_str(&self) -> (r: &'static str)
        ensures
            r == held_version(self@),
    {
        match self {
            VersionedFoo::Foo_v0_1_0(_) => "0.1.0",
            VersionedFoo::Foo_v0_2_0(_) => "0.2.0",
            VersionedFoo::Foo_v0_3_0(_) => "0.3.0",
            VersionedFoo::Foo_v1_9_0(_) => "1.9.0",
        }
    }
}

impl Versioned for Foo_v1_9_0 {
    type Versioned = VersionedFoo;
}

/// Folding a value of the oldest version applies every migration in turn.
pub proof fn lemma_fold_oldest(x: FooV010)
    ensures
        fold(AnyFoo::V010(x)) == to_1_9_0(to_0_3_0(to_0_2_0(x))),
{
    assert(fold(AnyFoo::V190(to_1_9_0(to_0_3_0(to_0_2_0(x))))) == to_1_9_0(to_0_3_0(to_0_2_0(x))));
    assert(fold(AnyFoo::V030(to_0_3_0(to_0_2_0(x)))) == fold(AnyFoo::V190(to_1_9_0(to_0_3_0(to_0_2_0(x))))));
    assert(fold(AnyFoo::V020(to_0_2_0(x))) == fold(AnyFoo::V030(to_0_3_0(to_0_2_0(x)))));
}

/// Folding a value of any version applies the migrations from that version
/// on, in declaration order; a value of the newest version is returned as
/// it is, with no step taken.
pub proof fn lemma_fold_sequential(u: AnyFoo)
    ensures
        fold(u) == match u {
            AnyFoo::V010(x) => to_1_9_0(to_0_3_0(to_0_2_0(x))),
            AnyFoo::V020(x) => to_1_9_0(to_0_3_0(x)),
            AnyFoo::V030(x) => to_1_9_0(x),
            AnyFoo::V190(x) => x,
        },
        steps_left(u) == 0 <==> u is V190,
{
    match u {
        AnyFoo::V010(x) => lemma_fold_oldest(x),
        AnyFoo::V020(x) => {
            assert(fold(AnyFoo::V030(to_0_3_0(x))) == fold(AnyFoo::V190(to_1_9_0(to_0_3_0(x)))));
        },
        AnyFoo::V030(x) => {
            assert(fold(AnyFoo::V190(to_1_9_0(x))) == to_1_9_0(x));
        },
        AnyFoo::V190(x) => {},
    }
}

} // verus!
