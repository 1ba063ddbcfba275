use obake::runtime::{VersionMismatch, VersionOf, VersionTagged};
use obake::sample::{
    migrate_to_0_2_0, migrate_to_0_3_0, migrate_to_1_9_0, Foo, Foo_v0_1_0, Foo_v0_2_0, Foo_v0_3_0,
    Foo_v1_9_0, VersionedFoo,
};

fn oldest() -> Foo_v0_1_0 {
    Foo_v0_1_0 { field_0: "hello".to_string() }
}

#[test]
fn migrations_step_by_step() {
    let b = migrate_to_0_2_0(oldest());
    assert_eq!((b.field_0.as_str(), b.field_1, b.field_2), ("hello", 0, 0));
    let c = migrate_to_0_3_0(Foo_v0_2_0 { field_0: "x".to_string(), field_1: 7, field_2: 9 });
    assert_eq!((c.field_0.as_str(), c.field_1, c.field_3.as_str()), ("x", 7, "default here"));
    let d = migrate_to_1_9_0(c);
    assert_eq!((d.field_0.as_str(), d.field_1), ("x", 7));
}

#[test]
fn fold_from_oldest_equals_manual_chain() {
    let folded: Foo = VersionedFoo::Foo_v0_1_0(oldest()).into();
    let manual = migrate_to_1_9_0(migrate_to_0_3_0(migrate_to_0_2_0(oldest())));
    assert_eq!((folded.field_0, folded.field_1), (manual.field_0, manual.field_1));
}

#[test]
fn fold_from_latest_is_identity() {
    let x = Foo_v1_9_0 { field_0: "keep".to_string(), field_1: -3 };
    let folded: Foo = VersionedFoo::Foo_v1_9_0(x).into();
    assert_eq!((folded.field_0.as_str(), folded.field_1), ("keep", -3));
}

#[test]
fn extraction_matches_held_version() {
    let u = VersionedFoo::Foo_v0_3_0(Foo_v0_3_0 { field_0: "a".to_string(), field_1: 1, field_3: "b".to_string() });
    assert_eq!(u.version_str(), "0.3.0");
    let x = Foo_v0_3_0::try_from_versioned(u).unwrap();
    assert_eq!(x.field_3, "b");
    let u = VersionedFoo::Foo_v0_3_0(Foo_v0_3_0 { field_0: "a".to_string(), field_1: 1, field_3: "b".to_string() });
    assert_eq!(
        Foo_v0_1_0::try_from_versioned(u).unwrap_err(),
        VersionMismatch { expected: "0.1.0", found: "0.3.0" }
    );
    let u: VersionedFoo = Foo_v1_9_0 { field_0: "z".to_string(), field_1: 2 }.into();
    assert_eq!(
        Foo_v0_2_0::try_from_versioned(u).unwrap_err(),
        VersionMismatch { expected: "0.2.0", found: "1.9.0" }
    );
    assert_eq!(<Foo_v1_9_0 as VersionOf<Foo>>::VERSION, "1.9.0");
}

#[test]
fn fold_forward_applies_each_step_in_order() {
    let step = |i: usize, x: Vec<String>| {
        let mut x = x;
        x.push(format!("step {}", i));
        x
    };
    let r = obake::runtime::fold_forward(0, vec!["v1".to_string()], 3, &step);
    assert_eq!(r, vec!["v1", "step 0", "step 1"]);
    let r = obake::runtime::fold_forward(1, vec!["v2".to_string()], 3, &step);
    assert_eq!(r, vec!["v2", "step 1"]);
}

#[test]
fn fold_forward_from_last_takes_no_step() {
    let step = |_: usize, _: u32| -> u32 { panic!("no step expected") };
    assert_eq!(obake::runtime::fold_forward(2, 7u32, 3, &step), 7);
}
