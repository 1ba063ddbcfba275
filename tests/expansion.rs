use obake::diagnostic::{Diagnostic, DiagnosticKind};
use obake::expand::{DeclBody, TypeDecl, VariantShape, VersionDecl};
use obake::item::{
    FieldType, PathSegment, RawAttribute, RawBody, RawField, RawItem, RawVariant, RawVariantFields,
    VersionedItem, VersionedItemKind,
};
use obake::synth::{versioned, Expansion};
use obake::tokens::{Delimiter, Token, TokenKind};
use obake::version::{tag, Version};

fn tok(kind: TokenKind, span: u64) -> Token {
    Token { kind, span }
}

fn ident(s: &str, span: u64) -> Token {
    tok(TokenKind::Ident(s.to_string()), span)
}

fn lit(s: &str, span: u64) -> Token {
    tok(TokenKind::Str(s.to_string()), span)
}

fn open(span: u64) -> Token {
    tok(TokenKind::Open(Delimiter::Parenthesis), span)
}

fn close(span: u64) -> Token {
    tok(TokenKind::Close(Delimiter::Parenthesis), span)
}

fn obake_attr(tokens: Vec<Token>, span: u64) -> RawAttribute {
    RawAttribute { path: "obake".to_string(), parenthesized: true, tokens, span }
}

fn helper(name: &str, arg: &str, span: u64) -> RawAttribute {
    obake_attr(vec![ident(name, span), open(span), lit(arg, span + 1), close(span + 2)], span)
}

fn version(v: &str) -> RawAttribute {
    helper("version", v, 0)
}

fn cfg(r: &str) -> RawAttribute {
    helper("cfg", r, 0)
}

fn inherit(span: u64) -> RawAttribute {
    obake_attr(vec![ident("inherit", span)], span)
}

fn derive_payload(span: u64) -> RawAttribute {
    obake_attr(vec![ident("derive", span), open(span + 1), ident("Clone", span + 2), close(span + 3)], span)
}

fn path_ty(name: &str) -> FieldType {
    FieldType::Path { global: false, segments: vec![PathSegment { ident: name.to_string(), args: vec![] }] }
}

fn array_ty() -> FieldType {
    FieldType::Other(vec![
        tok(TokenKind::Open(Delimiter::Bracket), 0),
        ident("Foo", 0),
        tok(TokenKind::Punct(';'), 0),
        tok(TokenKind::Literal("3".to_string()), 0),
        tok(TokenKind::Close(Delimiter::Bracket), 0),
    ])
}

fn field(name: &str, ty: FieldType, attrs: Vec<RawAttribute>) -> RawField {
    RawField { attrs, vis: String::new(), ident: name.to_string(), ty }
}

fn item(name: &str, attrs: Vec<RawAttribute>, fields: Vec<RawField>) -> RawItem {
    RawItem { attrs, vis: "pub".to_string(), ident: name.to_string(), keyword_span: 7, body: RawBody::Struct(fields) }
}

fn enum_item(name: &str, attrs: Vec<RawAttribute>, variants: Vec<RawVariant>) -> RawItem {
    RawItem { attrs, vis: String::new(), ident: name.to_string(), keyword_span: 7, body: RawBody::Enum(variants) }
}

fn versions(vs: &[&str]) -> Vec<RawAttribute> {
    vs.iter().map(|v| version(v)).collect()
}

/// The names of the fields of a struct declaration.
fn present(item: &VersionedItem, d: &VersionDecl) -> Vec<String> {
    let fields = match &item.kind {
        VersionedItemKind::Struct(s) => &s.fields.fields,
        VersionedItemKind::Enum(_) => panic!("not a struct"),
    };
    match &d.body {
        DeclBody::Struct(ds) => ds.iter().map(|f| fields[f.index].ident.clone()).collect(),
        DeclBody::Enum(_) => panic!("not a struct"),
    }
}

fn expand_ok(raw: RawItem) -> (VersionedItem, Expansion) {
    versioned(raw).unwrap()
}

fn expand_err(raw: RawItem) -> Diagnostic {
    versioned(raw).unwrap_err()
}

fn decl<'a>(e: &'a Expansion, text: &str) -> &'a VersionDecl {
    e.decls.iter().find(|d| d.text == text).unwrap()
}

fn scenario() -> RawItem {
    item(
        "Foo",
        versions(&["0.1.0", "0.2.0", "0.3.0"]),
        vec![
            field("field_0", path_ty("u32"), vec![]),
            field("field_1", path_ty("String"), vec![cfg("0.2.0")]),
            field("field_2", path_ty("i64"), vec![cfg("0.1.0"), cfg("0.3.0")]),
        ],
    )
}

#[test]
fn end_to_end_declarations() {
    let (it, e) = expand_ok(scenario());
    assert_eq!(e.decls.len(), 3);
    assert_eq!(present(&it, decl(&e, "0.1.0")), vec!["field_0", "field_2"]);
    assert_eq!(present(&it, decl(&e, "0.2.0")), vec!["field_0", "field_1"]);
    assert_eq!(present(&it, decl(&e, "0.3.0")), vec!["field_0", "field_2"]);
    assert_eq!(e.union_ident, "VersionedFoo");
    assert_eq!(e.latest().ident, "Foo_v0_3_0");
}

#[test]
fn expansion_is_deterministic() {
    let (_, a) = expand_ok(scenario());
    let (_, b) = expand_ok(scenario());
    assert_eq!(format!("{:?}", a), format!("{:?}", b));
    let d1 = expand_err(item("Foo", vec![version("0.1.0"), version("0.1.0")], vec![]));
    let d2 = expand_err(item("Foo", vec![version("0.1.0"), version("0.1.0")], vec![]));
    assert_eq!(format!("{:?}", d1), format!("{:?}", d2));
}

#[test]
fn versions_sorted_and_tags_distinct() {
    let (_, e) = expand_ok(item("Foo", versions(&["1.0.0", "0.10.0", "0.2.0", "0.2.1"]), vec![]));
    let idents: Vec<&str> = e.decls.iter().map(|d| d.ident.as_str()).collect();
    assert_eq!(idents, vec!["Foo_v0_2_0", "Foo_v0_2_1", "Foo_v0_10_0", "Foo_v1_0_0"]);
    let texts: Vec<&str> = e.decls.iter().map(|d| d.text.as_str()).collect();
    assert_eq!(texts, vec!["0.2.0", "0.2.1", "0.10.0", "1.0.0"]);
    assert_eq!(e.latest().ident, "Foo_v1_0_0");
}

#[test]
fn tag_and_text_spelling() {
    let v = Version::new(10, 0, 345);
    assert_eq!(tag("Bar", &v), "Bar_v10_0_345");
    assert_eq!(v.text(), "10.0.345");
    assert_eq!(tag("Bar", &Version::new(1, 11, 1)), "Bar_v1_11_1");
    assert_ne!(tag("Bar", &Version::new(1, 11, 1)), tag("Bar", &Version::new(11, 1, 1)));
}

#[test]
fn duplicate_version_rejected_in_any_order() {
    let d = expand_err(item("Foo", vec![version("0.1.0"), helper("version", "0.2.0", 10), helper("version", "0.1.0", 20)], vec![]));
    assert_eq!(d.kind, DiagnosticKind::DuplicateVersion(Version::new(0, 1, 0)));
    assert_eq!(d.span, 21);
    let d = expand_err(item("Foo", vec![helper("version", "0.2.0", 10), version("0.1.0"), helper("version", "0.2.0", 20)], vec![]));
    assert_eq!(d.kind, DiagnosticKind::DuplicateVersion(Version::new(0, 2, 0)));
    assert_eq!(d.span, 21);
}

#[test]
fn field_without_constraint_everywhere() {
    let (it, e) = expand_ok(item("Foo", versions(&["0.1.0", "2.0.0"]), vec![field("a", path_ty("u8"), vec![])]));
    for d in &e.decls {
        assert_eq!(present(&it, d), vec!["a"]);
    }
}

#[test]
fn disjunction_of_constraints() {
    let raw = item(
        "Foo",
        versions(&["0.1.0", "0.2.0", "0.3.0", "0.4.0"]),
        vec![field("baz", path_ty("char"), vec![cfg("0.1.0"), cfg(">=0.3")])],
    );
    let (it, e) = expand_ok(raw);
    assert_eq!(present(&it, decl(&e, "0.1.0")), vec!["baz"]);
    assert!(present(&it, decl(&e, "0.2.0")).is_empty());
    assert_eq!(present(&it, decl(&e, "0.3.0")), vec!["baz"]);
    assert_eq!(present(&it, decl(&e, "0.4.0")), vec!["baz"]);
}

#[test]
fn conjunction_within_constraint() {
    let raw = item(
        "Foo",
        versions(&["0.1.0", "0.2.0", "0.3.0", "0.4.0"]),
        vec![field("bar", path_ty("u32"), vec![cfg(">=0.2, <=0.3.0")])],
    );
    let (it, e) = expand_ok(raw);
    assert!(present(&it, decl(&e, "0.1.0")).is_empty());
    assert_eq!(present(&it, decl(&e, "0.2.0")), vec!["bar"]);
    assert_eq!(present(&it, decl(&e, "0.3.0")), vec!["bar"]);
    assert!(present(&it, decl(&e, "0.4.0")).is_empty());
}

#[test]
fn empty_version_body_is_legal() {
    let raw = item(
        "Foo",
        versions(&["0.1.0", "0.2.0", "0.3.0"]),
        vec![field("a", path_ty("u8"), vec![cfg("0.1.0")]), field("b", path_ty("u8"), vec![cfg("0.3.0")])],
    );
    let (it, e) = expand_ok(raw);
    assert!(present(&it, decl(&e, "0.2.0")).is_empty());
    assert_eq!(present(&it, decl(&e, "0.1.0")), vec!["a"]);
    assert_eq!(present(&it, decl(&e, "0.3.0")), vec!["b"]);
}

#[test]
fn inherit_retargets_nested_type() {
    let raw = item(
        "Bar",
        versions(&["0.1.0", "0.2.0", "0.3.0"]),
        vec![field("field_0", path_ty("Foo"), vec![inherit(0), cfg(">=0.2")])],
    );
    let (_, e) = expand_ok(raw);
    let (_, foo) = expand_ok(scenario());
    match &decl(&e, "0.1.0").body {
        DeclBody::Struct(fs) => assert!(fs.is_empty()),
        _ => panic!(),
    }
    for text in ["0.2.0", "0.3.0"] {
        match &decl(&e, text).body {
            DeclBody::Struct(fs) => match &fs[0].ty {
                TypeDecl::Retagged(t) => assert_eq!(t, &decl(&foo, text).ident),
                TypeDecl::Unchanged => panic!(),
            },
            _ => panic!(),
        }
    }
    assert_eq!(e.lookup("0.2.0").map(|s| s.as_str()), Some("Bar_v0_2_0"));
    assert!(e.lookup("0.4.0").is_none());
}

#[test]
fn enum_variants_filtered() {
    let y_fields = vec![field("foo", path_ty("Foo"), vec![inherit(0), cfg(">=0.2")])];
    let raw = enum_item(
        "Baz",
        versions(&["0.1.0", "0.2.0", "0.3.0"]),
        vec![
            RawVariant {
                attrs: vec![cfg("<0.3")],
                ident: "X".to_string(),
                fields: RawVariantFields::Unnamed(vec![open(0), ident("String", 0), close(0)]),
            },
            RawVariant { attrs: vec![cfg(">=0.2")], ident: "Y".to_string(), fields: RawVariantFields::Named(y_fields) },
            RawVariant { attrs: vec![], ident: "Z".to_string(), fields: RawVariantFields::Unit },
        ],
    );
    let (_, e) = expand_ok(raw);
    let shapes = |text: &str| -> Vec<usize> {
        match &decl(&e, text).body {
            DeclBody::Enum(vs) => vs.iter().map(|v| v.index).collect(),
            _ => panic!(),
        }
    };
    assert_eq!(shapes("0.1.0"), vec![0, 2]);
    assert_eq!(shapes("0.2.0"), vec![0, 1, 2]);
    assert_eq!(shapes("0.3.0"), vec![1, 2]);
    match &decl(&e, "0.3.0").body {
        DeclBody::Enum(vs) => match &vs[0].shape {
            VariantShape::Named(fs) => match &fs[0].ty {
                TypeDecl::Retagged(t) => assert_eq!(t, "Foo_v0_3_0"),
                TypeDecl::Unchanged => panic!(),
            },
            VariantShape::Verbatim => panic!(),
        },
        _ => panic!(),
    }
}

#[test]
fn pass_through_attribute_kept() {
    let other = RawAttribute { path: "serde".to_string(), parenthesized: true, tokens: vec![ident("default", 3)], span: 3 };
    let (it, _) = expand_ok(item("Foo", vec![version("0.1.0"), other], vec![]));
    assert_eq!(it.attrs.attrs.len(), 2);
}

#[test]
fn missing_versions_rejected() {
    let d = expand_err(item("Foo", vec![], vec![]));
    assert_eq!(d.kind, DiagnosticKind::MissingVersions);
    assert_eq!(d.span, 7);
}

#[test]
fn item_level_inherit_rejected() {
    let d = expand_err(item("Foo", vec![version("0.1.0"), inherit(5)], vec![]));
    assert_eq!(d.kind, DiagnosticKind::MisplacedInherit);
    assert_eq!(d.span, 5);
}

#[test]
fn item_level_cfg_rejected() {
    let d = expand_err(item("Foo", vec![version("0.1.0"), helper("cfg", "0.1.0", 8)], vec![]));
    assert_eq!(d.kind, DiagnosticKind::MisplacedCfg);
    assert_eq!(d.span, 9);
}

#[test]
fn field_derive_rejected() {
    let d = expand_err(item("Foo", versions(&["0.1.0"]), vec![field("a", path_ty("u32"), vec![derive_payload(4)])]));
    assert_eq!(d.kind, DiagnosticKind::MisplacedDerive);
    assert_eq!(d.span, 4);
}

#[test]
fn variant_inherit_and_derive_rejected() {
    let unit = |attrs: Vec<RawAttribute>| RawVariant { attrs, ident: "X".to_string(), fields: RawVariantFields::Unit };
    let d = expand_err(enum_item("Baz", versions(&["0.1.0"]), vec![unit(vec![inherit(6)])]));
    assert_eq!(d.kind, DiagnosticKind::MisplacedInherit);
    assert_eq!(d.span, 6);
    let d = expand_err(enum_item("Baz", versions(&["0.1.0"]), vec![unit(vec![derive_payload(9)])]));
    assert_eq!(d.kind, DiagnosticKind::MisplacedDerive);
    assert_eq!(d.span, 9);
}

#[test]
fn inherit_on_array_rejected() {
    let d = expand_err(item("Bar", versions(&["0.1.0"]), vec![field("f", array_ty(), vec![inherit(11)])]));
    assert_eq!(d.kind, DiagnosticKind::InvalidInheritTarget);
    assert_eq!(d.span, 11);
}

#[test]
fn item_derive_payload_kept() {
    let (it, _) = expand_ok(item("Foo", vec![version("0.1.0"), derive_payload(2)], vec![]));
    match &it.attrs.attrs[1] {
        obake::item::VersionedAttribute::Obake(obake::item::ObakeAttribute::Derive(d)) => {
            assert_eq!(d.tokens.len(), 1);
            assert_eq!(d.span, 2);
        },
        _ => panic!(),
    }
}
