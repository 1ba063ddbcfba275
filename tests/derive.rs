use obake::item::{RawAttribute, RawBody, RawItem};
use obake::synth::versioned;
use obake::tokens::{Delimiter, Token, TokenKind};

fn token(kind: TokenKind) -> Token {
    Token { kind, span: 0 }
}

fn attr(path: &str, tokens: Vec<Token>) -> RawAttribute {
    RawAttribute { path: path.to_string(), parenthesized: true, tokens, span: 0 }
}

/// `#[obake(version("0.1.0"))] #[derive(PartialEq, Eq, Debug)] struct Foo {}`
fn foo() -> RawItem {
    let version = attr(
        "obake",
        vec![
            token(TokenKind::Ident("version".to_string())),
            token(TokenKind::Open(Delimiter::Parenthesis)),
            token(TokenKind::Str("0.1.0".to_string())),
            token(TokenKind::Close(Delimiter::Parenthesis)),
        ],
    );
    let derive = attr(
        "derive",
        vec![
            token(TokenKind::Ident("PartialEq".to_string())),
            token(TokenKind::Punct(',')),
            token(TokenKind::Ident("Eq".to_string())),
            token(TokenKind::Punct(',')),
            token(TokenKind::Ident("Debug".to_string())),
        ],
    );
    RawItem {
        attrs: vec![version, derive],
        vis: String::new(),
        ident: "Foo".to_string(),
        keyword_span: 0,
        body: RawBody::Struct(vec![]),
    }
}

// What the expansion of `foo()` declares.
#[allow(non_camel_case_types)]
#[derive(PartialEq, Eq, Debug)]
struct Foo_v0_1_0 {}

type Foo = Foo_v0_1_0;

impl Foo {
    fn foo(&self) -> u32 {
        42
    }
}

#[test]
fn foo_alias_created() {
    let (_, e) = versioned(foo()).unwrap();
    assert_eq!(e.ident, "Foo");
    assert_eq!(e.decls.len(), 1);
    assert_eq!(e.latest().ident, "Foo_v0_1_0");
    let x: Foo = Foo {};
    assert_eq!(x, Foo {});
}

#[test]
fn foo_method_visible() {
    let (_, e) = versioned(foo()).unwrap();
    assert_eq!(e.latest().ident, "Foo_v0_1_0");
    assert_eq!(e.lookup("0.1.0").map(|s| s.as_str()), Some("Foo_v0_1_0"));
    let x: Foo = Foo {};
    assert_eq!(x.foo(), 42);
}
