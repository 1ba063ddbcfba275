use obake::diagnostic::DiagnosticKind;
use obake::item::{RawAttribute, RawBody, RawItem};
use obake::synth::versioned;
use obake::tokens::{Delimiter, Token, TokenKind};

fn tok(kind: TokenKind, span: u64) -> Token {
    Token { kind, span }
}

fn ident(s: &str, span: u64) -> Token {
    tok(TokenKind::Ident(s.to_string()), span)
}

fn lit(s: &str, span: u64) -> Token {
    tok(TokenKind::Str(s.to_string()), span)
}

fn open(span: u64) -> Token {
    tok(TokenKind::Open(Delimiter::Parenthesis), span)
}

fn close(span: u64) -> Token {
    tok(TokenKind::Close(Delimiter::Parenthesis), span)
}

fn with_attr(a: RawAttribute) -> RawItem {
    RawItem { attrs: vec![a], vis: String::new(), ident: "Foo".to_string(), keyword_span: 0, body: RawBody::Struct(vec![]) }
}

fn obake(tokens: Vec<Token>) -> RawAttribute {
    RawAttribute { path: "obake".to_string(), parenthesized: true, tokens, span: 100 }
}

fn kind_and_span(a: RawAttribute) -> (DiagnosticKind, u64, String) {
    let d = versioned(with_attr(a)).unwrap_err();
    (d.kind, d.span, d.detail)
}

#[test]
fn version_with_extra_argument() {
    let a = obake(vec![ident("version", 1), open(2), lit("0.1.0", 3), tok(TokenKind::Punct(','), 4), ident("extra_nonsense", 5), close(6)]);
    assert_eq!(kind_and_span(a), (DiagnosticKind::UnexpectedToken, 4, String::new()));
}

#[test]
fn inherit_with_extra_argument() {
    let a = obake(vec![ident("inherit", 1), tok(TokenKind::Punct(','), 2), ident("extra_nonsense", 3)]);
    assert_eq!(kind_and_span(a), (DiagnosticKind::UnexpectedToken, 2, String::new()));
}

#[test]
fn trailing_helper_after_argument() {
    let a = obake(vec![ident("cfg", 1), open(2), lit("*", 3), close(4), tok(TokenKind::Punct(','), 5), ident("extra_nonsense", 6)]);
    assert_eq!(kind_and_span(a), (DiagnosticKind::UnexpectedToken, 5, String::new()));
}

#[test]
fn unknown_helper() {
    let a = obake(vec![ident("not_an_obake_helper", 1)]);
    assert_eq!(kind_and_span(a), (DiagnosticKind::UnknownHelper, 1, String::new()));
}

#[test]
fn version_not_a_string() {
    let a = obake(vec![ident("version", 1), open(2), ident("not_a_sem_str", 3), close(4)]);
    assert_eq!(kind_and_span(a), (DiagnosticKind::ExpectedStringLiteral, 3, String::new()));
}

#[test]
fn version_not_semver() {
    let a = obake(vec![ident("version", 1), open(2), lit("not a semver", 3), close(4)]);
    let (kind, span, detail) = kind_and_span(a);
    assert_eq!((kind, span), (DiagnosticKind::MalformedVersion, 3));
    assert!(!detail.is_empty());
}

#[test]
fn version_with_metadata() {
    let a = obake(vec![ident("version", 1), open(2), lit("1.0.0-alpha", 3), close(4)]);
    assert_eq!(kind_and_span(a), (DiagnosticKind::VersionMetadata, 3, String::new()));
}

#[test]
fn range_not_semver() {
    let a = obake(vec![ident("cfg", 1), open(2), lit("not a semver constraint", 3), close(4)]);
    let (kind, span, detail) = kind_and_span(a);
    assert_eq!((kind, span), (DiagnosticKind::MalformedRange, 3));
    assert!(!detail.is_empty());
}

#[test]
fn helper_without_arguments() {
    let a = obake(vec![ident("version", 1)]);
    assert_eq!(kind_and_span(a), (DiagnosticKind::ExpectedArguments, 100, String::new()));
    let bare = RawAttribute { path: "obake".to_string(), parenthesized: false, tokens: vec![], span: 9 };
    assert_eq!(kind_and_span(bare), (DiagnosticKind::ExpectedArguments, 9, String::new()));
}

#[test]
fn helper_name_missing() {
    assert_eq!(kind_and_span(obake(vec![])), (DiagnosticKind::ExpectedHelper, 100, String::new()));
    let a = obake(vec![lit("version", 1)]);
    assert_eq!(kind_and_span(a), (DiagnosticKind::ExpectedHelper, 1, String::new()));
}

#[test]
fn derive_with_trailing_tokens() {
    let a = obake(vec![ident("derive", 1), open(2), ident("Clone", 3), close(4), ident("x", 5)]);
    assert_eq!(kind_and_span(a), (DiagnosticKind::UnexpectedToken, 5, String::new()));
}

#[test]
fn other_paths_pass_through() {
    let a = RawAttribute { path: "obake2".to_string(), parenthesized: false, tokens: vec![ident("zzz", 1)], span: 0 };
    let d = versioned(with_attr(a)).unwrap_err();
    assert_eq!(d.kind, DiagnosticKind::MissingVersions);
}

#[test]
fn version_literal_parsed_by_oracle() {
    let v = obake::attrs::parse_version_literal("1.20.3", 0).unwrap();
    assert_eq!(v, obake::version::Version::new(1, 20, 3));
    let d = obake::attrs::parse_version_literal("1.2", 5).unwrap_err();
    assert_eq!(d.kind, DiagnosticKind::MalformedVersion);
    assert_eq!(d.span, 5);
    assert!(d.message().starts_with("invalid version: "));
    assert!(d.message().len() > "invalid version: ".len());
}

#[test]
fn duplicate_message_names_version() {
    let a = obake(vec![ident("version", 1), open(2), lit("0.1.0", 3), close(4)]);
    let b = obake(vec![ident("version", 5), open(6), lit("0.1.0", 7), close(8)]);
    let raw = RawItem { attrs: vec![a, b], vis: String::new(), ident: "Foo".to_string(), keyword_span: 0, body: RawBody::Struct(vec![]) };
    let d = versioned(raw).unwrap_err();
    assert_eq!(d.span, 7);
    assert_eq!(d.message(), "duplicate definition of version 0.1.0");
}

#[test]
fn unknown_helper_message() {
    let d = versioned(with_attr(obake(vec![ident("serde", 1)]))).unwrap_err();
    assert_eq!(d.message(), "unrecognised `obake` helper attribute");
}
