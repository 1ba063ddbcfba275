//! The annotation grammar: classifying each attribute of an item, field or
//! variant as a version declaration, a constraint, an inheritance marker, a
//! derive payload, or an attribute outside the framework.

use vstd::prelude::*;
use crate::diagnostic::{plain, Diagnostic, DiagnosticKind, DiagnosticView};
use crate::item::{
    AttributeView, CfgAttr, DeriveAttr, InheritAttr, ObakeAttribute, ObakeAttributeView, RawAttribute,
    VersionAttr, VersionedAttribute, VersionedAttributes,
};
use crate::oracle::{range_parse_error, semver_parse, semver_range, semver_version};
use crate::tokens::{close_from, find_close, Delimiter, Token, TokenKind};
use crate::version::Version;

verus! {

/// The path that marks an attribute as one of the framework's.
pub const FRAMEWORK_PATH: &'static str = "obake";

/// `r` is the outcome that `s` describes: the same value, or the same
/// diagnostic.
pub open spec fn agrees<T: View>(r: Result<T, Diagnostic>, s: Result<T::V, DiagnosticView>) -> bool {
    match r {
        Ok(x) => s == Ok::<T::V, DiagnosticView>(x@),
        Err(d) => s == Err::<T::V, DiagnosticView>(d@),
    }
}

/// The version a version literal denotes, or why it denotes none.
pub open spec fn version_literal(text: Seq<char>, span: u64) -> Result<Version, DiagnosticView> {
    match semver_parse(text) {
        Err(m) => Err(DiagnosticView { kind: DiagnosticKind::MalformedVersion, span, detail: m }),
        Ok(p) => if p.3.len() == 0 && p.4.len() == 0 {
            Ok(Version { major: p.0, minor: p.1, patch: p.2 })
        } else {
            Err(plain(DiagnosticKind::VersionMetadata, span))
        },
    }
}

/// Parses a version literal such as `"0.1.0"`.
pub fn parse_version_literal(text: &str, span: u64) -> (r: Result<Version, Diagnostic>)
    ensures
        match r {
            Ok(v) => version_literal(text@, span) == Ok::<Version, DiagnosticView>(v),
            Err(d) => version_literal(text@, span) == Err::<Version, DiagnosticView>(d@),
        },
{
    match semver_version(text) {
        Err(m) => Err(Diagnostic { kind: DiagnosticKind::MalformedVersion, span, detail: m }),
        Ok((major, minor, patch, pre, build)) => {
            if pre.as_str().is_empty() && build.as_str().is_empty() {
                Ok(Version { major, minor, patch })
            } else {
                Err(Diagnostic::new(DiagnosticKind::VersionMetadata, span))
            }
        },
    }
}

/// The one string-literal argument of a helper, as in `version("0.1.0")`:
/// the literal and its span. `t[0]` is the helper's name.
pub open spec fn string_argument(t: Seq<Token>, span: u64) -> Result<(Seq<char>, u64), DiagnosticView> {
    if t.len() < 2 {
        Err(plain(DiagnosticKind::ExpectedArguments, span))
    } else if !(t[1].kind matches TokenKind::Open(Delimiter::Parenthesis)) {
        Err(plain(DiagnosticKind::ExpectedArguments, t[1].span))
    } else if t.len() < 3 {
        Err(plain(DiagnosticKind::ExpectedStringLiteral, span))
    } else {
        match t[2].kind {
            TokenKind::Str(s) => if t.len() < 4 {
                Err(plain(DiagnosticKind::ExpectedArguments, span))
            } else if !(t[3].kind matches TokenKind::Close(_)) {
                Err(plain(DiagnosticKind::UnexpectedToken, t[3].span))
            } else if t.len() > 4 {
                Err(plain(DiagnosticKind::UnexpectedToken, t[4].span))
            } else {
                Ok((s@, t[2].span))
            },
            _ => Err(plain(DiagnosticKind::ExpectedStringLiteral, t[2].span)),
        }
    }
}

/// The payload of `derive(...)`: the tokens inside the parentheses, which
/// must close at the end. `t[0]` is the helper's name.
pub open spec fn derive_argument(t: Seq<Token>, span: u64) -> Result<Seq<Token>, DiagnosticView> {
    if t.len() < 2 {
        Err(plain(DiagnosticKind::ExpectedArguments, span))
    } else if !(t[1].kind matches TokenKind::Open(Delimiter::Parenthesis)) {
        Err(plain(DiagnosticKind::ExpectedArguments, t[1].span))
    } else {
        match close_from(t, 2, 1) {
            None => Err(plain(DiagnosticKind::ExpectedArguments, span)),
            Some(m) => if m + 1 < t.len() {
                Err(plain(DiagnosticKind::UnexpectedToken, t[m + 1].span))
            } else {
                Ok(t.subrange(2, m))
            },
        }
    }
}

/// What a framework attribute says.
pub open spec fn obake_attribute(a: RawAttribute) -> Result<ObakeAttributeView, DiagnosticView> {
    let t = a.tokens@;
    if !a.parenthesized {
        Err(plain(DiagnosticKind::ExpectedArguments, a.span))
    } else if t.len() == 0 {
        Err(plain(DiagnosticKind::ExpectedHelper, a.span))
    } else {
        match t[0].kind {
            TokenKind::Ident(name) => if name@ == "version"@ {
                match string_argument(t, a.span) {
                    Err(e) => Err(e),
                    Ok(arg) => match version_literal(arg.0, arg.1) {
                        Err(e) => Err(e),
                        Ok(v) => Ok(ObakeAttributeView::Version(VersionAttr { version: v, span: arg.1 })),
                    },
                }
            } else if name@ == "cfg"@ {
                match string_argument(t, a.span) {
                    Err(e) => Err(e),
                    Ok(arg) => match range_parse_error(arg.0) {
                        Some(m) => Err(DiagnosticView { kind: DiagnosticKind::MalformedRange, span: arg.1, detail: m }),
                        None => Ok(ObakeAttributeView::Cfg(arg.0, arg.1)),
                    },
                }
            } else if name@ == "inherit"@ {
                if t.len() == 1 {
                    Ok(ObakeAttributeView::Inherit(t[0].span))
                } else {
                    Err(plain(DiagnosticKind::UnexpectedToken, t[1].span))
                }
            } else if name@ == "derive"@ {
                match derive_argument(t, a.span) {
                    Err(e) => Err(e),
                    Ok(p) => Ok(ObakeAttributeView::Derive(p, t[0].span)),
                }
            } else {
                Err(plain(DiagnosticKind::UnknownHelper, t[0].span))
            },
            _ => Err(plain(DiagnosticKind::ExpectedHelper, t[0].span)),
        }
    }
}

/// How one attribute is classified.
pub open spec fn classify(a: RawAttribute) -> Result<AttributeView, DiagnosticView> {
    if a.path@ == FRAMEWORK_PATH@ {
        match obake_attribute(a) {
            Err(e) => Err(e),
            Ok(o) => Ok(AttributeView::Obake(o)),
        }
    } else {
        Ok(AttributeView::Attribute(a))
    }
}

/// Applies `f` to each element in order, stopping at the first failure.
pub open spec fn collect<A, B>(s: Seq<A>, f: spec_fn(A) -> Result<B, DiagnosticView>) -> Result<Seq<B>, DiagnosticView>
    decreases s.len(),
{
    if s.len() == 0 {
        Ok(Seq::empty())
    } else {
        match collect(s.drop_last(), f) {
            Err(e) => Err(e),
            Ok(p) => match f(s.last()) {
                Err(e) => Err(e),
                Ok(x) => Ok(p.push(x)),
            },
        }
    }
}

/// Once a prefix fails, the whole sequence fails the same way.
pub proof fn lemma_collect_prefix_error<A, B>(s: Seq<A>, f: spec_fn(A) -> Result<B, DiagnosticView>, i: int)
    requires
        0 <= i <= s.len(),
        collect(s.take(i), f) is Err,
    ensures
        collect(s, f) == collect(s.take(i), f),
    decreases s.len() - i,
{
    if i < s.len() {
        assert(s.take(i + 1).drop_last() =~= s.take(i));
        lemma_collect_prefix_error(s, f, i + 1);
    } else {
        assert(s.take(i) =~= s);
    }
}

/// One step of `collect` over a growing prefix.
pub proof fn lemma_collect_step<A, B>(s: Seq<A>, f: spec_fn(A) -> Result<B, DiagnosticView>, i: int)
    requires
        0 <= i < s.len(),
    ensures
        collect(s.take(i + 1), f) == (match collect(s.take(i), f) {
            Err(e) => Err(e),
            Ok(p) => match f(s[i]) {
                Err(e) => Err(e),
                Ok(x) => Ok(p.push(x)),
            },
        }),
{
    assert(s.take(i + 1).drop_last() =~= s.take(i));
    assert(s.take(i + 1).last() == s[i]);
}

/// How a list of attributes is classified: element by element, stopping at
/// the first that fails.
pub open spec fn classify_all(s: Seq<RawAttribute>) -> Result<Seq<AttributeView>, DiagnosticView> {
    collect(s, |a: RawAttribute| classify(a))
}

fn is_word(s: &String, w: &str) -> (r: bool)
    ensures
        r == (s@ == w@),
{
    *s == String::from_str(w)
}

fn string_arg(t: &Vec<Token>, span: u64) -> (r: Result<(&String, u64), Diagnostic>)
    ensures
        match r {
            Ok(p) => string_argument(t@, span) == Ok::<_, DiagnosticView>((p.0@, p.1)),
            Err(d) => string_argument(t@, span) == Err::<(Seq<char>, u64), _>(d@),
        },
{
    if t.len() < 2 {
        return Err(Diagnostic::new(DiagnosticKind::ExpectedArguments, span));
    }
    match &t[1].kind {
        TokenKind::Open(Delimiter::Parenthesis) => {},
        _ => return Err(Diagnostic::new(DiagnosticKind::ExpectedArguments, t[1].span)),
    }
    if t.len() < 3 {
        return Err(Diagnostic::new(DiagnosticKind::ExpectedStringLiteral, span));
    }
    match &t[2].kind {
        TokenKind::Str(s) => {
            if t.len() < 4 {
                return Err(Diagnostic::new(DiagnosticKind::ExpectedArguments, span));
            }
            match &t[3].kind {
                TokenKind::Close(_) => {},
                _ => return Err(Diagnostic::new(DiagnosticKind::UnexpectedToken, t[3].span)),
            }
            if t.len() > 4 {
                return Err(Diagnostic::new(DiagnosticKind::UnexpectedToken, t[4].span));
            }
            Ok((s, t[2].span))
        },
        _ => Err(Diagnostic::new(DiagnosticKind::ExpectedStringLiteral, t[2].span)),
    }
}

fn derive_arg(t: &Vec<Token>, span: u64) -> (r: Result<Vec<Token>, Diagnostic>)
    ensures
        match r {
            Ok(p) => derive_argument(t@, span) == Ok::<_, DiagnosticView>(p@),
            Err(d) => derive_argument(t@, span) == Err::<Seq<Token>, _>(d@),
        },
{
    if t.len() < 2 {
        return Err(Diagnostic::new(DiagnosticKind::ExpectedArguments, span));
    }
    match &t[1].kind {
        TokenKind::Open(Delimiter::Parenthesis) => {},
        _ => return Err(Diagnostic::new(DiagnosticKind::ExpectedArguments, t[1].span)),
    }
    match find_close(t, 2) {
        None => Err(Diagnostic::new(DiagnosticKind::ExpectedArguments, span)),
        Some(m) => {
            if m + 1 < t.len() {
                return Err(Diagnostic::new(DiagnosticKind::UnexpectedToken, t[m + 1].span));
            }
            let mut out: Vec<Token> = Vec::new();
            let mut i: usize = 2;
            while i < m
                invariant
                    2 <= i <= m < t.len(),
                    out@ == t@.subrange(2, i as int),
                decreases m - i,
            {
                out.push(t[i].duplicate());
                assert(t@.subrange(2, i as int + 1) =~= t@.subrange(2, i as int).push(t@[i as int]));
                i = i + 1;
            }
            Ok(out)
        },
    }
}

impl ObakeAttribute {
    /// Parses a framework attribute `#[obake(...)]`.
    pub fn parse(a: &RawAttribute) -> (r: Result<ObakeAttribute, Diagnostic>)
        ensures
            agrees(r, obake_attribute(*a)),
    {
        if !a.parenthesized {
            return Err(Diagnostic::new(DiagnosticKind::ExpectedArguments, a.span));
        }
        let t = &a.tokens;
        if t.len() == 0 {
            return Err(Diagnostic::new(DiagnosticKind::ExpectedHelper, a.span));
        }
        let name = match &t[0].kind {
            TokenKind::Ident(n) => n,
            _ => return Err(Diagnostic::new(DiagnosticKind::ExpectedHelper, t[0].span)),
        };
        if is_word(name, "version") {
            let (lit, span) = string_arg(t, a.span)?;
            let version = parse_version_literal(lit.as_str(), span)?;
            Ok(ObakeAttribute::Version(VersionAttr { version, span }))
        } else if is_word(name, "cfg") {
            let (lit, span) = string_arg(t, a.span)?;
            match semver_range(lit.as_str()) {
                Err(m) => Err(Diagnostic { kind: DiagnosticKind::MalformedRange, span, detail: m }),
                Ok(req) => Ok(ObakeAttribute::Cfg(CfgAttr { req, span })),
            }
        } else if is_word(name, "inherit") {
            if t.len() == 1 {
                Ok(ObakeAttribute::Inherit(InheritAttr { span: t[0].span }))
            } else {
                Err(Diagnostic::new(DiagnosticKind::UnexpectedToken, t[1].span))
            }
        } else if is_word(name, "derive") {
            let tokens = derive_arg(t, a.span)?;
            Ok(ObakeAttribute::Derive(DeriveAttr { tokens, span: t[0].span }))
        } else {
            Err(Diagnostic::new(DiagnosticKind::UnknownHelper, t[0].span))
        }
    }
}

impl VersionedAttribute {
    /// Classifies one attribute: framework attributes are parsed, all others
    /// are kept as written.
    pub fn parse(a: RawAttribute) -> (r: Result<VersionedAttribute, Diagnostic>)
        ensures
            agrees(r, classify(a)),
    {
        if is_word(&a.path, FRAMEWORK_PATH) {
            let o = ObakeAttribute::parse(&a)?;
            Ok(VersionedAttribute::Obake(o))
        } else {
            Ok(VersionedAttribute::Attribute(a))
        }
    }
}

impl VersionedAttributes {
    /// Classifies a list of attributes, stopping at the first malformed one.
    pub fn parse(attrs: Vec<RawAttribute>) -> (r: Result<VersionedAttributes, Diagnostic>)
        ensures
            agrees(r, classify_all(attrs@)),
    {
        let ghost all = attrs@;
        let mut rest = attrs;
        let mut out: Vec<VersionedAttribute> = Vec::new();
        let mut failed: Option<Diagnostic> = None;
        let mut i: usize = 0;
        let n = rest.len();
        assert(all.take(0) =~= Seq::<RawAttribute>::empty());
        assert(out@.map_values(|a: VersionedAttribute| a@) =~= Seq::<AttributeView>::empty());
        while i < n && failed.is_none()
            invariant
                n == all.len(),
                i <= n,
                rest@ == all.subrange(i as int, n as int),
                failed is None ==> classify_all(all.take(i as int)) == Ok::<_, DiagnosticView>(
                    out@.map_values(|a: VersionedAttribute| a@),
                ),
                failed matches Some(d) ==> classify_all(all) == Err::<Seq<AttributeView>, DiagnosticView>(d@),
            decreases n - i,
        {
            let a = rest.remove(0);
            proof {
                lemma_collect_step(all, |a: RawAttribute| classify(a), i as int);
            }
            assert(rest@ =~= all.subrange(i as int + 1, n as int));
            match VersionedAttribute::parse(a) {
                Ok(c) => {
                    let ghost before = out@;
                    out.push(c);
                    assert(out@.map_values(|a: VersionedAttribute| a@) =~= before.map_values(
                        |a: VersionedAttribute| a@,
                    ).push(c@));
                },
                Err(d) => {
                    proof {
                        lemma_collect_prefix_error(all, |a: RawAttribute| classify(a), i as int + 1);
                    }
                    failed = Some(d);
                },
            }
            i = i + 1;
        }
        match failed {
            Some(d) => Err(d),
            None => {
                assert(all.take(n as int) =~= all);
                Ok(VersionedAttributes { attrs: out })
            },
        }
    }
}

} // verus!
