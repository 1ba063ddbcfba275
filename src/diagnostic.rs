//! Diagnostics for malformed annotated declarations.

use vstd::prelude::*;
use crate::version::{version_text, Version};

verus! {

/// The kinds of malformed input the engine rejects.
#[derive(Clone, Copy, Debug, PartialEq, Eq, Structural)]
pub enum DiagnosticKind {
    /// A framework annotation without a parenthesized argument list, or a
    /// helper that needs one and has none.
    ExpectedArguments,
    /// Nothing, or something other than a name, where a helper name belongs.
    ExpectedHelper,
    /// A framework annotation whose helper name is not recognized.
    UnknownHelper,
    /// A helper argument that is not a string literal.
    ExpectedStringLiteral,
    /// Tokens after the recognized argument of a helper.
    UnexpectedToken,
    /// A version literal that is not a semantic version; the detail holds
    /// the reason.
    MalformedVersion,
    /// A version literal with pre-release or build metadata.
    VersionMetadata,
    /// A constraint literal that is not a version range; the detail holds
    /// the reason.
    MalformedRange,
    /// `inherit` on the item itself or on a variant.
    MisplacedInherit,
    /// `cfg` on the item itself.
    MisplacedCfg,
    /// `derive` on a field or a variant.
    MisplacedDerive,
    /// An item without any version declaration.
    MissingVersions,
    /// A version declared a second time.
    DuplicateVersion(Version),
    /// `inherit` on a field whose type is not a plain type path.
    InvalidInheritTarget,
}

/// A diagnostic: what is wrong, where, and any detail from the version oracle.
#[derive(Debug)]
pub struct Diagnostic {
    pub kind: DiagnosticKind,
    pub span: u64,
    pub detail: String,
}

/// The mathematical value of a diagnostic.
pub struct DiagnosticView {
    pub kind: DiagnosticKind,
    pub span: u64,
    pub detail: Seq<char>,
}

impl View for Diagnostic {
    type V = DiagnosticView;

    open spec fn view(&self) -> DiagnosticView {
        DiagnosticView { kind: self.kind, span: self.span, detail: self.detail@ }
    }
}

/// A diagnostic without detail.
pub open spec fn plain(kind: DiagnosticKind, span: u64) -> DiagnosticView {
    DiagnosticView { kind, span, detail: Seq::empty() }
}

impl Diagnostic {
    /// A diagnostic of `kind` at `span` without detail.
    pub fn new(kind: DiagnosticKind, span: u64) -> (r: Diagnostic)
        ensures
            r@ == plain(kind, span),
    {
        Diagnostic { kind, span, detail: String::new() }
    }
}


/// The fixed part of the message of a diagnostic kind.
pub open spec fn headline(kind: DiagnosticKind) -> Seq<char> {
    match kind {
        DiagnosticKind::ExpectedArguments => "expected parenthesized arguments"@,
        DiagnosticKind::ExpectedHelper => "expected an `obake` helper name"@,
        DiagnosticKind::UnknownHelper => "unrecognised `obake` helper attribute"@,
        DiagnosticKind::ExpectedStringLiteral => "expected string literal"@,
        DiagnosticKind::UnexpectedToken => "unexpected token"@,
        DiagnosticKind::MalformedVersion => "invalid version: "@,
        DiagnosticKind::VersionMetadata => "pre-release and build metadata are not supported in versions"@,
        DiagnosticKind::MalformedRange => "invalid version constraint: "@,
        DiagnosticKind::MisplacedInherit => "`#[obake(inherit)]` not valid in this context"@,
        DiagnosticKind::MisplacedCfg => "`#[obake(cfg(...))]` not valid in this context"@,
        DiagnosticKind::MisplacedDerive => "`#[obake(derive(...))]` not valid in this context"@,
        DiagnosticKind::MissingVersions => "`#[obake::versioned]` items require at least one `#[obake(version(...))]` attribute"@,
        DiagnosticKind::DuplicateVersion(_) => "duplicate definition of version "@,
        DiagnosticKind::InvalidInheritTarget => "`#[obake(inherit)]` can only be applied to fields with `#[obake::versioned]` types"@,
    }
}

/// The message of a diagnostic: the headline, then the duplicated
/// version's text or the oracle's detail.
pub open spec fn message_text(d: DiagnosticView) -> Seq<char> {
    match d.kind {
        DiagnosticKind::DuplicateVersion(v) => headline(d.kind) + version_text(v),
        _ => headline(d.kind) + d.detail,
    }
}

impl Diagnostic {
    /// The human-readable message of this diagnostic.
    pub fn message(&self) -> (r: String)
        ensures
            r@ == message_text(self@),
    {
        let head: &str = match self.kind {
            DiagnosticKind::ExpectedArguments => "expected parenthesized arguments",
            DiagnosticKind::ExpectedHelper => "expected an `obake` helper name",
            DiagnosticKind::UnknownHelper => "unrecognised `obake` helper attribute",
            DiagnosticKind::ExpectedStringLiteral => "expected string literal",
            DiagnosticKind::UnexpectedToken => "unexpected token",
            DiagnosticKind::MalformedVersion => "invalid version: ",
            DiagnosticKind::VersionMetadata => "pre-release and build metadata are not supported in versions",
            DiagnosticKind::MalformedRange => "invalid version constraint: ",
            DiagnosticKind::MisplacedInherit => "`#[obake(inherit)]` not valid in this context",
            DiagnosticKind::MisplacedCfg => "`#[obake(cfg(...))]` not valid in this context",
            DiagnosticKind::MisplacedDerive => "`#[obake(derive(...))]` not valid in this context",
            DiagnosticKind::MissingVersions => "`#[obake::versioned]` items require at least one `#[obake(version(...))]` attribute",
            DiagnosticKind::DuplicateVersion(_) => "duplicate definition of version ",
            DiagnosticKind::InvalidInheritTarget => "`#[obake(inherit)]` can only be applied to fields with `#[obake::versioned]` types",
        };
        let mut s = String::from_str(head);
        match self.kind {
            DiagnosticKind::DuplicateVersion(v) => {
                let t = v.text();
                s.append(t.as_str());
            },
            _ => {
                s.append(self.detail.as_str());
            },
        }
        s
    }
}

} // verus!
