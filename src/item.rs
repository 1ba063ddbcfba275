//! The annotated declaration: first as the host parser hands it over, with
//! raw attributes, then with every attribute classified.

use vstd::prelude::*;
use crate::oracle::Constraint;
use crate::tokens::Token;
use crate::version::Version;

verus! {

// ----- as handed over by the host parser -----

/// An attribute as written: its path (`obake`, `derive`, `serde`, ...), and
/// the tokens after it. `parenthesized` says whether those tokens are the
/// contents of one parenthesized group directly after the path, as in
/// `#[obake(version("0.1.0"))]`.
#[derive(Debug)]
pub struct RawAttribute {
    pub path: String,
    pub parenthesized: bool,
    pub tokens: Vec<Token>,
    pub span: u64,
}

/// One segment of a type path, with its generic arguments as tokens.
#[derive(Debug)]
pub struct PathSegment {
    pub ident: String,
    pub args: Vec<Token>,
}

/// The declared type of a field.
#[derive(Debug)]
pub enum FieldType {
    /// A type path such as `a::b::Foo<T>`; `global` for a leading `::`.
    Path { global: bool, segments: Vec<PathSegment> },
    /// Any other type (array, tuple, reference, ...), as tokens.
    Other(Vec<Token>),
}

#[derive(Debug)]
pub struct RawField {
    pub attrs: Vec<RawAttribute>,
    pub vis: String,
    pub ident: String,
    pub ty: FieldType,
}

#[derive(Debug)]
pub enum RawVariantFields {
    Named(Vec<RawField>),
    /// A tuple-style field list, as tokens.
    Unnamed(Vec<Token>),
    Unit,
}

#[derive(Debug)]
pub struct RawVariant {
    pub attrs: Vec<RawAttribute>,
    pub ident: String,
    pub fields: RawVariantFields,
}

#[derive(Debug)]
pub enum RawBody {
    Struct(Vec<RawField>),
    Enum(Vec<RawVariant>),
}

/// A struct or enum declaration with its attributes, not yet classified.
#[derive(Debug)]
pub struct RawItem {
    pub attrs: Vec<RawAttribute>,
    pub vis: String,
    pub ident: String,
    /// Where the `struct` or `enum` keyword stands.
    pub keyword_span: u64,
    pub body: RawBody,
}

// ----- classified -----

/// `version("x.y.z")` on an item.
#[derive(Clone, Copy, Debug, PartialEq, Eq, Structural)]
pub struct VersionAttr {
    pub version: Version,
    pub span: u64,
}

/// `cfg("range")` on a field or variant.
#[derive(Debug)]
pub struct CfgAttr {
    pub req: Constraint,
    pub span: u64,
}

/// `inherit` on a field.
#[derive(Clone, Copy, Debug, PartialEq, Eq, Structural)]
pub struct InheritAttr {
    pub span: u64,
}

/// `derive(...)` on an item: the tokens are applied to the tagged union.
#[derive(Debug)]
pub struct DeriveAttr {
    pub tokens: Vec<Token>,
    pub span: u64,
}

/// A recognized framework annotation.
#[derive(Debug)]
pub enum ObakeAttribute {
    Version(VersionAttr),
    Cfg(CfgAttr),
    Inherit(InheritAttr),
    Derive(DeriveAttr),
}

/// An attribute after classification.
#[derive(Debug)]
pub enum VersionedAttribute {
    Obake(ObakeAttribute),
    /// Any attribute outside the framework, kept as written.
    Attribute(RawAttribute),
}

#[derive(Debug)]
pub struct VersionedAttributes {
    pub attrs: Vec<VersionedAttribute>,
}

#[derive(Debug)]
pub struct VersionedField {
    pub attrs: VersionedAttributes,
    pub vis: String,
    pub ident: String,
    pub ty: FieldType,
}

#[derive(Debug)]
pub struct VersionedFields {
    pub fields: Vec<VersionedField>,
}

#[derive(Debug)]
pub enum VersionedVariantFields {
    Unnamed(Vec<Token>),
    Named(VersionedFields),
    Unit,
}

#[derive(Debug)]
pub struct VersionedVariant {
    pub attrs: VersionedAttributes,
    pub ident: String,
    pub fields: VersionedVariantFields,
}

#[derive(Debug)]
pub struct VersionedVariants {
    pub variants: Vec<VersionedVariant>,
}

#[derive(Debug)]
pub struct VersionedStruct {
    pub ident: String,
    pub keyword_span: u64,
    pub fields: VersionedFields,
}

#[derive(Debug)]
pub struct VersionedEnum {
    pub ident: String,
    pub keyword_span: u64,
    pub variants: VersionedVariants,
}

#[derive(Debug)]
pub enum VersionedItemKind {
    Struct(VersionedStruct),
    Enum(VersionedEnum),
}

/// An annotated declaration with every attribute classified.
#[derive(Debug)]
pub struct VersionedItem {
    pub attrs: VersionedAttributes,
    pub vis: String,
    pub kind: VersionedItemKind,
}

// ----- views -----

pub enum ObakeAttributeView {
    Version(VersionAttr),
    /// The range literal and the span of the annotation.
    Cfg(Seq<char>, u64),
    Inherit(u64),
    /// The payload tokens and the span of the annotation.
    Derive(Seq<Token>, u64),
}

pub enum AttributeView {
    Obake(ObakeAttributeView),
    Attribute(RawAttribute),
}

pub struct FieldView {
    pub attrs: Seq<AttributeView>,
    pub vis: String,
    pub ident: String,
    pub ty: FieldType,
}

pub enum VariantFieldsView {
    Unnamed(Vec<Token>),
    Named(Seq<FieldView>),
    Unit,
}

pub struct VariantView {
    pub attrs: Seq<AttributeView>,
    pub ident: String,
    pub fields: VariantFieldsView,
}

pub enum BodyView {
    Struct(Seq<FieldView>),
    Enum(Seq<VariantView>),
}

pub struct ItemView {
    pub attrs: Seq<AttributeView>,
    pub vis: String,
    pub ident: String,
    pub keyword_span: u64,
    pub body: BodyView,
}

impl View for ObakeAttribute {
    type V = ObakeAttributeView;

    open spec fn view(&self) -> ObakeAttributeView {
        match self {
            ObakeAttribute::Version(a) => ObakeAttributeView::Version(*a),
            ObakeAttribute::Cfg(a) => ObakeAttributeView::Cfg(a.req@, a.span),
            ObakeAttribute::Inherit(a) => ObakeAttributeView::Inherit(a.span),
            ObakeAttribute::Derive(a) => ObakeAttributeView::Derive(a.tokens@, a.span),
        }
    }
}

impl View for VersionedAttribute {
    type V = AttributeView;

    open spec fn view(&self) -> AttributeView {
        match self {
            VersionedAttribute::Obake(a) => AttributeView::Obake(a@),
            VersionedAttribute::Attribute(a) => AttributeView::Attribute(*a),
        }
    }
}

impl View for VersionedAttributes {
    type V = Seq<AttributeView>;

    open spec fn view(&self) -> Seq<AttributeView> {
        self.attrs@.map_values(|a: VersionedAttribute| a@)
    }
}

impl View for VersionedField {
    type V = FieldView;

    open spec fn view(&self) -> FieldView {
        FieldView { attrs: self.attrs@, vis: self.vis, ident: self.ident, ty: self.ty }
    }
}

impl View for VersionedFields {
    type V = Seq<FieldView>;

    open spec fn view(&self) -> Seq<FieldView> {
        self.fields@.map_values(|f: VersionedField| f@)
    }
}

impl View for VersionedVariantFields {
    type V = VariantFieldsView;

    open spec fn view(&self) -> VariantFieldsView {
        match self {
            VersionedVariantFields::Unnamed(t) => VariantFieldsView::Unnamed(*t),
            VersionedVariantFields::Named(f) => VariantFieldsView::Named(f@),
            VersionedVariantFields::Unit => VariantFieldsView::Unit,
        }
    }
}

impl View for VersionedVariant {
    type V = VariantView;

    open spec fn view(&self) -> VariantView {
        VariantView { attrs: self.attrs@, ident: self.ident, fields: self.fields@ }
    }
}

impl View for VersionedVariants {
    type V = Seq<VariantView>;

    open spec fn view(&self) -> Seq<VariantView> {
        self.variants@.map_values(|v: VersionedVariant| v@)
    }
}

impl View for VersionedItem {
    type V = ItemView;

    open spec fn view(&self) -> ItemView {
        match &self.kind {
            VersionedItemKind::Struct(s) => ItemView {
                attrs: self.attrs@,
                vis: self.vis,
                ident: s.ident,
                keyword_span: s.keyword_span,
                body: BodyView::Struct(s.fields@),
            },
            VersionedItemKind::Enum(e) => ItemView {
                attrs: self.attrs@,
                vis: self.vis,
                ident: e.ident,
                keyword_span: e.keyword_span,
                body: BodyView::Enum(e.variants@),
            },
        }
    }
}

impl VersionedItem {
    /// The declared name of the item.
    pub fn ident(&self) -> (r: &String)
        ensures
            *r == self@.ident,
    {
        match &self.kind {
            VersionedItemKind::Struct(inner) => &inner.ident,
            VersionedItemKind::Enum(inner) => &inner.ident,
        }
    }

    /// Where the `struct` or `enum` keyword stands.
    pub fn keyword_span(&self) -> (r: u64)
        ensures
            r == self@.keyword_span,
    {
        match &self.kind {
            VersionedItemKind::Struct(inner) => inner.keyword_span,
            VersionedItemKind::Enum(inner) => inner.keyword_span,
        }
    }
}

} // verus!
