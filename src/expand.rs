//! One declaration per version: the fields and variants that exist in that
//! version, with nested versioned types retargeted to the same version.

use vstd::prelude::*;
use crate::diagnostic::{plain, Diagnostic, DiagnosticKind, DiagnosticView};
use crate::item::{
    BodyView, FieldType, FieldView, ItemView, VariantFieldsView, VariantView, VersionedField,
    VersionedFields, VersionedItem, VersionedItemKind, VersionedVariant, VersionedVariantFields,
    VersionedVariants,
};
use crate::resolve::{admits, cfg_literals, find_helper, first_helper, resolve, Helper};
use crate::version::{tag, version_tag, version_text, Version};

verus! {

// ----- the declarations produced -----

/// The type of a field in one version's declaration.
#[derive(Debug)]
pub enum TypeDecl {
    /// The declared type, as written.
    Unchanged,
    /// The declared type path with its last segment renamed to this
    /// identifier: the nested versioned type at the same version.
    Retagged(String),
}

/// A field of one version's declaration: which field of the annotated item
/// it is, and its type in this version.
#[derive(Debug)]
pub struct FieldDecl {
    pub index: usize,
    pub ty: TypeDecl,
}

#[derive(Debug)]
pub enum VariantShape {
    /// A named-field variant with the fields present in this version.
    Named(Vec<FieldDecl>),
    /// A tuple-style or unit variant, copied as written.
    Verbatim,
}

/// A variant of one version's declaration: which variant of the annotated
/// item it is, and its fields in this version.
#[derive(Debug)]
pub struct VariantDecl {
    pub index: usize,
    pub shape: VariantShape,
}

#[derive(Debug)]
pub enum DeclBody {
    Struct(Vec<FieldDecl>),
    Enum(Vec<VariantDecl>),
}

/// The declaration of an item at one version. It is emitted with the item's
/// visibility and its attributes outside the framework, hidden from
/// documentation and with the naming lint for its identifier allowed.
#[derive(Debug)]
pub struct VersionDecl {
    pub version: Version,
    /// `{ident}_v{major}_{minor}_{patch}`.
    pub ident: String,
    /// `major.minor.patch`.
    pub text: String,
    pub body: DeclBody,
}

pub enum TypeDeclView {
    Unchanged,
    Retagged(Seq<char>),
}

pub struct FieldDeclView {
    pub index: int,
    pub ty: TypeDeclView,
}

pub enum VariantShapeView {
    Named(Seq<FieldDeclView>),
    Verbatim,
}

pub struct VariantDeclView {
    pub index: int,
    pub shape: VariantShapeView,
}

pub enum DeclBodyView {
    Struct(Seq<FieldDeclView>),
    Enum(Seq<VariantDeclView>),
}

pub struct VersionDeclView {
    pub version: Version,
    pub ident: Seq<char>,
    pub text: Seq<char>,
    pub body: DeclBodyView,
}

impl View for TypeDecl {
    type V = TypeDeclView;

    open spec fn view(&self) -> TypeDeclView {
        match self {
            TypeDecl::Unchanged => TypeDeclView::Unchanged,
            TypeDecl::Retagged(s) => TypeDeclView::Retagged(s@),
        }
    }
}

impl View for FieldDecl {
    type V = FieldDeclView;

    open spec fn view(&self) -> FieldDeclView {
        FieldDeclView { index: self.index as int, ty: self.ty@ }
    }
}

pub open spec fn field_decls_view(s: Seq<FieldDecl>) -> Seq<FieldDeclView> {
    s.map_values(|d: FieldDecl| d@)
}

impl View for VariantDecl {
    type V = VariantDeclView;

    open spec fn view(&self) -> VariantDeclView {
        VariantDeclView {
            index: self.index as int,
            shape: match &self.shape {
                VariantShape::Named(fs) => VariantShapeView::Named(field_decls_view(fs@)),
                VariantShape::Verbatim => VariantShapeView::Verbatim,
            },
        }
    }
}

pub open spec fn variant_decls_view(s: Seq<VariantDecl>) -> Seq<VariantDeclView> {
    s.map_values(|d: VariantDecl| d@)
}

impl View for VersionDecl {
    type V = VersionDeclView;

    open spec fn view(&self) -> VersionDeclView {
        VersionDeclView {
            version: self.version,
            ident: self.ident@,
            text: self.text@,
            body: match &self.body {
                DeclBody::Struct(fs) => DeclBodyView::Struct(field_decls_view(fs@)),
                DeclBody::Enum(vs) => DeclBodyView::Enum(variant_decls_view(vs@)),
            },
        }
    }
}

// ----- what each version's declaration is -----

/// Applies `f` to each element with its index, in order, keeping the
/// results that are present and stopping at the first failure.
pub open spec fn collect_present<A, B>(
    s: Seq<A>,
    f: spec_fn(A, int) -> Result<Option<B>, DiagnosticView>,
) -> Result<Seq<B>, DiagnosticView>
    decreases s.len(),
{
    if s.len() == 0 {
        Ok(Seq::empty())
    } else {
        match collect_present(s.drop_last(), f) {
            Err(e) => Err(e),
            Ok(p) => match f(s.last(), s.len() - 1) {
                Err(e) => Err(e),
                Ok(None) => Ok(p),
                Ok(Some(x)) => Ok(p.push(x)),
            },
        }
    }
}

pub proof fn lemma_present_prefix_error<A, B>(
    s: Seq<A>,
    f: spec_fn(A, int) -> Result<Option<B>, DiagnosticView>,
    i: int,
)
    requires
        0 <= i <= s.len(),
        collect_present(s.take(i), f) is Err,
    ensures
        collect_present(s, f) == collect_present(s.take(i), f),
    decreases s.len() - i,
{
    if i < s.len() {
        assert(s.take(i + 1).drop_last() =~= s.take(i));
        lemma_present_prefix_error(s, f, i + 1);
    } else {
        assert(s.take(i) =~= s);
    }
}

pub proof fn lemma_present_step<A, B>(
    s: Seq<A>,
    f: spec_fn(A, int) -> Result<Option<B>, DiagnosticView>,
    i: int,
)
    requires
        0 <= i < s.len(),
    ensures
        collect_present(s.take(i + 1), f) == (match collect_present(s.take(i), f) {
            Err(e) => Err(e),
            Ok(p) => match f(s[i], i) {
                Err(e) => Err(e),
                Ok(None) => Ok(p),
                Ok(Some(x)) => Ok(p.push(x)),
            },
        }),
{
    assert(s.take(i + 1).drop_last() =~= s.take(i));
    assert(s.take(i + 1).last() == s[i]);
}

/// The type of a field at version `v`: unchanged, or, under `inherit`, its
/// type path with the last segment named for version `v`.
pub open spec fn field_type(f: FieldView, v: Version) -> Result<TypeDeclView, DiagnosticView> {
    match first_helper(f.attrs, Helper::Inherit) {
        None => Ok(TypeDeclView::Unchanged),
        Some(sp) => match f.ty {
            FieldType::Path { global, segments } => if segments@.len() > 0 {
                Ok(TypeDeclView::Retagged(version_tag(segments@.last().ident@, v)))
            } else {
                Err(plain(DiagnosticKind::InvalidInheritTarget, sp))
            },
            FieldType::Other(_) => Err(plain(DiagnosticKind::InvalidInheritTarget, sp)),
        },
    }
}

/// Field `index` at version `v`: absent when its constraints do not admit
/// `v`. A `derive` on a field is rejected.
pub open spec fn field_decl(f: FieldView, index: int, v: Version) -> Result<Option<FieldDeclView>, DiagnosticView> {
    match first_helper(f.attrs, Helper::Derive) {
        Some(sp) => Err(plain(DiagnosticKind::MisplacedDerive, sp)),
        None => if !admits(cfg_literals(f.attrs), v) {
            Ok(None)
        } else {
            match field_type(f, v) {
                Err(e) => Err(e),
                Ok(t) => Ok(Some(FieldDeclView { index, ty: t })),
            }
        },
    }
}

pub open spec fn fields_decl(fs: Seq<FieldView>, v: Version) -> Result<Seq<FieldDeclView>, DiagnosticView> {
    collect_present(fs, |f: FieldView, i: int| field_decl(f, i, v))
}

/// Variant `index` at version `v`: absent when its constraints do not admit
/// `v`; a named-field variant keeps the fields present at `v`. `inherit` and
/// `derive` on a variant are rejected.
pub open spec fn variant_decl(var: VariantView, index: int, v: Version) -> Result<Option<VariantDeclView>, DiagnosticView> {
    match first_helper(var.attrs, Helper::Inherit) {
        Some(sp) => Err(plain(DiagnosticKind::MisplacedInherit, sp)),
        None => match first_helper(var.attrs, Helper::Derive) {
            Some(sp) => Err(plain(DiagnosticKind::MisplacedDerive, sp)),
            None => if !admits(cfg_literals(var.attrs), v) {
                Ok(None)
            } else {
                match var.fields {
                    VariantFieldsView::Named(fs) => match fields_decl(fs, v) {
                        Err(e) => Err(e),
                        Ok(d) => Ok(Some(VariantDeclView { index, shape: VariantShapeView::Named(d) })),
                    },
                    _ => Ok(Some(VariantDeclView { index, shape: VariantShapeView::Verbatim })),
                }
            },
        },
    }
}

pub open spec fn variants_decl(vs: Seq<VariantView>, v: Version) -> Result<Seq<VariantDeclView>, DiagnosticView> {
    collect_present(vs, |x: VariantView, i: int| variant_decl(x, i, v))
}

/// The declaration of `item` at version `v`.
pub open spec fn version_decl(item: ItemView, v: Version) -> Result<VersionDeclView, DiagnosticView> {
    let body = match item.body {
        BodyView::Struct(fs) => match fields_decl(fs, v) {
            Err(e) => Err(e),
            Ok(d) => Ok(DeclBodyView::Struct(d)),
        },
        BodyView::Enum(vs) => match variants_decl(vs, v) {
            Err(e) => Err(e),
            Ok(d) => Ok(DeclBodyView::Enum(d)),
        },
    };
    match body {
        Err(e) => Err(e),
        Ok(b) => Ok(VersionDeclView {
            version: v,
            ident: version_tag(item.ident@, v),
            text: version_text(v),
            body: b,
        }),
    }
}

// ----- building them -----

impl VersionedField {
    /// The type of this field at version `v`.
    pub fn expand_ty_versioned(&self, v: &Version) -> (r: Result<TypeDecl, Diagnostic>)
        ensures
            match r {
                Ok(t) => field_type(self@, *v) == Ok::<_, DiagnosticView>(t@),
                Err(d) => field_type(self@, *v) == Err::<TypeDeclView, _>(d@),
            },
    {
        match find_helper(&self.attrs, Helper::Inherit) {
            None => Ok(TypeDecl::Unchanged),
            Some(sp) => match &self.ty {
                FieldType::Path { global: _, segments } => {
                    if segments.len() > 0 {
                        let last = &segments[segments.len() - 1];
                        Ok(TypeDecl::Retagged(tag(last.ident.as_str(), v)))
                    } else {
                        Err(Diagnostic::new(DiagnosticKind::InvalidInheritTarget, sp))
                    }
                },
                FieldType::Other(_) => Err(Diagnostic::new(DiagnosticKind::InvalidInheritTarget, sp)),
            },
        }
    }

    /// This field, as field `index`, at version `v`; `None` when absent.
    pub fn expand_version(&self, index: usize, v: &Version) -> (r: Result<Option<FieldDecl>, Diagnostic>)
        ensures
            match r {
                Ok(Some(d)) => field_decl(self@, index as int, *v) == Ok::<_, DiagnosticView>(Some(d@)),
                Ok(None) => field_decl(self@, index as int, *v) == Ok::<Option<FieldDeclView>, DiagnosticView>(None),
                Err(d) => field_decl(self@, index as int, *v) == Err::<Option<FieldDeclView>, _>(d@),
            },
    {
        if let Some(sp) = find_helper(&self.attrs, Helper::Derive) {
            return Err(Diagnostic::new(DiagnosticKind::MisplacedDerive, sp));
        }
        if !resolve(&self.attrs, v) {
            return Ok(None);
        }
        let ty = self.expand_ty_versioned(v)?;
        Ok(Some(FieldDecl { index, ty }))
    }
}

impl VersionedFields {
    /// The fields present at version `v`, in order.
    pub fn expand_version(&self, v: &Version) -> (r: Result<Vec<FieldDecl>, Diagnostic>)
        ensures
            match r {
                Ok(ds) => fields_decl(self@, *v) == Ok::<_, DiagnosticView>(field_decls_view(ds@)),
                Err(d) => fields_decl(self@, *v) == Err::<Seq<FieldDeclView>, _>(d@),
            },
    {
        let ghost all = self@;
        let n = self.fields.len();
        let mut out: Vec<FieldDecl> = Vec::new();
        let mut i: usize = 0;
        assert(all.take(0) =~= Seq::<FieldView>::empty());
        assert(field_decls_view(out@) =~= Seq::<FieldDeclView>::empty());
        while i < n
            invariant
                n == all.len(),
                all == self@,
                n == self.fields@.len(),
                i <= n,
                collect_present(all.take(i as int), |f: FieldView, k: int| field_decl(f, k, *v))
                    == Ok::<_, DiagnosticView>(field_decls_view(out@)),
            decreases n - i,
        {
            proof {
                lemma_present_step(all, |f: FieldView, k: int| field_decl(f, k, *v), i as int);
            }
            assert(all[i as int] == self.fields@[i as int]@);
            match self.fields[i].expand_version(i, v) {
                Err(d) => {
                    proof {
                        lemma_present_prefix_error(all, |f: FieldView, k: int| field_decl(f, k, *v), i as int + 1);
                    }
                    return Err(d);
                },
                Ok(None) => {},
                Ok(Some(d)) => {
                    let ghost before = out@;
                    out.push(d);
                    assert(field_decls_view(out@) =~= field_decls_view(before).push(d@));
                },
            }
            i = i + 1;
        }
        assert(all.take(n as int) =~= all);
        Ok(out)
    }
}


impl VersionedVariant {
    /// This variant, as variant `index`, at version `v`; `None` when absent.
    pub fn expand_version(&self, index: usize, v: &Version) -> (r: Result<Option<VariantDecl>, Diagnostic>)
        ensures
            match r {
                Ok(Some(d)) => variant_decl(self@, index as int, *v) == Ok::<_, DiagnosticView>(Some(d@)),
                Ok(None) => variant_decl(self@, index as int, *v) == Ok::<Option<VariantDeclView>, DiagnosticView>(None),
                Err(d) => variant_decl(self@, index as int, *v) == Err::<Option<VariantDeclView>, _>(d@),
            },
    {
        if let Some(sp) = find_helper(&self.attrs, Helper::Inherit) {
            return Err(Diagnostic::new(DiagnosticKind::MisplacedInherit, sp));
        }
        if let Some(sp) = find_helper(&self.attrs, Helper::Derive) {
            return Err(Diagnostic::new(DiagnosticKind::MisplacedDerive, sp));
        }
        if !resolve(&self.attrs, v) {
            return Ok(None);
        }
        let shape = match &self.fields {
            VersionedVariantFields::Named(fs) => VariantShape::Named(fs.expand_version(v)?),
            _ => VariantShape::Verbatim,
        };
        Ok(Some(VariantDecl { index, shape }))
    }
}

impl VersionedVariants {
    /// The variants present at version `v`, in order.
    pub fn expand_version(&self, v: &Version) -> (r: Result<Vec<VariantDecl>, Diagnostic>)
        ensures
            match r {
                Ok(ds) => variants_decl(self@, *v) == Ok::<_, DiagnosticView>(variant_decls_view(ds@)),
                Err(d) => variants_decl(self@, *v) == Err::<Seq<VariantDeclView>, _>(d@),
            },
    {
        let ghost all = self@;
        let n = self.variants.len();
        let mut out: Vec<VariantDecl> = Vec::new();
        let mut i: usize = 0;
        assert(all.take(0) =~= Seq::<VariantView>::empty());
        assert(variant_decls_view(out@) =~= Seq::<VariantDeclView>::empty());
        while i < n
            invariant
                n == all.len(),
                all == self@,
                n == self.variants@.len(),
                i <= n,
                collect_present(all.take(i as int), |x: VariantView, k: int| variant_decl(x, k, *v))
                    == Ok::<_, DiagnosticView>(variant_decls_view(out@)),
            decreases n - i,
        {
            proof {
                lemma_present_step(all, |x: VariantView, k: int| variant_decl(x, k, *v), i as int);
            }
            assert(all[i as int] == self.variants@[i as int]@);
            match self.variants[i].expand_version(i, v) {
                Err(d) => {
                    proof {
                        lemma_present_prefix_error(all, |x: VariantView, k: int| variant_decl(x, k, *v), i as int + 1);
                    }
                    return Err(d);
                },
                Ok(None) => {},
                Ok(Some(d)) => {
                    let ghost before = out@;
                    out.push(d);
                    assert(variant_decls_view(out@) =~= variant_decls_view(before).push(d@));
                },
            }
            i = i + 1;
        }
        assert(all.take(n as int) =~= all);
        Ok(out)
    }
}

impl VersionedItem {
    /// The declaration of this item at version `v`.
    pub fn expand_version(&self, v: &Version) -> (r: Result<VersionDecl, Diagnostic>)
        ensures
            match r {
                Ok(d) => version_decl(self@, *v) == Ok::<_, DiagnosticView>(d@),
                Err(d) => version_decl(self@, *v) == Err::<VersionDeclView, _>(d@),
            },
    {
        let body = match &self.kind {
            VersionedItemKind::Struct(inner) => DeclBody::Struct(inner.fields.expand_version(v)?),
            VersionedItemKind::Enum(inner) => DeclBody::Enum(inner.variants.expand_version(v)?),
        };
        let ident = tag(self.ident().as_str(), v);
        let text = v.text();
        Ok(VersionDecl { version: *v, ident, text, body })
    }
}

} // verus!
