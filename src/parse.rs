//! Parsing a declaration as the host parser hands it over into an annotated
//! item: every attribute of the item, its fields and its variants classified.

use vstd::prelude::*;
use crate::attrs::{agrees, classify_all, collect, lemma_collect_prefix_error, lemma_collect_step};
use crate::diagnostic::{Diagnostic, DiagnosticView};
use crate::item::{
    BodyView, FieldView, ItemView, RawBody, RawField, RawItem, RawVariant, RawVariantFields,
    VariantFieldsView, VariantView, VersionedAttributes, VersionedEnum, VersionedField,
    VersionedFields, VersionedItem, VersionedItemKind, VersionedStruct, VersionedVariant,
    VersionedVariantFields, VersionedVariants,
};

verus! {

/// A field with its attributes classified.
pub open spec fn field_parse(f: RawField) -> Result<FieldView, DiagnosticView> {
    match classify_all(f.attrs@) {
        Err(e) => Err(e),
        Ok(a) => Ok(FieldView { attrs: a, vis: f.vis, ident: f.ident, ty: f.ty }),
    }
}

/// A list of fields, each parsed in order, stopping at the first failure.
pub open spec fn fields_parse(s: Seq<RawField>) -> Result<Seq<FieldView>, DiagnosticView> {
    collect(s, |x: RawField| field_parse(x))
}

/// A variant: its attributes, then the fields of a named-field variant.
pub open spec fn variant_parse(v: RawVariant) -> Result<VariantView, DiagnosticView> {
    match classify_all(v.attrs@) {
        Err(e) => Err(e),
        Ok(a) => match v.fields {
            RawVariantFields::Named(fs) => match fields_parse(fs@) {
                Err(e) => Err(e),
                Ok(f) => Ok(VariantView { attrs: a, ident: v.ident, fields: VariantFieldsView::Named(f) }),
            },
            RawVariantFields::Unnamed(t) => Ok(
                VariantView { attrs: a, ident: v.ident, fields: VariantFieldsView::Unnamed(t) },
            ),
            RawVariantFields::Unit => Ok(
                VariantView { attrs: a, ident: v.ident, fields: VariantFieldsView::Unit },
            ),
        },
    }
}

pub open spec fn variants_parse(s: Seq<RawVariant>) -> Result<Seq<VariantView>, DiagnosticView> {
    collect(s, |x: RawVariant| variant_parse(x))
}

/// An item: its own attributes first, then its body in order.
pub open spec fn item_parse(raw: RawItem) -> Result<ItemView, DiagnosticView> {
    match classify_all(raw.attrs@) {
        Err(e) => Err(e),
        Ok(a) => match raw.body {
            RawBody::Struct(fs) => match fields_parse(fs@) {
                Err(e) => Err(e),
                Ok(f) => Ok(ItemView {
                    attrs: a,
                    vis: raw.vis,
                    ident: raw.ident,
                    keyword_span: raw.keyword_span,
                    body: BodyView::Struct(f),
                }),
            },
            RawBody::Enum(vs) => match variants_parse(vs@) {
                Err(e) => Err(e),
                Ok(v) => Ok(ItemView {
                    attrs: a,
                    vis: raw.vis,
                    ident: raw.ident,
                    keyword_span: raw.keyword_span,
                    body: BodyView::Enum(v),
                }),
            },
        },
    }
}

impl VersionedField {
    /// Parses a field: classifies its attributes.
    pub fn parse(f: RawField) -> (r: Result<VersionedField, Diagnostic>)
        ensures
            agrees(r, field_parse(f)),
    {
        let RawField { attrs, vis, ident, ty } = f;
        let attrs = VersionedAttributes::parse(attrs)?;
        Ok(VersionedField { attrs, vis, ident, ty })
    }
}

impl VersionedFields {
    /// Parses the fields of a struct or of a named-field variant.
    pub fn parse(items: Vec<RawField>) -> (r: Result<VersionedFields, Diagnostic>)
        ensures
            agrees(r, fields_parse(items@)),
    {
        let ghost all = items@;
        let mut rest = items;
        let mut out: Vec<VersionedField> = Vec::new();
        let mut failed: Option<Diagnostic> = None;
        let mut i: usize = 0;
        let n = rest.len();
        assert(all.take(0) =~= Seq::<RawField>::empty());
        assert(out@.map_values(|x: VersionedField| x@) =~= Seq::<<VersionedField as View>::V>::empty());
        while i < n && failed.is_none()
            invariant
                n == all.len(),
                i <= n,
                rest@ == all.subrange(i as int, n as int),
                failed is None ==> collect(all.take(i as int), |x: RawField| field_parse(x))
                    == Ok::<_, DiagnosticView>(out@.map_values(|x: VersionedField| x@)),
                failed matches Some(d) ==> collect(all, |x: RawField| field_parse(x))
                    == Err::<Seq<<VersionedField as View>::V>, DiagnosticView>(d@),
            decreases n - i,
        {
            let x = rest.remove(0);
            proof {
                lemma_collect_step(all, |x: RawField| field_parse(x), i as int);
            }
            assert(rest@ =~= all.subrange(i as int + 1, n as int));
            match VersionedField::parse(x) {
                Ok(c) => {
                    let ghost before = out@;
                    out.push(c);
                    assert(out@.map_values(|x: VersionedField| x@) =~= before.map_values(|x: VersionedField| x@).push(c@));
                },
                Err(d) => {
                    proof {
                        lemma_collect_prefix_error(all, |x: RawField| field_parse(x), i as int + 1);
                    }
                    failed = Some(d);
                },
            }
            i = i + 1;
        }
        match failed {
            Some(d) => Err(d),
            None => {
                assert(all.take(n as int) =~= all);
                Ok(VersionedFields { fields: out })
            },
        }
    }
}

impl VersionedVariant {
    /// Parses a variant: its attributes, then its named fields if it has them.
    pub fn parse(v: RawVariant) -> (r: Result<VersionedVariant, Diagnostic>)
        ensures
            agrees(r, variant_parse(v)),
    {
        let RawVariant { attrs, ident, fields } = v;
        let attrs = VersionedAttributes::parse(attrs)?;
        let fields = match fields {
            RawVariantFields::Named(fs) => VersionedVariantFields::Named(VersionedFields::parse(fs)?),
            RawVariantFields::Unnamed(t) => VersionedVariantFields::Unnamed(t),
            RawVariantFields::Unit => VersionedVariantFields::Unit,
        };
        Ok(VersionedVariant { attrs, ident, fields })
    }
}

impl VersionedVariants {
    /// Parses the variants of an enum.
    pub fn parse(items: Vec<RawVariant>) -> (r: Result<VersionedVariants, Diagnostic>)
        ensures
            agrees(r, variants_parse(items@)),
    {
        let ghost all = items@;
        let mut rest = items;
        let mut out: Vec<VersionedVariant> = Vec::new();
        let mut failed: Option<Diagnostic> = None;
        let mut i: usize = 0;
        let n = rest.len();
        assert(all.take(0) =~= Seq::<RawVariant>::empty());
        assert(out@.map_values(|x: VersionedVariant| x@) =~= Seq::<<VersionedVariant as View>::V>::empty());
        while i < n && failed.is_none()
            invariant
                n == all.len(),
                i <= n,
                rest@ == all.subrange(i as int, n as int),
                failed is None ==> collect(all.take(i as int), |x: RawVariant| variant_parse(x))
                    == Ok::<_, DiagnosticView>(out@.map_values(|x: VersionedVariant| x@)),
                failed matches Some(d) ==> collect(all, |x: RawVariant| variant_parse(x))
                    == Err::<Seq<<VersionedVariant as View>::V>, DiagnosticView>(d@),
            decreases n - i,
        {
            let x = rest.remove(0);
            proof {
                lemma_collect_step(all, |x: RawVariant| variant_parse(x), i as int);
            }
            assert(rest@ =~= all.subrange(i as int + 1, n as int));
            match VersionedVariant::parse(x) {
                Ok(c) => {
                    let ghost before = out@;
                    out.push(c);
                    assert(out@.map_values(|x: VersionedVariant| x@) =~= before.map_values(|x: VersionedVariant| x@).push(c@));
                },
                Err(d) => {
                    proof {
                        lemma_collect_prefix_error(all, |x: RawVariant| variant_parse(x), i as int + 1);
                    }
                    failed = Some(d);
                },
            }
            i = i + 1;
        }
        match failed {
            Some(d) => Err(d),
            None => {
                assert(all.take(n as int) =~= all);
                Ok(VersionedVariants { variants: out })
            },
        }
    }
}

impl VersionedItem {
    /// Parses an annotated struct or enum: classifies the attributes of the
    /// item, then of each field and variant, stopping at the first
    /// malformed one.
    pub fn parse(raw: RawItem) -> (r: Result<VersionedItem, Diagnostic>)
        ensures
            agrees(r, item_parse(raw)),
    {
        let RawItem { attrs, vis, ident, keyword_span, body } = raw;
        let attrs = VersionedAttributes::parse(attrs)?;
        let kind = match body {
            RawBody::Struct(fs) => {
                let fields = VersionedFields::parse(fs)?;
                VersionedItemKind::Struct(VersionedStruct { ident, keyword_span, fields })
            },
            RawBody::Enum(vs) => {
                let variants = VersionedVariants::parse(vs)?;
                VersionedItemKind::Enum(VersionedEnum { ident, keyword_span, variants })
            },
        };
        Ok(VersionedItem { attrs, vis, kind })
    }
}

} // verus!
