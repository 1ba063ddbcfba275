//! Laws of the expansion, proved over its specification.

use vstd::prelude::*;
use crate::attrs::collect;
use crate::diagnostic::DiagnosticView;
use crate::expand::{
    collect_present, field_decl, fields_decl, variant_decl, variants_decl, version_decl, DeclBodyView,
    FieldDeclView, TypeDeclView, VariantDeclView, VersionDeclView,
};
use crate::item::{FieldType, ItemView, VersionAttr};
use crate::resolve::{admits, cfg_literals, first_helper, Helper};
use crate::synth::{
    declared_versions, expansion, first_repeat, insert_pos, preconditions, repeats,
    sort_versions,
};
use crate::version::{lemma_tag_injective, lemma_text_injective, version_lt, version_tag, Version};

verus! {

// ----- general facts about the combinators -----

/// A successful `collect` has one result per element, each `f` of it.
pub proof fn lemma_collect_ok<A, B>(s: Seq<A>, f: spec_fn(A) -> Result<B, DiagnosticView>, out: Seq<B>)
    requires
        collect(s, f) == Ok::<Seq<B>, DiagnosticView>(out),
    ensures
        out.len() == s.len(),
        forall|i: int| 0 <= i < s.len() ==> f(s[i]) == Ok::<B, DiagnosticView>(#[trigger] out[i]),
    decreases s.len(),
{
    if s.len() > 0 {
        let t = s.drop_last();
        let p = collect(t, f)->Ok_0;
        assert(collect(t, f) is Ok);
        assert(out =~= p.push(f(s.last())->Ok_0));
        lemma_collect_ok(t, f, p);
        assert forall|i: int| 0 <= i < s.len() implies f(s[i]) == Ok::<B, DiagnosticView>(#[trigger] out[i]) by {
            if i < s.len() - 1 {
                assert(t[i] == s[i]);
                assert(p[i] == out[i]);
            }
        }
    }
}

/// A successful `collect_present` keeps, in order, exactly the present
/// results: every element succeeds, every present result is kept, and
/// every kept result comes from an element.
pub proof fn lemma_present_ok<A, B>(
    s: Seq<A>,
    f: spec_fn(A, int) -> Result<Option<B>, DiagnosticView>,
    out: Seq<B>,
)
    requires
        collect_present(s, f) == Ok::<Seq<B>, DiagnosticView>(out),
    ensures
        forall|i: int| 0 <= i < s.len() ==> (#[trigger] f(s[i], i)) is Ok,
        forall|i: int|
            0 <= i < s.len() && (#[trigger] f(s[i], i)) is Ok && f(s[i], i)->Ok_0 is Some ==> exists|j: int|
                0 <= j < out.len() && out[j] == f(s[i], i)->Ok_0->Some_0,
        forall|j: int|
            0 <= j < out.len() ==> exists|i: int|
                0 <= i < s.len() && f(s[i], i) == Ok::<Option<B>, DiagnosticView>(Some(#[trigger] out[j])),
    decreases s.len(),
{
    if s.len() > 0 {
        let n = s.len() - 1;
        let t = s.drop_last();
        let p = match collect_present(t, f) {
            Ok(p) => p,
            Err(_) => Seq::empty(),
        };
        lemma_present_ok(t, f, p);
        assert forall|i: int| 0 <= i < s.len() implies (#[trigger] f(s[i], i)) is Ok by {
            if i < n {
                assert(t[i] == s[i]);
                assert(f(t[i], i) is Ok);
            }
        }
        assert forall|i: int|
            0 <= i < s.len() && (#[trigger] f(s[i], i)) is Ok && f(s[i], i)->Ok_0 is Some implies exists|j: int|
                0 <= j < out.len() && out[j] == f(s[i], i)->Ok_0->Some_0 by {
            if i < n {
                assert(t[i] == s[i]);
                let x = f(s[i], i)->Ok_0->Some_0;
                let j = choose|j: int| 0 <= j < p.len() && p[j] == x;
                assert(out[j] == p[j]);
            } else {
                assert(out[out.len() - 1] == f(s[i], i)->Ok_0->Some_0);
            }
        }
        assert forall|j: int| 0 <= j < out.len() implies exists|i: int|
            0 <= i < s.len() && f(s[i], i) == Ok::<Option<B>, DiagnosticView>(Some(#[trigger] out[j])) by {
            if j < p.len() {
                assert(out[j] == p[j]);
                let i = choose|i: int| 0 <= i < t.len() && f(t[i], i) == Ok::<Option<B>, DiagnosticView>(Some(#[trigger] p[j]));
                assert(t[i] == s[i]);
            } else {
                assert(f(s[n], n) == Ok::<Option<B>, DiagnosticView>(Some(out[j])));
            }
        }
    }
}

// ----- the order of versions -----

/// A sequence in which no declaration repeats an earlier version.
pub open spec fn distinct_versions(s: Seq<VersionAttr>) -> bool {
    forall|i: int, j: int| 0 <= i < j < s.len() ==> s[i].version != s[j].version
}

/// Strictly ascending by version.
pub open spec fn ascending(s: Seq<VersionAttr>) -> bool {
    forall|i: int, j: int| 0 <= i < j < s.len() ==> version_lt(s[i].version, s[j].version)
}

proof fn lemma_first_repeat_none(s: Seq<VersionAttr>)
    ensures
        first_repeat(s) is None <==> distinct_versions(s),
    decreases s.len(),
{
    if s.len() > 0 {
        let t = s.drop_last();
        lemma_first_repeat_none(t);
        if distinct_versions(s) {
            assert(distinct_versions(t)) by {
                assert forall|i: int, j: int| 0 <= i < j < t.len() implies t[i].version != t[j].version by {
                    assert(t[i] == s[i] && t[j] == s[j]);
                }
            }
            assert(!repeats(s, s.len() - 1));
        }
        if first_repeat(s) is None {
            assert forall|i: int, j: int| 0 <= i < j < s.len() implies s[i].version != s[j].version by {
                if j < s.len() - 1 {
                    assert(t[i] == s[i] && t[j] == s[j]);
                } else {
                    assert(!repeats(s, s.len() - 1));
                }
            }
        }
    }
}

proof fn lemma_insert_pos(p: Seq<VersionAttr>, x: VersionAttr)
    requires
        ascending(p),
        forall|k: int| 0 <= k < p.len() ==> p[k].version != x.version,
    ensures
        0 <= insert_pos(p, x) <= p.len(),
        forall|k: int| 0 <= k < insert_pos(p, x) ==> version_lt(p[k].version, x.version),
        forall|k: int| insert_pos(p, x) <= k < p.len() ==> version_lt(x.version, p[k].version),
    decreases p.len(),
{
    if p.len() > 0 && !version_lt(x.version, p[0].version) {
        let q = p.drop_first();
        assert forall|i: int, j: int| 0 <= i < j < q.len() implies version_lt(q[i].version, q[j].version) by {
            assert(q[i] == p[i + 1] && q[j] == p[j + 1]);
        }
        assert forall|k: int| 0 <= k < q.len() implies q[k].version != x.version by {
            assert(q[k] == p[k + 1]);
        }
        lemma_insert_pos(q, x);
        assert forall|k: int| 0 <= k < insert_pos(p, x) implies version_lt(p[k].version, x.version) by {
            if k > 0 {
                assert(p[k] == q[k - 1]);
            }
        }
        assert forall|k: int| insert_pos(p, x) <= k < p.len() implies version_lt(x.version, p[k].version) by {
            assert(p[k] == q[k - 1]);
        }
    } else if p.len() > 0 {
        assert forall|k: int| 0 <= k < p.len() implies version_lt(x.version, p[k].version) by {
            if k > 0 {
                assert(version_lt(p[0].version, p[k].version));
            }
        }
    }
}

proof fn lemma_sort_len(s: Seq<VersionAttr>)
    ensures
        sort_versions(s).len() == s.len(),
    decreases s.len(),
{
    if s.len() > 0 {
        lemma_sort_len(s.drop_last());
        lemma_insert_pos_bounds(sort_versions(s.drop_last()), s.last());
    }
}

/// Sorting keeps the declarations: the same number, each from the input,
/// and every input among them.
pub proof fn lemma_sort_members(s: Seq<VersionAttr>)
    ensures
        sort_versions(s).len() == s.len(),
        forall|k: int| 0 <= k < s.len() ==> s.contains(#[trigger] sort_versions(s)[k]),
        forall|j: int| 0 <= j < s.len() ==> sort_versions(s).contains(#[trigger] s[j]),
    decreases s.len(),
{
    lemma_sort_len(s);
    if s.len() > 0 {
        let t = s.drop_last();
        let x = s.last();
        let p = sort_versions(t);
        lemma_sort_members(t);
        let q = sort_versions(s);
        let pos = insert_pos(p, x);
        lemma_insert_pos_bounds(p, x);
        assert forall|k: int| 0 <= k < s.len() implies s.contains(#[trigger] q[k]) by {
            if k < pos {
                assert(q[k] == p[k]);
                assert(t.contains(p[k]));
                let j = choose|j: int| 0 <= j < t.len() && t[j] == p[k];
                assert(s[j] == t[j]);
            } else if k == pos {
                assert(q[k] == s[s.len() - 1]);
            } else {
                assert(q[k] == p[k - 1]);
                assert(t.contains(p[k - 1]));
                let j = choose|j: int| 0 <= j < t.len() && t[j] == p[k - 1];
                assert(s[j] == t[j]);
            }
        }
        assert forall|j: int| 0 <= j < s.len() implies q.contains(#[trigger] s[j]) by {
            if j < s.len() - 1 {
                assert(t[j] == s[j]);
                assert(p.contains(t[j]));
                let k = choose|k: int| 0 <= k < p.len() && p[k] == t[j];
                if k < pos {
                    assert(q[k] == p[k]);
                } else {
                    assert(q[k + 1] == p[k]);
                }
            } else {
                assert(q[pos] == s[j]);
            }
        }
    }
}

proof fn lemma_insert_ascending(p: Seq<VersionAttr>, x: VersionAttr)
    requires
        ascending(p),
        forall|k: int| 0 <= k < p.len() ==> p[k].version != x.version,
    ensures
        ascending(p.insert(insert_pos(p, x), x)),
{
    lemma_insert_pos(p, x);
    let pos = insert_pos(p, x);
    let q = p.insert(pos, x);
    assert forall|a: int, b: int| 0 <= a < b < q.len() implies version_lt(q[a].version, q[b].version) by {
        if b < pos {
            assert(q[a] == p[a] && q[b] == p[b]);
        } else if b == pos {
            assert(q[a] == p[a]);
        } else if a < pos {
            assert(q[a] == p[a] && q[b] == p[b - 1]);
            assert(version_lt(p[a].version, x.version));
            assert(version_lt(x.version, p[b - 1].version));
        } else if a == pos {
            assert(q[b] == p[b - 1]);
        } else {
            assert(q[a] == p[a - 1] && q[b] == p[b - 1]);
        }
    }
}

/// Without repeated versions, sorting yields a strictly ascending sequence.
pub proof fn lemma_sort_ascending(s: Seq<VersionAttr>)
    requires
        distinct_versions(s),
    ensures
        ascending(sort_versions(s)),
    decreases s.len(),
{
    if s.len() > 0 {
        let t = s.drop_last();
        let x = s.last();
        let p = sort_versions(t);
        assert(distinct_versions(t)) by {
            assert forall|i: int, j: int| 0 <= i < j < t.len() implies t[i].version != t[j].version by {
                assert(t[i] == s[i] && t[j] == s[j]);
            }
        }
        lemma_sort_ascending(t);
        lemma_sort_members(t);
        assert forall|k: int| 0 <= k < p.len() implies p[k].version != x.version by {
            assert(t.contains(p[k]));
            let j = choose|j: int| 0 <= j < t.len() && t[j] == p[k];
            assert(t[j] == s[j]);
        }
        lemma_insert_ascending(p, x);
    }
}

proof fn lemma_insert_pos_bounds(p: Seq<VersionAttr>, x: VersionAttr)
    ensures
        0 <= insert_pos(p, x) <= p.len(),
    decreases p.len(),
{
    if p.len() > 0 {
        lemma_insert_pos_bounds(p.drop_first(), x);
    }
}

// ----- the shape of a successful expansion -----

/// A successful expansion has one declaration per declared version, in
/// ascending order of version, each the declaration of the item at it.
pub proof fn lemma_expansion_decls(item: ItemView)
    requires
        expansion(item) is Ok,
    ensures
        ({
            let e = expansion(item)->Ok_0;
            let vs = sort_versions(declared_versions(item.attrs));
            &&& preconditions(item) is Ok
            &&& distinct_versions(declared_versions(item.attrs))
            &&& e.decls.len() == vs.len() == declared_versions(item.attrs).len() > 0
            &&& ascending(vs)
            &&& forall|k: int| 0 <= k < vs.len() ==> version_decl(item, vs[k].version) == Ok::<VersionDeclView, DiagnosticView>(#[trigger] e.decls[k])
            &&& forall|k: int| 0 <= k < vs.len() ==> (#[trigger] e.decls[k]).version == vs[k].version
        }),
{
    let declared = declared_versions(item.attrs);
    let e = expansion(item)->Ok_0;
    lemma_first_repeat_none(declared);
    lemma_sort_len(declared);
    lemma_sort_ascending(declared);
    let vs = sort_versions(declared);
    lemma_collect_ok(vs, |a: VersionAttr| version_decl(item, a.version), e.decls);
    assert forall|k: int| 0 <= k < vs.len() implies (#[trigger] e.decls[k]).version == vs[k].version by {
        assert(version_decl(item, vs[k].version) == Ok::<VersionDeclView, DiagnosticView>(e.decls[k]));
    }
}

// ----- the laws -----

/// Expansion is a function of the item: two expansions of equal items give
/// equal results, declaration for declaration and diagnostic for diagnostic.
pub proof fn law_expansion_deterministic(a: ItemView, b: ItemView)
    requires
        a == b,
    ensures
        expansion(a) == expansion(b),
{
}

/// The declarations of distinct versions of one item have distinct names
/// and distinct version texts.
pub proof fn law_version_tags_distinct(item: ItemView, a: int, b: int)
    requires
        expansion(item) is Ok,
        0 <= a < b < expansion(item)->Ok_0.decls.len(),
    ensures
        expansion(item)->Ok_0.decls[a].ident != expansion(item)->Ok_0.decls[b].ident,
        expansion(item)->Ok_0.decls[a].text != expansion(item)->Ok_0.decls[b].text,
        version_lt(expansion(item)->Ok_0.decls[a].version, expansion(item)->Ok_0.decls[b].version),
{
    lemma_expansion_decls(item);
    let e = expansion(item)->Ok_0;
    let vs = sort_versions(declared_versions(item.attrs));
    let va = vs[a].version;
    let vb = vs[b].version;
    assert(version_lt(va, vb));
    assert(va != vb);
    assert(version_decl(item, va) == Ok::<VersionDeclView, DiagnosticView>(e.decls[a]));
    assert(version_decl(item, vb) == Ok::<VersionDeclView, DiagnosticView>(e.decls[b]));
    lemma_tag_injective(item.ident@, va, vb);
    lemma_text_injective(va, vb);
}

/// The declarations cover exactly the declared versions, and the last one,
/// which the item's own name aliases, is the greatest.
pub proof fn law_latest_is_greatest(item: ItemView)
    requires
        expansion(item) is Ok,
    ensures
        ({
            let d = expansion(item)->Ok_0.decls;
            let declared = declared_versions(item.attrs);
            &&& forall|j: int| 0 <= j < declared.len() ==> exists|k: int| 0 <= k < d.len() && d[k].version == #[trigger] declared[j].version
            &&& forall|k: int| 0 <= k < d.len() ==> exists|j: int| 0 <= j < declared.len() && #[trigger] d[k].version == declared[j].version
            &&& forall|k: int| 0 <= k < d.len() - 1 ==> version_lt(#[trigger] d[k].version, d.last().version)
        }),
{
    lemma_expansion_decls(item);
    let declared = declared_versions(item.attrs);
    let d = expansion(item)->Ok_0.decls;
    let vs = sort_versions(declared);
    lemma_sort_members(declared);
    assert forall|j: int| 0 <= j < declared.len() implies exists|k: int| 0 <= k < d.len() && d[k].version == #[trigger] declared[j].version by {
        assert(vs.contains(declared[j]));
        let k = choose|k: int| 0 <= k < vs.len() && vs[k] == declared[j];
        assert(d[k].version == vs[k].version);
    }
    assert forall|k: int| 0 <= k < d.len() implies exists|j: int| 0 <= j < declared.len() && #[trigger] d[k].version == declared[j].version by {
        assert(declared.contains(vs[k]));
        let j = choose|j: int| 0 <= j < declared.len() && declared[j] == vs[k];
        assert(d[k].version == vs[k].version);
    }
    assert forall|k: int| 0 <= k < d.len() - 1 implies version_lt(#[trigger] d[k].version, d.last().version) by {
        assert(d[k].version == vs[k].version);
        assert(d[d.len() - 1].version == vs[d.len() - 1].version);
    }
}

/// Declaring one version twice always fails with the duplicate-version
/// diagnostic, whatever the order of the declarations, once the item
/// carries neither `inherit` nor `cfg` itself.
pub proof fn law_duplicate_rejected(item: ItemView, i: int, j: int)
    requires
        first_helper(item.attrs, Helper::Inherit) is None,
        first_helper(item.attrs, Helper::Cfg) is None,
        0 <= i < j < declared_versions(item.attrs).len(),
        declared_versions(item.attrs)[i].version == declared_versions(item.attrs)[j].version,
    ensures
        expansion(item) matches Err(d) && d.kind is DuplicateVersion,
{
    let declared = declared_versions(item.attrs);
    lemma_first_repeat_none(declared);
    assert(!distinct_versions(declared));
    assert(preconditions(item) is Ok);
}

/// A field is present in the declaration of a version exactly when its
/// constraints admit that version; a field without constraints is present
/// in every declared version.
pub proof fn law_field_presence(item: ItemView, k: int, m: int)
    requires
        expansion(item) is Ok,
        item.body is Struct,
        0 <= k < expansion(item)->Ok_0.decls.len(),
        0 <= m < item.body->Struct_0.len(),
    ensures
        ({
            let d = expansion(item)->Ok_0.decls[k];
            let f = item.body->Struct_0[m];
            &&& d.body is Struct
            &&& (exists|j: int| 0 <= j < d.body->Struct_0.len() && (#[trigger] d.body->Struct_0[j]).index == m)
                    <==> admits(cfg_literals(f.attrs), d.version)
            &&& cfg_literals(f.attrs).len() == 0 ==> exists|j: int| 0 <= j < d.body->Struct_0.len() && (#[trigger] d.body->Struct_0[j]).index == m
        }),
{
    lemma_expansion_decls(item);
    let d = expansion(item)->Ok_0.decls[k];
    let v = d.version;
    let fs = item.body->Struct_0;
    let f = fs[m];
    assert(version_decl(item, v) == Ok::<VersionDeclView, DiagnosticView>(d));
    let out = fields_decl(fs, v)->Ok_0;
    assert(d.body == DeclBodyView::Struct(out));
    let g = |x: crate::item::FieldView, i: int| field_decl(x, i, v);
    lemma_present_ok(fs, g, out);
    assert(g(fs[m], m) is Ok);
    if exists|j: int| 0 <= j < out.len() && (#[trigger] out[j]).index == m {
        let j = choose|j: int| 0 <= j < out.len() && (#[trigger] out[j]).index == m;
        let i = choose|i: int| 0 <= i < fs.len() && g(fs[i], i) == Ok::<Option<FieldDeclView>, DiagnosticView>(Some(#[trigger] out[j]));
        assert(out[j].index == i);
    }
    if admits(cfg_literals(f.attrs), v) {
        assert(g(fs[m], m)->Ok_0 is Some);
        let x = g(fs[m], m)->Ok_0->Some_0;
        let j = choose|j: int| 0 <= j < out.len() && out[j] == x;
        assert(out[j].index == m);
    }
}

/// A present field marked `inherit` with a type path whose last segment
/// names another versioned item has, in the declaration of a version, that
/// segment renamed to the other item's declaration at the same version.
pub proof fn law_inherit_retargets(item: ItemView, k: int, m: int, nested: ItemView, q: int)
    requires
        expansion(item) is Ok,
        item.body is Struct,
        0 <= k < expansion(item)->Ok_0.decls.len(),
        0 <= m < item.body->Struct_0.len(),
        first_helper(item.body->Struct_0[m].attrs, Helper::Inherit) is Some,
        admits(cfg_literals(item.body->Struct_0[m].attrs), expansion(item)->Ok_0.decls[k].version),
        item.body->Struct_0[m].ty matches FieldType::Path { segments, .. }
            && segments@.len() > 0 && segments@.last().ident == nested.ident,
        expansion(nested) is Ok,
        0 <= q < expansion(nested)->Ok_0.decls.len(),
        expansion(nested)->Ok_0.decls[q].version == expansion(item)->Ok_0.decls[k].version,
    ensures
        ({
            let d = expansion(item)->Ok_0.decls[k];
            exists|j: int| 0 <= j < d.body->Struct_0.len()
                && (#[trigger] d.body->Struct_0[j]).index == m
                && d.body->Struct_0[j].ty == TypeDeclView::Retagged(expansion(nested)->Ok_0.decls[q].ident)
        }),
{
    lemma_expansion_decls(item);
    lemma_expansion_decls(nested);
    let d = expansion(item)->Ok_0.decls[k];
    let v = d.version;
    let fs = item.body->Struct_0;
    assert(version_decl(item, v) == Ok::<VersionDeclView, DiagnosticView>(d));
    let out = fields_decl(fs, v)->Ok_0;
    let g = |x: crate::item::FieldView, i: int| field_decl(x, i, v);
    lemma_present_ok(fs, g, out);
    let dn = expansion(nested)->Ok_0.decls[q];
    assert(version_decl(nested, v) == Ok::<VersionDeclView, DiagnosticView>(dn));
    assert(g(fs[m], m) is Ok);
    assert(g(fs[m], m)->Ok_0 is Some);
    let x = g(fs[m], m)->Ok_0->Some_0;
    let j = choose|j: int| 0 <= j < out.len() && out[j] == x;
    assert(out[j].index == m);
    assert(d.body->Struct_0 == out);
    let segs = match fs[m].ty {
        FieldType::Path { segments, .. } => segments,
        FieldType::Other(_) => arbitrary(),
    };
    assert(segs@.last().ident@ == nested.ident@);
    assert(out[j].ty == TypeDeclView::Retagged(version_tag(nested.ident@, v)));
    assert(dn.ident == version_tag(nested.ident@, v));
}

/// Constraint annotations combine by disjunction: a field carrying the
/// constraints of `a` and of `b` is present exactly where either set alone
/// would make it present.
pub proof fn law_constraints_disjoin(a: Seq<Seq<char>>, b: Seq<Seq<char>>, v: Version)
    requires
        a.len() > 0,
        b.len() > 0,
    ensures
        admits(a + b, v) == (admits(a, v) || admits(b, v)),
{
    let c = a + b;
    if admits(a, v) {
        let i = choose|i: int| 0 <= i < a.len() && crate::oracle::range_matches(#[trigger] a[i], v.major, v.minor, v.patch);
        assert(c[i] == a[i]);
    }
    if admits(b, v) {
        let i = choose|i: int| 0 <= i < b.len() && crate::oracle::range_matches(#[trigger] b[i], v.major, v.minor, v.patch);
        assert(c[a.len() + i] == b[i]);
    }
    if admits(c, v) {
        let i = choose|i: int| 0 <= i < c.len() && crate::oracle::range_matches(#[trigger] c[i], v.major, v.minor, v.patch);
        if i < a.len() {
            assert(c[i] == a[i]);
        } else {
            assert(c[i] == b[i - a.len()]);
        }
    }
}


/// A version that no field admits gets a declaration with no fields, and
/// that is no error.
pub proof fn law_empty_declaration(item: ItemView, k: int)
    requires
        expansion(item) is Ok,
        item.body is Struct,
        0 <= k < expansion(item)->Ok_0.decls.len(),
        forall|m: int|
            0 <= m < item.body->Struct_0.len() ==> !admits(
                cfg_literals((#[trigger] item.body->Struct_0[m]).attrs),
                expansion(item)->Ok_0.decls[k].version,
            ),
    ensures
        expansion(item)->Ok_0.decls[k].body == DeclBodyView::Struct(Seq::empty()),
{
    lemma_expansion_decls(item);
    let d = expansion(item)->Ok_0.decls[k];
    let v = d.version;
    let fs = item.body->Struct_0;
    assert(version_decl(item, v) == Ok::<VersionDeclView, DiagnosticView>(d));
    let out = fields_decl(fs, v)->Ok_0;
    let g = |x: crate::item::FieldView, i: int| field_decl(x, i, v);
    lemma_present_ok(fs, g, out);
    if out.len() > 0 {
        let i = choose|i: int| 0 <= i < fs.len() && g(fs[i], i) == Ok::<Option<FieldDeclView>, DiagnosticView>(Some(#[trigger] out[0]));
        assert(!admits(cfg_literals(fs[i].attrs), v));
    }
    assert(out =~= Seq::<FieldDeclView>::empty());
}

/// A variant is present in the declaration of a version exactly when its
/// constraints admit that version.
pub proof fn law_variant_presence(item: ItemView, k: int, m: int)
    requires
        expansion(item) is Ok,
        item.body is Enum,
        0 <= k < expansion(item)->Ok_0.decls.len(),
        0 <= m < item.body->Enum_0.len(),
    ensures
        ({
            let d = expansion(item)->Ok_0.decls[k];
            let var = item.body->Enum_0[m];
            &&& d.body is Enum
            &&& (exists|j: int| 0 <= j < d.body->Enum_0.len() && (#[trigger] d.body->Enum_0[j]).index == m)
                    <==> admits(cfg_literals(var.attrs), d.version)
        }),
{
    lemma_expansion_decls(item);
    let d = expansion(item)->Ok_0.decls[k];
    let v = d.version;
    let vs = item.body->Enum_0;
    assert(version_decl(item, v) == Ok::<VersionDeclView, DiagnosticView>(d));
    let out = variants_decl(vs, v)->Ok_0;
    assert(d.body == DeclBodyView::Enum(out));
    let g = |x: crate::item::VariantView, i: int| variant_decl(x, i, v);
    lemma_present_ok(vs, g, out);
    assert(g(vs[m], m) is Ok);
    if exists|j: int| 0 <= j < out.len() && (#[trigger] out[j]).index == m {
        let j = choose|j: int| 0 <= j < out.len() && (#[trigger] out[j]).index == m;
        let i = choose|i: int| 0 <= i < vs.len() && g(vs[i], i) == Ok::<Option<VariantDeclView>, DiagnosticView>(Some(#[trigger] out[j]));
        assert(out[j].index == i);
    }
    if admits(cfg_literals(vs[m].attrs), v) {
        assert(g(vs[m], m)->Ok_0 is Some);
        let x = g(vs[m], m)->Ok_0->Some_0;
        let j = choose|j: int| 0 <= j < out.len() && out[j] == x;
        assert(out[j].index == m);
    }
}

} // verus!
