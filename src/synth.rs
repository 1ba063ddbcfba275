//! The whole expansion of an annotated item: its declared versions checked
//! and sorted, one declaration per version, the alias of the newest, and
//! the tagged union over all of them.

use vstd::prelude::*;
use crate::attrs::{collect, lemma_collect_prefix_error, lemma_collect_step};
use crate::diagnostic::{plain, Diagnostic, DiagnosticKind, DiagnosticView};
use crate::expand::{version_decl, VersionDecl, VersionDeclView};
use crate::item::{
    AttributeView, ItemView, ObakeAttribute, ObakeAttributeView, RawItem, VersionAttr, VersionedAttribute,
    VersionedAttributes, VersionedItem,
};
use crate::parse::item_parse;
use crate::resolve::{find_helper, first_helper, Helper};
use crate::version::version_lt;

verus! {

/// The version declarations among some attributes, in order.
pub open spec fn declared_versions(attrs: Seq<AttributeView>) -> Seq<VersionAttr>
    decreases attrs.len(),
{
    if attrs.len() == 0 {
        Seq::empty()
    } else {
        let p = declared_versions(attrs.drop_last());
        match attrs.last() {
            AttributeView::Obake(ObakeAttributeView::Version(a)) => p.push(a),
            _ => p,
        }
    }
}

/// What an item must satisfy before its versions are looked at: no
/// `inherit` and no `cfg` on the item itself, and at least one version.
pub open spec fn preconditions(item: ItemView) -> Result<(), DiagnosticView> {
    match first_helper(item.attrs, Helper::Inherit) {
        Some(sp) => Err(plain(DiagnosticKind::MisplacedInherit, sp)),
        None => match first_helper(item.attrs, Helper::Cfg) {
            Some(sp) => Err(plain(DiagnosticKind::MisplacedCfg, sp)),
            None => if declared_versions(item.attrs).len() == 0 {
                Err(plain(DiagnosticKind::MissingVersions, item.keyword_span))
            } else {
                Ok(())
            },
        },
    }
}

/// Declaration `j` names a version declared before it.
pub open spec fn repeats(s: Seq<VersionAttr>, j: int) -> bool {
    exists|i: int| 0 <= i < j && s[i].version == s[j].version
}

/// The first declaration that names a version declared before it.
pub open spec fn first_repeat(s: Seq<VersionAttr>) -> Option<int>
    decreases s.len(),
{
    if s.len() == 0 {
        None
    } else {
        match first_repeat(s.drop_last()) {
            Some(j) => Some(j),
            None => if repeats(s, s.len() - 1) {
                Some(s.len() - 1)
            } else {
                None
            },
        }
    }
}

/// Where `x` goes in an ascending sequence: after every element it does not
/// precede.
pub open spec fn insert_pos(s: Seq<VersionAttr>, x: VersionAttr) -> int
    decreases s.len(),
{
    if s.len() == 0 {
        0
    } else if version_lt(x.version, s[0].version) {
        0
    } else {
        1 + insert_pos(s.drop_first(), x)
    }
}

/// The declarations in ascending order of version, by insertion.
pub open spec fn sort_versions(s: Seq<VersionAttr>) -> Seq<VersionAttr>
    decreases s.len(),
{
    if s.len() == 0 {
        s
    } else {
        let p = sort_versions(s.drop_last());
        p.insert(insert_pos(p, s.last()), s.last())
    }
}

/// The declared versions in ascending order, or the first duplicate.
pub open spec fn extracted_versions(s: Seq<VersionAttr>) -> Result<Seq<VersionAttr>, DiagnosticView> {
    match first_repeat(s) {
        Some(j) => Err(plain(DiagnosticKind::DuplicateVersion(s[j].version), s[j].span)),
        None => Ok(sort_versions(s)),
    }
}

/// The name of the tagged union over all versions of `ident`.
pub open spec fn union_ident(ident: Seq<char>) -> Seq<char> {
    "Versioned"@ + ident
}

/// The expansion of an item, as values.
pub struct ExpansionView {
    pub ident: Seq<char>,
    pub union_ident: Seq<char>,
    pub decls: Seq<VersionDeclView>,
}

/// What an item expands to: after its preconditions hold and its versions
/// are free of duplicates, one declaration per version in ascending order.
pub open spec fn expansion(item: ItemView) -> Result<ExpansionView, DiagnosticView> {
    match preconditions(item) {
        Err(e) => Err(e),
        Ok(_) => match extracted_versions(declared_versions(item.attrs)) {
            Err(e) => Err(e),
            Ok(vs) => match collect(vs, |a: VersionAttr| version_decl(item, a.version)) {
                Err(e) => Err(e),
                Ok(ds) => Ok(ExpansionView { ident: item.ident@, union_ident: union_ident(item.ident@), decls: ds }),
            },
        },
    }
}

/// The expansion of an annotated item.
///
/// The declarations stand in ascending order of version. The item's own
/// name is an alias of the last, the newest. The tagged union, named
/// `union_ident`, has one variant per declaration in the same order, named
/// like the declaration and wrapping it, and carries the item's `derive`
/// payloads. It converts to the newest declaration by migrating one version
/// at a time, each declaration into the next.
#[derive(Debug)]
pub struct Expansion {
    pub ident: String,
    pub union_ident: String,
    pub decls: Vec<VersionDecl>,
}

impl View for Expansion {
    type V = ExpansionView;

    open spec fn view(&self) -> ExpansionView {
        ExpansionView {
            ident: self.ident@,
            union_ident: self.union_ident@,
            decls: self.decls@.map_values(|d: VersionDecl| d@),
        }
    }
}

impl VersionedAttributes {
    /// The version declarations, in order.
    pub fn versions(&self) -> (r: Vec<VersionAttr>)
        ensures
            r@ == declared_versions(self@),
    {
        let ghost all = self@;
        let n = self.attrs.len();
        let mut out: Vec<VersionAttr> = Vec::new();
        let mut i: usize = 0;
        assert(all.take(0) =~= Seq::<AttributeView>::empty());
        while i < n
            invariant
                n == all.len(),
                all == self@,
                n == self.attrs@.len(),
                i <= n,
                out@ == declared_versions(all.take(i as int)),
            decreases n - i,
        {
            assert(all.take(i as int + 1).drop_last() =~= all.take(i as int));
            assert(all.take(i as int + 1).last() == self.attrs@[i as int]@);
            if let VersionedAttribute::Obake(ObakeAttribute::Version(a)) = &self.attrs[i] {
                out.push(*a);
            }
            i = i + 1;
        }
        assert(all.take(n as int) =~= all);
        out
    }
}


/// Once a prefix has a repeat, the first repeat of the whole is that one.
proof fn lemma_first_repeat_prefix(s: Seq<VersionAttr>, i: int)
    requires
        0 <= i <= s.len(),
        first_repeat(s.take(i)) is Some,
    ensures
        first_repeat(s) == first_repeat(s.take(i)),
    decreases s.len() - i,
{
    if i < s.len() {
        assert(s.take(i + 1).drop_last() =~= s.take(i));
        lemma_first_repeat_prefix(s, i + 1);
    } else {
        assert(s.take(i) =~= s);
    }
}

/// Finds the first declaration that repeats an earlier version.
fn find_repeat(s: &Vec<VersionAttr>) -> (r: Option<usize>)
    ensures
        match r {
            Some(j) => j < s@.len() && first_repeat(s@) == Some(j as int),
            None => first_repeat(s@) is None,
        },
{
    let n = s.len();
    let mut j: usize = 0;
    assert(s@.take(0) =~= Seq::<VersionAttr>::empty());
    while j < n
        invariant
            n == s@.len(),
            j <= n,
            first_repeat(s@.take(j as int)) is None,
        decreases n - j,
    {
        let ghost t = s@.take(j as int + 1);
        assert(t.drop_last() =~= s@.take(j as int));
        let mut i: usize = 0;
        let mut found = false;
        while i < j
            invariant
                j < n == s@.len(),
                i <= j,
                t == s@.take(j as int + 1),
                found == exists|k: int| 0 <= k < i && s@[k].version == s@[j as int].version,
            decreases j - i,
        {
            if s[i].version.same(&s[j].version) {
                found = true;
            }
            i = i + 1;
        }
        assert(found == repeats(t, j as int)) by {
            if found {
                let k = choose|k: int| 0 <= k < j && s@[k].version == s@[j as int].version;
                assert(t[k] == s@[k]);
            }
            if repeats(t, j as int) {
                let k = choose|k: int| 0 <= k < j && t[k].version == t[j as int].version;
                assert(t[k] == s@[k]);
            }
        }
        if found {
            proof {
                lemma_first_repeat_prefix(s@, j as int + 1);
            }
            return Some(j);
        }
        j = j + 1;
    }
    assert(s@.take(n as int) =~= s@);
    None
}

/// Inserts `x` into an ascending list at its place.
fn insert_sorted(out: &mut Vec<VersionAttr>, x: VersionAttr)
    ensures
        final(out)@ == old(out)@.insert(insert_pos(old(out)@, x), x),
{
    let ghost s = out@;
    let n = out.len();
    let mut k: usize = 0;
    assert(s.subrange(0, n as int) =~= s);
    while k < n && !x.version.lt(&out[k].version)
        invariant
            out@ == s,
            n == s.len(),
            k <= n,
            insert_pos(s, x) == k + insert_pos(s.subrange(k as int, n as int), x),
        decreases n - k,
    {
        assert(s.subrange(k as int, n as int).drop_first() =~= s.subrange(k as int + 1, n as int));
        k = k + 1;
    }
    if k < n {
        assert(s.subrange(k as int, n as int)[0] == s[k as int]);
    }
    out.insert(k, x);
}

/// The declarations in ascending order of version.
fn sort_versions_exec(s: &Vec<VersionAttr>) -> (r: Vec<VersionAttr>)
    ensures
        r@ == sort_versions(s@),
{
    let n = s.len();
    let mut out: Vec<VersionAttr> = Vec::new();
    let mut i: usize = 0;
    assert(s@.take(0) =~= Seq::<VersionAttr>::empty());
    while i < n
        invariant
            n == s@.len(),
            i <= n,
            out@ == sort_versions(s@.take(i as int)),
        decreases n - i,
    {
        assert(s@.take(i as int + 1).drop_last() =~= s@.take(i as int));
        assert(s@.take(i as int + 1).last() == s@[i as int]);
        insert_sorted(&mut out, s[i]);
        i = i + 1;
    }
    assert(s@.take(n as int) =~= s@);
    out
}

impl VersionedItem {
    /// Checks that the item carries neither `inherit` nor `cfg` itself, and
    /// declares at least one version.
    pub fn check_preconditions(&self) -> (r: Result<(), Diagnostic>)
        ensures
            match r {
                Ok(_) => preconditions(self@) == Ok::<(), DiagnosticView>(()),
                Err(d) => preconditions(self@) == Err::<(), DiagnosticView>(d@),
            },
    {
        if let Some(sp) = find_helper(&self.attrs, Helper::Inherit) {
            return Err(Diagnostic::new(DiagnosticKind::MisplacedInherit, sp));
        }
        if let Some(sp) = find_helper(&self.attrs, Helper::Cfg) {
            return Err(Diagnostic::new(DiagnosticKind::MisplacedCfg, sp));
        }
        if self.attrs.versions().len() == 0 {
            return Err(Diagnostic::new(DiagnosticKind::MissingVersions, self.keyword_span()));
        }
        Ok(())
    }

    /// The declared versions in ascending order; a version declared twice is
    /// reported at its second declaration.
    pub fn extract_versions(&self) -> (r: Result<Vec<VersionAttr>, Diagnostic>)
        ensures
            match r {
                Ok(vs) => extracted_versions(declared_versions(self@.attrs)) == Ok::<_, DiagnosticView>(vs@),
                Err(d) => extracted_versions(declared_versions(self@.attrs)) == Err::<Seq<VersionAttr>, _>(d@),
            },
    {
        let declared = self.attrs.versions();
        match find_repeat(&declared) {
            Some(j) => {
                let d = Diagnostic::new(DiagnosticKind::DuplicateVersion(declared[j].version), declared[j].span);
                assert(first_repeat(declared@) == Some(j as int));
                assert(extracted_versions(declared@) == Err::<Seq<VersionAttr>, _>(d@));
                Err(d)
            },
            None => {
                let vs = sort_versions_exec(&declared);
                assert(extracted_versions(declared@) == Ok::<_, DiagnosticView>(vs@));
                Ok(vs)
            },
        }
    }

    /// Expands the item: checks it, then builds the declaration of every
    /// declared version in ascending order.
    pub fn expand(&self) -> (r: Result<Expansion, Diagnostic>)
        ensures
            match r {
                Ok(e) => expansion(self@) == Ok::<_, DiagnosticView>(e@),
                Err(d) => expansion(self@) == Err::<ExpansionView, _>(d@),
            },
    {
        self.check_preconditions()?;
        let versions = self.extract_versions()?;
        assert(preconditions(self@) == Ok::<(), DiagnosticView>(()));
        let ghost item = self@;
        let ghost vs = versions@;
        let n = versions.len();
        let mut decls: Vec<VersionDecl> = Vec::new();
        let mut i: usize = 0;
        assert(vs.take(0) =~= Seq::<VersionAttr>::empty());
        assert(decls@.map_values(|d: VersionDecl| d@) =~= Seq::<VersionDeclView>::empty());
        while i < n
            invariant
                n == vs.len(),
                vs == versions@,
                item == self@,
                preconditions(item) == Ok::<(), DiagnosticView>(()),
                extracted_versions(declared_versions(item.attrs)) == Ok::<_, DiagnosticView>(vs),
                i <= n,
                collect(vs.take(i as int), |a: VersionAttr| version_decl(item, a.version))
                    == Ok::<_, DiagnosticView>(decls@.map_values(|d: VersionDecl| d@)),
            decreases n - i,
        {
            proof {
                lemma_collect_step(vs, |a: VersionAttr| version_decl(item, a.version), i as int);
            }
            match self.expand_version(&versions[i].version) {
                Err(d) => {
                    proof {
                        lemma_collect_prefix_error(vs, |a: VersionAttr| version_decl(item, a.version), i as int + 1);
                    }
                    return Err(d);
                },
                Ok(d) => {
                    let ghost before = decls@;
                    decls.push(d);
                    assert(decls@.map_values(|x: VersionDecl| x@) =~= before.map_values(|x: VersionDecl| x@).push(d@));
                },
            }
            i = i + 1;
        }
        assert(vs.take(n as int) =~= vs);
        let mut union_ident = String::from_str("Versioned");
        union_ident.append(self.ident().as_str());
        Ok(Expansion { ident: self.ident().clone(), union_ident, decls })
    }
}


impl Expansion {
    /// The declaration of the newest version, which the item's own name
    /// aliases and the union converts to.
    pub fn latest(&self) -> (r: &VersionDecl)
        requires
            self.decls@.len() > 0,
        ensures
            r@ == self@.decls.last(),
    {
        &self.decls[self.decls.len() - 1]
    }

    /// The name of the declaration of the version whose text is `text`, so
    /// that a version can be named by its literal.
    pub fn lookup(&self, text: &str) -> (r: Option<&String>)
        ensures
            match r {
                Some(t) => exists|i: int|
                    0 <= i < self@.decls.len() && (#[trigger] self@.decls[i]).text == text@ && t@
                        == self@.decls[i].ident,
                None => forall|i: int| 0 <= i < self@.decls.len() ==> (#[trigger] self@.decls[i]).text != text@,
            },
    {
        let key = String::from_str(text);
        let mut i: usize = 0;
        while i < self.decls.len()
            invariant
                i <= self.decls@.len(),
                key@ == text@,
                forall|k: int| 0 <= k < i ==> (#[trigger] self@.decls[k]).text != text@,
            decreases self.decls.len() - i,
        {
            assert(self@.decls[i as int] == self.decls@[i as int]@);
            if self.decls[i].text == key {
                return Some(&self.decls[i].ident);
            }
            i = i + 1;
        }
        None
    }
}

/// Parses an annotated declaration and expands it.
pub open spec fn versioned_spec(raw: RawItem) -> Result<ExpansionView, DiagnosticView> {
    match item_parse(raw) {
        Err(e) => Err(e),
        Ok(item) => expansion(item),
    }
}

/// Parses an annotated declaration as the host parser hands it over, and
/// expands it: the classified item, which the declarations refer to by
/// position, and its expansion; or the first diagnostic.
pub fn versioned(raw: RawItem) -> (r: Result<(VersionedItem, Expansion), Diagnostic>)
    ensures
        match r {
            Ok((item, e)) => item_parse(raw) == Ok::<_, DiagnosticView>(item@)
                && versioned_spec(raw) == Ok::<_, DiagnosticView>(e@),
            Err(d) => versioned_spec(raw) == Err::<ExpansionView, _>(d@),
        },
{
    let item = VersionedItem::parse(raw)?;
    let e = item.expand()?;
    Ok((item, e))
}

} // verus!
