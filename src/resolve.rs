//! Which fields and variants exist in a version.

use vstd::prelude::*;
use crate::item::{AttributeView, ObakeAttribute, ObakeAttributeView, VersionedAttribute, VersionedAttributes};
use crate::oracle::range_matches;
use crate::version::Version;

verus! {

/// The constraint literals among some attributes, in order.
pub open spec fn cfg_literals(attrs: Seq<AttributeView>) -> Seq<Seq<char>>
    decreases attrs.len(),
{
    if attrs.len() == 0 {
        Seq::empty()
    } else {
        let p = cfg_literals(attrs.drop_last());
        match attrs.last() {
            AttributeView::Obake(ObakeAttributeView::Cfg(t, _)) => p.push(t),
            _ => p,
        }
    }
}

/// A set of constraints admits a version when it is empty, or when any one
/// of them matches the version. Within one constraint all comparisons must
/// hold; that is the range semantics of the oracle.
pub open spec fn admits(reqs: Seq<Seq<char>>, v: Version) -> bool {
    reqs.len() == 0 || exists|i: int| 0 <= i < reqs.len() && range_matches(#[trigger] reqs[i], v.major, v.minor, v.patch)
}

/// The framework helpers that are legal in some places and not in others.
#[derive(Clone, Copy, Debug, PartialEq, Eq, Structural)]
pub enum Helper {
    Cfg,
    Inherit,
    Derive,
}

/// The span of an attribute if it is the helper `h`.
pub open spec fn helper_span(a: AttributeView, h: Helper) -> Option<u64> {
    match a {
        AttributeView::Obake(ObakeAttributeView::Cfg(_, s)) => if h == Helper::Cfg { Some(s) } else { None },
        AttributeView::Obake(ObakeAttributeView::Inherit(s)) => if h == Helper::Inherit { Some(s) } else { None },
        AttributeView::Obake(ObakeAttributeView::Derive(_, s)) => if h == Helper::Derive { Some(s) } else { None },
        _ => None,
    }
}

/// The span of the first helper `h` among some attributes.
pub open spec fn first_helper(attrs: Seq<AttributeView>, h: Helper) -> Option<u64>
    decreases attrs.len(),
{
    if attrs.len() == 0 {
        None
    } else {
        match first_helper(attrs.drop_last(), h) {
            Some(s) => Some(s),
            None => helper_span(attrs.last(), h),
        }
    }
}

/// Finds the first helper `h` among the attributes.
pub fn find_helper(attrs: &VersionedAttributes, h: Helper) -> (r: Option<u64>)
    ensures
        r == first_helper(attrs@, h),
{
    let ghost all = attrs@;
    let n = attrs.attrs.len();
    let mut i: usize = 0;
    assert(all.take(0) =~= Seq::<AttributeView>::empty());
    while i < n
        invariant
            n == all.len(),
            all == attrs@,
            n == attrs.attrs@.len(),
            i <= n,
            first_helper(all.take(i as int), h) is None,
        decreases n - i,
    {
        assert(all.take(i as int + 1).drop_last() =~= all.take(i as int));
        assert(all.take(i as int + 1).last() == attrs.attrs@[i as int]@);
        let found = match &attrs.attrs[i] {
            VersionedAttribute::Obake(ObakeAttribute::Cfg(c)) => if h == Helper::Cfg { Some(c.span) } else { None },
            VersionedAttribute::Obake(ObakeAttribute::Inherit(a)) => if h == Helper::Inherit { Some(a.span) } else { None },
            VersionedAttribute::Obake(ObakeAttribute::Derive(d)) => if h == Helper::Derive { Some(d.span) } else { None },
            _ => None,
        };
        if found.is_some() {
            proof {
                lemma_first_helper_prefix(all, h, i as int + 1);
            }
            return found;
        }
        i = i + 1;
    }
    assert(all.take(n as int) =~= all);
    None
}

/// Once a prefix holds the helper, its first occurrence is the first of the whole.
pub proof fn lemma_first_helper_prefix(s: Seq<AttributeView>, h: Helper, i: int)
    requires
        0 <= i <= s.len(),
        first_helper(s.take(i), h) is Some,
    ensures
        first_helper(s, h) == first_helper(s.take(i), h),
    decreases s.len() - i,
{
    if i < s.len() {
        assert(s.take(i + 1).drop_last() =~= s.take(i));
        lemma_first_helper_prefix(s, h, i + 1);
    } else {
        assert(s.take(i) =~= s);
    }
}

/// Whether the field or variant carrying `attrs` exists in version `v`:
/// true when it carries no constraint, or when any of its constraints
/// matches `v`.
pub fn resolve(attrs: &VersionedAttributes, v: &Version) -> (r: bool)
    ensures
        r == admits(cfg_literals(attrs@), *v),
{
    let ghost all = attrs@;
    let n = attrs.attrs.len();
    let mut seen: bool = false;
    let mut any: bool = false;
    let mut i: usize = 0;
    assert(all.take(0) =~= Seq::<AttributeView>::empty());
    while i < n
        invariant
            n == all.len(),
            all == attrs@,
            n == attrs.attrs@.len(),
            i <= n,
            seen == (cfg_literals(all.take(i as int)).len() > 0),
            any == exists|j: int|
                0 <= j < cfg_literals(all.take(i as int)).len() && range_matches(
                    #[trigger] cfg_literals(all.take(i as int))[j],
                    v.major,
                    v.minor,
                    v.patch,
                ),
        decreases n - i,
    {
        let ghost before = cfg_literals(all.take(i as int));
        assert(all.take(i as int + 1).drop_last() =~= all.take(i as int));
        assert(all.take(i as int + 1).last() == attrs.attrs@[i as int]@);
        match &attrs.attrs[i] {
            VersionedAttribute::Obake(ObakeAttribute::Cfg(c)) => {
                seen = true;
                let m = c.req.matches(v);
                let ghost now = cfg_literals(all.take(i as int + 1));
                assert(now == before.push(c.req@));
                if m {
                    assert(range_matches(now[before.len() as int], v.major, v.minor, v.patch));
                }
                assert(any || m <==> exists|j: int| 0 <= j < now.len() && range_matches(#[trigger] now[j], v.major, v.minor, v.patch)) by {
                    if exists|j: int| 0 <= j < now.len() && range_matches(#[trigger] now[j], v.major, v.minor, v.patch) {
                        let j = choose|j: int| 0 <= j < now.len() && range_matches(#[trigger] now[j], v.major, v.minor, v.patch);
                        if j < before.len() {
                            assert(before[j] == now[j]);
                        }
                    }
                    if any {
                        let j = choose|j: int| 0 <= j < before.len() && range_matches(#[trigger] before[j], v.major, v.minor, v.patch);
                        assert(now[j] == before[j]);
                    }
                }
                any = any || m;
            },
            _ => {
                assert(cfg_literals(all.take(i as int + 1)) == before);
            },
        }
        i = i + 1;
    }
    assert(all.take(n as int) =~= all);
    !seen || any
}

} // verus!
