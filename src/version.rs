//! Semantic versions as plain triples, their order, and their spellings.

use vstd::prelude::*;

verus! {

/// A semantic version without pre-release or build metadata.
#[derive(Clone, Copy, Debug, PartialEq, Eq, Structural)]
pub struct Version {
    pub major: u64,
    pub minor: u64,
    pub patch: u64,
}

/// Strict precedence of versions: lexicographic on (major, minor, patch).
pub open spec fn version_lt(a: Version, b: Version) -> bool {
    ||| a.major < b.major
    ||| (a.major == b.major && a.minor < b.minor)
    ||| (a.major == b.major && a.minor == b.minor && a.patch < b.patch)
}

/// The decimal digit character for `d < 10`.
pub open spec fn digit_char(d: nat) -> char {
    if d == 0 { '0' }
    else if d == 1 { '1' }
    else if d == 2 { '2' }
    else if d == 3 { '3' }
    else if d == 4 { '4' }
    else if d == 5 { '5' }
    else if d == 6 { '6' }
    else if d == 7 { '7' }
    else if d == 8 { '8' }
    else { '9' }
}

pub open spec fn is_digit(c: char) -> bool {
    '0' <= c && c <= '9'
}

/// Decimal spelling of a natural number, without leading zeros.
pub open spec fn decimal(n: nat) -> Seq<char>
    decreases n,
{
    if n < 10 {
        seq![digit_char(n)]
    } else {
        decimal(n / 10).push(digit_char(n % 10))
    }
}

/// The canonical text of a version: `major.minor.patch`.
pub open spec fn version_text(v: Version) -> Seq<char> {
    decimal(v.major as nat) + seq!['.'] + decimal(v.minor as nat) + seq!['.'] + decimal(
        v.patch as nat,
    )
}

/// The name of the declaration of `ident` at version `v`:
/// `{ident}_v{major}_{minor}_{patch}`.
pub open spec fn version_tag(ident: Seq<char>, v: Version) -> Seq<char> {
    ident + seq!['_', 'v'] + decimal(v.major as nat) + seq!['_'] + decimal(v.minor as nat)
        + seq!['_'] + decimal(v.patch as nat)
}

impl Version {
    pub fn new(major: u64, minor: u64, patch: u64) -> (r: Version)
        ensures
            r == (Version { major, minor, patch }),
    {
        Version { major, minor, patch }
    }

    /// Whether `self` precedes `other`.
    pub fn lt(&self, other: &Version) -> (r: bool)
        ensures
            r == version_lt(*self, *other),
    {
        if self.major != other.major {
            self.major < other.major
        } else if self.minor != other.minor {
            self.minor < other.minor
        } else {
            self.patch < other.patch
        }
    }

    /// Whether the two versions are the same triple.
    pub fn same(&self, other: &Version) -> (r: bool)
        ensures
            r == (*self == *other),
    {
        self.major == other.major && self.minor == other.minor && self.patch == other.patch
    }

    /// The canonical text `major.minor.patch`.
    pub fn text(&self) -> (r: String)
        ensures
            r@ == version_text(*self),
    {
        let mut s = String::new();
        push_decimal(&mut s, self.major);
        s.append(".");
        push_decimal(&mut s, self.minor);
        s.append(".");
        push_decimal(&mut s, self.patch);
        proof {
            reveal_strlit(".");
        }
        s
    }
}

/// The name of the declaration of `ident` at version `v`.
pub fn tag(ident: &str, v: &Version) -> (r: String)
    ensures
        r@ == version_tag(ident@, *v),
{
    let mut s = String::from_str(ident);
    s.append("_v");
    push_decimal(&mut s, v.major);
    s.append("_");
    push_decimal(&mut s, v.minor);
    s.append("_");
    push_decimal(&mut s, v.patch);
    proof {
        reveal_strlit("_v");
        reveal_strlit("_");
    }
    s
}

fn digit_str(d: u64) -> (r: &'static str)
    requires
        d < 10,
    ensures
        r@ == seq![digit_char(d as nat)],
{
    proof {
        reveal_strlit("0");
        reveal_strlit("1");
        reveal_strlit("2");
        reveal_strlit("3");
        reveal_strlit("4");
        reveal_strlit("5");
        reveal_strlit("6");
        reveal_strlit("7");
        reveal_strlit("8");
        reveal_strlit("9");
    }
    if d == 0 { "0" }
    else if d == 1 { "1" }
    else if d == 2 { "2" }
    else if d == 3 { "3" }
    else if d == 4 { "4" }
    else if d == 5 { "5" }
    else if d == 6 { "6" }
    else if d == 7 { "7" }
    else if d == 8 { "8" }
    else { "9" }
}

/// Appends the decimal spelling of `n` to `s`.
pub fn push_decimal(s: &mut String, n: u64)
    ensures
        final(s)@ == old(s)@ + decimal(n as nat),
    decreases n,
{
    if n >= 10 {
        push_decimal(s, n / 10);
        s.append(digit_str(n % 10));
        assert(decimal(n as nat) == decimal((n / 10) as nat).push(digit_char((n % 10) as nat)));
        assert(s@ =~= old(s)@ + decimal(n as nat));
    } else {
        s.append(digit_str(n));
    }
}


/// Every character of a decimal spelling is a digit, and there is at least one.
pub proof fn lemma_decimal_digits(n: nat)
    ensures
        decimal(n).len() >= 1,
        forall|i: int| 0 <= i < decimal(n).len() ==> #[trigger] is_digit(decimal(n)[i]),
    decreases n,
{
    if n >= 10 {
        lemma_decimal_digits(n / 10);
        assert forall|i: int| 0 <= i < decimal(n).len() implies #[trigger] is_digit(decimal(n)[i]) by {
            if i < decimal(n / 10).len() {
                assert(decimal(n)[i] == decimal(n / 10)[i]);
            }
        }
    }
}

/// Distinct numbers have distinct decimal spellings.
pub proof fn lemma_decimal_injective(a: nat, b: nat)
    requires
        decimal(a) == decimal(b),
    ensures
        a == b,
    decreases a,
{
    if a < 10 && b < 10 {
        assert(decimal(a)[0] == digit_char(a));
        assert(decimal(b)[0] == digit_char(b));
    } else if a < 10 {
        lemma_decimal_digits(b / 10);
        assert(decimal(b).len() >= 2);
    } else if b < 10 {
        lemma_decimal_digits(a / 10);
        assert(decimal(a).len() >= 2);
    } else {
        let da = decimal(a);
        assert(da.last() == digit_char(a % 10));
        assert(decimal(b).last() == digit_char(b % 10));
        assert(da.drop_last() =~= decimal(a / 10));
        assert(decimal(b).drop_last() =~= decimal(b / 10));
        lemma_decimal_injective(a / 10, b / 10);
    }
}

/// A separator that occurs in neither left part splits a joined sequence
/// in only one way.
pub proof fn lemma_split_unique(x1: Seq<char>, y1: Seq<char>, x2: Seq<char>, y2: Seq<char>, sep: char)
    requires
        x1 + seq![sep] + y1 == x2 + seq![sep] + y2,
        forall|i: int| 0 <= i < x1.len() ==> x1[i] != sep,
        forall|i: int| 0 <= i < x2.len() ==> x2[i] != sep,
    ensures
        x1 == x2,
        y1 == y2,
{
    let j1 = x1 + seq![sep] + y1;
    let j2 = x2 + seq![sep] + y2;
    if x1.len() < x2.len() {
        assert(j1[x1.len() as int] == sep);
        assert(j2[x1.len() as int] == x2[x1.len() as int]);
    } else if x2.len() < x1.len() {
        assert(j2[x2.len() as int] == sep);
        assert(j1[x2.len() as int] == x1[x2.len() as int]);
    }
    assert(x1 =~= j1.subrange(0, x1.len() as int));
    assert(x2 =~= j2.subrange(0, x2.len() as int));
    assert(y1 =~= j1.subrange(x1.len() as int + 1, j1.len() as int));
    assert(y2 =~= j2.subrange(x2.len() as int + 1, j2.len() as int));
}

proof fn lemma_decimal_free_of(n: nat, c: char)
    requires
        !is_digit(c),
    ensures
        forall|i: int| 0 <= i < decimal(n).len() ==> decimal(n)[i] != c,
{
    lemma_decimal_digits(n);
    assert forall|i: int| 0 <= i < decimal(n).len() implies decimal(n)[i] != c by {
        assert(is_digit(decimal(n)[i]));
    }
}

/// Three numbers joined by a non-digit separator determine the numbers.
proof fn lemma_triple_unique(a: Version, b: Version, sep: char)
    requires
        !is_digit(sep),
        decimal(a.major as nat) + seq![sep] + (decimal(a.minor as nat) + seq![sep] + decimal(a.patch as nat))
            == decimal(b.major as nat) + seq![sep] + (decimal(b.minor as nat) + seq![sep] + decimal(b.patch as nat)),
    ensures
        a == b,
{
    lemma_decimal_free_of(a.major as nat, sep);
    lemma_decimal_free_of(b.major as nat, sep);
    lemma_decimal_free_of(a.minor as nat, sep);
    lemma_decimal_free_of(b.minor as nat, sep);
    lemma_split_unique(
        decimal(a.major as nat),
        decimal(a.minor as nat) + seq![sep] + decimal(a.patch as nat),
        decimal(b.major as nat),
        decimal(b.minor as nat) + seq![sep] + decimal(b.patch as nat),
        sep,
    );
    lemma_split_unique(
        decimal(a.minor as nat),
        decimal(a.patch as nat),
        decimal(b.minor as nat),
        decimal(b.patch as nat),
        sep,
    );
    lemma_decimal_injective(a.major as nat, b.major as nat);
    lemma_decimal_injective(a.minor as nat, b.minor as nat);
    lemma_decimal_injective(a.patch as nat, b.patch as nat);
}

/// Distinct versions of one item get distinct declaration names.
pub proof fn lemma_tag_injective(ident: Seq<char>, v1: Version, v2: Version)
    requires
        v1 != v2,
    ensures
        version_tag(ident, v1) != version_tag(ident, v2),
{
    if version_tag(ident, v1) == version_tag(ident, v2) {
        let t1 = version_tag(ident, v1);
        let t2 = version_tag(ident, v2);
        let k: int = ident.len() as int + 2;
        let r1 = decimal(v1.major as nat) + seq!['_'] + (decimal(v1.minor as nat) + seq!['_'] + decimal(v1.patch as nat));
        let r2 = decimal(v2.major as nat) + seq!['_'] + (decimal(v2.minor as nat) + seq!['_'] + decimal(v2.patch as nat));
        assert(t1 =~= ident + seq!['_', 'v'] + r1);
        assert(t2 =~= ident + seq!['_', 'v'] + r2);
        assert(r1 =~= t1.subrange(k, t1.len() as int));
        assert(r2 =~= t2.subrange(k, t2.len() as int));
        lemma_triple_unique(v1, v2, '_');
    }
}

/// Distinct versions have distinct canonical texts.
pub proof fn lemma_text_injective(v1: Version, v2: Version)
    requires
        v1 != v2,
    ensures
        version_text(v1) != version_text(v2),
{
    if version_text(v1) == version_text(v2) {
        assert(version_text(v1) =~= decimal(v1.major as nat) + seq!['.'] + (decimal(v1.minor as nat) + seq!['.'] + decimal(v1.patch as nat)));
        assert(version_text(v2) =~= decimal(v2.major as nat) + seq!['.'] + (decimal(v2.minor as nat) + seq!['.'] + decimal(v2.patch as nat)));
        lemma_triple_unique(v1, v2, '.');
    }
}

} // verus!
