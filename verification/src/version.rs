//! Semantic versions: a triple of numbers written `major.minor.patch`,
//! ordered lexicographically.

use crate::text::{
    all_digits, chars_of, count, decimal, find, find_from, lemma_count_find,
    lemma_decimal_digits, lemma_find, lemma_find_unique, number_of, parse_decimal, push_decimal,
};
use std::cmp::Ordering;
use vstd::prelude::*;
use vstd::std_specs::cmp::{PartialOrdSpec, PartialOrdSpecImpl};

verus! {

/// A version of a release: major, minor and patch level.
#[derive(Clone, Copy, Debug, PartialEq, Eq, Structural)]
pub struct Version {
    pub major: u32,
    pub minor: u32,
    pub patch: u32,
}

/// Why a string is not a version.
#[derive(Clone, Copy, Debug, PartialEq, Eq, Structural)]
pub enum VersionError {
    /// The string does not hold exactly two dots.
    Separators,
    /// A part between the dots is empty, holds something other than decimal
    /// digits, or does not fit in 32 bits.
    Number,
}

/// The three parts of `s` around its first two dots.
pub open spec fn parts(s: Seq<char>) -> (Seq<char>, Seq<char>, Seq<char>) {
    let i = find(s, '.');
    let rest = s.subrange(i + 1, s.len() as int);
    let j = find(rest, '.');
    (s.subrange(0, i), rest.subrange(0, j), rest.subrange(j + 1, rest.len() as int))
}

/// What a string means as a version: with exactly two dots and a number in
/// each of the three parts it is that triple, otherwise an error.
pub open spec fn parse_version(s: Seq<char>) -> Result<Version, VersionError> {
    if count(s, '.') != 2 {
        Err(VersionError::Separators)
    } else {
        let (a, b, c) = parts(s);
        match (number_of(a), number_of(b), number_of(c)) {
            (Some(major), Some(minor), Some(patch)) => Ok(Version { major, minor, patch }),
            _ => Err(VersionError::Number),
        }
    }
}

/// How a version is written: the three numbers in decimal, joined by dots.
pub open spec fn render_version(v: Version) -> Seq<char> {
    decimal(v.major as nat) + seq!['.'] + decimal(v.minor as nat) + seq!['.'] + decimal(
        v.patch as nat,
    )
}

/// Whether `a` comes strictly before `b`: lexicographic order on
/// (major, minor, patch).
pub open spec fn precedes(a: Version, b: Version) -> bool {
    a.major < b.major || (a.major == b.major && (a.minor < b.minor || (a.minor == b.minor
        && a.patch < b.patch)))
}

impl Version {
    /// A version from its three levels.
    pub fn new(major: u32, minor: u32, patch: u32) -> (r: Version)
        ensures
            r == (Version { major, minor, patch }),
    {
        Version { major, minor, patch }
    }

    /// Reads a version from its dotted decimal form.
    pub fn from_str(s: &str) -> (r: Result<Version, VersionError>)
        ensures
            r == parse_version(s@),
    {
        let chars = chars_of(s);
        let n = chars.len();
        let i = find_from(&chars, 0, n, '.');
        proof {
            assert(chars@.subrange(0, n as int) == s@);
            lemma_count_find(s@, '.');
            lemma_find(s@, '.');
        }
        if i == n {
            return Err(VersionError::Separators);
        }
        let ghost rest = s@.subrange(i + 1, n as int);
        let j = find_from(&chars, i + 1, n, '.');
        proof {
            assert(chars@.subrange(i + 1, n as int) == rest);
            lemma_count_find(rest, '.');
            lemma_find(rest, '.');
        }
        if j == n {
            return Err(VersionError::Separators);
        }
        let ghost last = rest.subrange(j - i, rest.len() as int);
        let k = find_from(&chars, j + 1, n, '.');
        proof {
            assert(chars@.subrange(j + 1, n as int) == last);
            lemma_count_find(last, '.');
            lemma_find(last, '.');
        }
        if k != n {
            return Err(VersionError::Separators);
        }
        proof {
            assert(chars@.subrange(0, i as int) == parts(s@).0);
            assert(chars@.subrange(i + 1, j as int) == parts(s@).1);
            assert(chars@.subrange(j + 1, n as int) == parts(s@).2);
        }
        let major = parse_decimal(&chars, 0, i);
        let minor = parse_decimal(&chars, i + 1, j);
        let patch = parse_decimal(&chars, j + 1, n);
        match (major, minor, patch) {
            (Some(major), Some(minor), Some(patch)) => Ok(Version { major, minor, patch }),
            _ => Err(VersionError::Number),
        }
    }

    /// Writes the version in its dotted decimal form.
    pub fn to_string(&self) -> (r: String)
        ensures
            r@ == render_version(*self),
    {
        let mut out = String::new();
        push_decimal(&mut out, self.major);
        out.push('.');
        push_decimal(&mut out, self.minor);
        out.push('.');
        push_decimal(&mut out, self.patch);
        assert(out@ =~= render_version(*self));
        out
    }

    /// Tests whether this version comes strictly after `other`.
    pub fn newer_than(&self, other: &Version) -> (r: bool)
        ensures
            r == precedes(*other, *self),
    {
        if self.major != other.major {
            self.major > other.major
        } else if self.minor != other.minor {
            self.minor > other.minor
        } else {
            self.patch > other.patch
        }
    }
}

impl PartialOrdSpecImpl for Version {
    open spec fn obeys_partial_cmp_spec() -> bool {
        true
    }

    open spec fn partial_cmp_spec(&self, other: &Version) -> Option<Ordering> {
        if precedes(*self, *other) {
            Some(Ordering::Less)
        } else if precedes(*other, *self) {
            Some(Ordering::Greater)
        } else {
            Some(Ordering::Equal)
        }
    }
}

impl PartialOrd for Version {
    fn partial_cmp(&self, other: &Version) -> (r: Option<Ordering>) {
        if other.newer_than(self) {
            Some(Ordering::Less)
        } else if self.newer_than(other) {
            Some(Ordering::Greater)
        } else {
            Some(Ordering::Equal)
        }
    }
}

/// The order of versions is a strict total order: of two versions exactly
/// one comes first, unless they are equal.
pub proof fn lemma_order_total(a: Version, b: Version)
    ensures
        precedes(a, b) || precedes(b, a) || a == b,
        !(precedes(a, b) && precedes(b, a)),
        !precedes(a, a),
{
}

/// The order of versions is transitive.
pub proof fn lemma_order_transitive(a: Version, b: Version, c: Version)
    requires
        precedes(a, b),
        precedes(b, c),
    ensures
        precedes(a, c),
{
}

/// A string that does not hold exactly two dots is no version.
pub proof fn lemma_two_dots_needed(s: Seq<char>)
    requires
        count(s, '.') != 2,
    ensures
        parse_version(s) == Err::<Version, VersionError>(VersionError::Separators),
{
}

/// Two versions compare as equal exactly when they are the same triple.
pub proof fn lemma_equal_compare_equal(a: Version, b: Version)
    ensures
        PartialOrdSpec::partial_cmp_spec(&a, &b) == Some(Ordering::Equal) <==> a == b,
        PartialOrdSpec::partial_cmp_spec(&a, &b) == Some(Ordering::Less) <==> precedes(a, b),
        PartialOrdSpec::partial_cmp_spec(&a, &b) == Some(Ordering::Greater) <==> precedes(b, a),
{
}

/// A string that parses holds exactly two dots, and three runs of digits
/// around them.
pub proof fn lemma_parse_shape(s: Seq<char>)
    requires
        parse_version(s) is Ok,
    ensures
        count(s, '.') == 2,
        all_digits(parts(s).0) && parts(s).0.len() > 0,
        all_digits(parts(s).1) && parts(s).1.len() > 0,
        all_digits(parts(s).2) && parts(s).2.len() > 0,
{
}

/// No decimal digit is a dot, so a run of digits holds none.
proof fn lemma_digits_hold_no_dot(s: Seq<char>)
    requires
        all_digits(s),
    ensures
        find(s, '.') == s.len(),
{
    lemma_find_unique(s, '.', s.len() as int);
}

/// Writing a version and reading it back gives the same version.
pub proof fn lemma_render_parses(v: Version)
    ensures
        parse_version(render_version(v)) == Ok::<Version, VersionError>(v),
{
    let a = decimal(v.major as nat);
    let b = decimal(v.minor as nat);
    let c = decimal(v.patch as nat);
    lemma_decimal_digits(v.major as nat);
    lemma_decimal_digits(v.minor as nat);
    lemma_decimal_digits(v.patch as nat);
    let s = render_version(v);
    let i = a.len() as int;
    assert(s =~= a + seq!['.'] + (b + seq!['.'] + c));
    assert forall|k: int| 0 <= k < i implies s[k] != '.' by {
        assert(s[k] == a[k]);
    }
    assert(s[i] == '.');
    lemma_find_unique(s, '.', i);
    let rest = s.subrange(i + 1, s.len() as int);
    assert(rest =~= b + seq!['.'] + c);
    let j = b.len() as int;
    assert forall|k: int| 0 <= k < j implies rest[k] != '.' by {
        assert(rest[k] == b[k]);
    }
    assert(rest[j] == '.');
    lemma_find_unique(rest, '.', j);
    let last = rest.subrange(j + 1, rest.len() as int);
    assert(last =~= c);
    lemma_digits_hold_no_dot(c);
    lemma_count_find(s, '.');
    lemma_count_find(rest, '.');
    lemma_count_find(last, '.');
    assert(s.subrange(0, i) =~= a);
    assert(rest.subrange(0, j) =~= b);
}

} // verus!
