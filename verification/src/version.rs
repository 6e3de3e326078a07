//! Versions of the native interface: how a version literal is read, how
//! versions are ordered, and the sentinel that marks a reserved slot.

use std::cmp::Ordering;
use vstd::prelude::*;
use vstd::std_specs::cmp::PartialOrdSpecImpl;
use vstd::string::*;

use crate::decimal::{
    decimal, is_digit, lemma_decimal, lemma_u16_of_decimal, parse_u16, push_decimal, u16_of,
};
use crate::text::{find_char, first_index_of, lemma_first_index_of, same_text};

verus! {

/// The major number of the sentinel that stands for a slot reserved for
/// future use. No release carries it.
pub const RESERVED_MAJOR: u16 = 999;

/// A release of the native interface. Versions are ordered by `major`, then
/// by `minor`.
#[derive(Debug, Copy, Clone, PartialEq, Eq, Ord, Hash, Structural)]
pub struct Version {
    pub major: u16,
    pub minor: u16,
}

/// A version literal that is neither `major`, `major.minor` nor `reserved`.
#[derive(Debug, Copy, Clone, PartialEq, Eq, Structural)]
pub struct ParseError;

impl ParseError {
    /// What the error says to the person who wrote the literal.
    pub fn message(&self) -> (m: &'static str)
        ensures
            m@ == "Expected \"major.minor\" version number or \"reserved\""@,
    {
        "Expected \"major.minor\" version number or \"reserved\""
    }
}

impl Version {
    /// Whether `self` comes strictly before `other`.
    pub open spec fn precedes(self, other: Version) -> bool {
        self.major < other.major || (self.major == other.major && self.minor < other.minor)
    }

    /// Whether `self` comes before `other` or equals it.
    pub open spec fn at_most(self, other: Version) -> bool {
        self == other || self.precedes(other)
    }

    /// Whether `self` is the sentinel of a reserved slot: the one version that
    /// the literal `reserved` reads as.
    pub open spec fn is_reserved(self) -> bool {
        self.major == RESERVED_MAJOR && self.minor == 0
    }

    /// The sentinel that the literal `reserved` stands for.
    pub fn reserved() -> (v: Version)
        ensures
            v == (Version { major: RESERVED_MAJOR, minor: 0 }),
    {
        Version { major: RESERVED_MAJOR, minor: 0 }
    }

    /// How `self` stands to `other` in the order of versions.
    pub fn cmp(&self, other: &Version) -> (o: Ordering)
        ensures
            o == Ordering::Less <==> self.precedes(*other),
            o == Ordering::Equal <==> *self == *other,
            o == Ordering::Greater <==> other.precedes(*self),
    {
        if self.major < other.major {
            Ordering::Less
        } else if self.major > other.major {
            Ordering::Greater
        } else if self.minor < other.minor {
            Ordering::Less
        } else if self.minor > other.minor {
            Ordering::Greater
        } else {
            Ordering::Equal
        }
    }
}

impl Default for Version {
    /// The version that an untagged field belongs to where none is
    /// configured: 1.1.
    fn default() -> (v: Version)
        ensures
            v == (Version { major: 1, minor: 1 }),
    {
        Version { major: 1, minor: 1 }
    }
}

impl PartialOrd for Version {
    fn partial_cmp(&self, other: &Version) -> (o: Option<Ordering>) {
        Some(self.cmp(other))
    }
}

impl PartialOrdSpecImpl for Version {
    open spec fn obeys_partial_cmp_spec() -> bool {
        true
    }

    open spec fn partial_cmp_spec(&self, other: &Version) -> Option<Ordering> {
        if self.precedes(*other) {
            Some(Ordering::Less)
        } else if other.precedes(*self) {
            Some(Ordering::Greater)
        } else {
            Some(Ordering::Equal)
        }
    }
}

/// The version that the literal `s` denotes, if it denotes one: `reserved` is
/// the sentinel; otherwise the text before the first `.` is the major number
/// and the text after it the minor number, which is 0 where there is no `.`.
pub open spec fn version_of(s: Seq<char>) -> Option<Version> {
    if s == "reserved"@ {
        Some(Version { major: RESERVED_MAJOR, minor: 0 })
    } else {
        let dot = first_index_of(s, '.');
        let major = u16_of(s.take(dot));
        let minor = if dot < s.len() {
            u16_of(s.skip(dot + 1))
        } else {
            Some(0u16)
        };
        if major is Some && minor is Some {
            Some(Version { major: major->0, minor: minor->0 })
        } else {
            None
        }
    }
}

/// The major number of `v` in decimal, followed, unless the minor number is 0,
/// by `separator` and the minor number in decimal.
pub open spec fn joined(v: Version, separator: char) -> Seq<char> {
    if v.minor == 0 {
        decimal(v.major as nat)
    } else {
        decimal(v.major as nat) + seq![separator] + decimal(v.minor as nat)
    }
}

/// The canonical literal of `v`: the major number alone where the minor
/// number is 0, else both with a `.` between them.
pub open spec fn literal_of(v: Version) -> Seq<char> {
    joined(v, '.')
}

impl Version {
    /// Reads a version literal: `major`, `major.minor` or `reserved`.
    pub fn try_from(version: &str) -> (r: Result<Version, ParseError>)
        ensures
            r is Ok <==> version_of(version@) is Some,
            r is Ok ==> Some(r->Ok_0) == version_of(version@),
    {
        if same_text(version, "reserved") {
            return Ok(Version::reserved());
        }
        let len = version.unicode_len();
        let dot = find_char(version, '.');
        let major = parse_u16(version.substring_char(0, dot));
        let minor = if dot < len {
            parse_u16(version.substring_char(dot + 1, len))
        } else {
            Some(0)
        };
        match (major, minor) {
            (Some(major), Some(minor)) => Ok(Version { major, minor }),
            _ => Err(ParseError),
        }
    }

    /// Writes the canonical literal of the version.
    pub fn literal(&self) -> (s: String)
        ensures
            s@ == literal_of(*self),
    {
        let mut s = String::new();
        push_decimal(&mut s, self.major as u64);
        if self.minor != 0 {
            proof {
                reveal_strlit(".");
            }
            s.append(".");
            push_decimal(&mut s, self.minor as u64);
        }
        assert(s@ =~= literal_of(*self));
        s
    }
}

/// The two numbers of a version can be told from its joined form: the major
/// number is what stands before the first separator, the minor number what
/// stands after it, and there is a separator exactly where the minor number is
/// not 0.
pub proof fn lemma_joined_parts(v: Version, separator: char)
    requires
        !is_digit(separator),
    ensures
        ({
            let t = joined(v, separator);
            let m = first_index_of(t, separator);
            &&& m == decimal(v.major as nat).len()
            &&& t.take(m) == decimal(v.major as nat)
            &&& is_digit(t[0])
            &&& v.minor == 0 <==> m == t.len()
            &&& v.minor != 0 ==> t.skip(m + 1) == decimal(v.minor as nat)
        }),
{
    let t = joined(v, separator);
    let head = decimal(v.major as nat);
    lemma_decimal(v.major as nat);
    lemma_decimal(v.minor as nat);
    assert(is_digit(head[0]));
    assert(t[0] == head[0]);
    let m = head.len() as int;
    assert forall|i: int| 0 <= i < m implies t[i] != separator by {
        assert(t[i] == head[i]);
        assert(is_digit(head[i]));
    }
    lemma_first_index_of(t, separator, m);
    assert(t.take(m) =~= head);
    if v.minor != 0 {
        assert(t.skip(m + 1) =~= decimal(v.minor as nat));
    }
}

/// Two versions with the same joined form are the same version.
pub proof fn lemma_joined_injective(a: Version, b: Version, separator: char)
    requires
        !is_digit(separator),
        joined(a, separator) == joined(b, separator),
    ensures
        a == b,
{
    lemma_joined_parts(a, separator);
    lemma_joined_parts(b, separator);
    lemma_decimal(a.major as nat);
    lemma_decimal(b.major as nat);
    lemma_decimal(a.minor as nat);
    lemma_decimal(b.minor as nat);
}

/// The canonical literal of every version reads back as that version.
pub proof fn law_literal_reads_back(v: Version)
    ensures
        version_of(literal_of(v)) == Some(v),
{
    lemma_joined_parts(v, '.');
    lemma_u16_of_decimal(v.major);
    lemma_u16_of_decimal(v.minor);
    reveal_strlit("reserved");
}

/// A literal that reads as a version reads as the same version again once it
/// is rewritten in canonical form: `1` and `1.0` both come back as 1.0.
pub proof fn law_round_trip(s: Seq<char>)
    requires
        version_of(s) is Some,
    ensures
        version_of(literal_of(version_of(s)->0)) == version_of(s),
{
    law_literal_reads_back(version_of(s)->0);
}

/// The literal `reserved` reads as a version that comes strictly after every
/// version whose major number is below 999.
pub proof fn law_reserved_is_last(v: Version)
    requires
        v.major < RESERVED_MAJOR,
    ensures
        version_of("reserved"@) is Some,
        v.precedes(version_of("reserved"@)->0),
{
}

/// A literal without a minor number reads as the same literal with the minor
/// number 0 written out: `9` is `9.0`.
pub proof fn law_missing_minor_is_zero(s: Seq<char>)
    requires
        s != "reserved"@,
        forall|i: int| 0 <= i < s.len() ==> s[i] != '.',
    ensures
        version_of(s + seq!['.', '0']) == version_of(s),
{
    let t = s + seq!['.', '0'];
    let n = s.len() as int;
    reveal_strlit("reserved");
    assert(t[n + 1] == '0');
    assert(t != "reserved"@) by {
        if t.len() == 8 {
            assert("reserved"@[7] == 'd');
        }
    }
    assert forall|i: int| 0 <= i < n implies t[i] != '.' by {
        assert(t[i] == s[i]);
    }
    assert(t[n] == '.');
    lemma_first_index_of(t, '.', n);
    lemma_first_index_of(s, '.', n);
    assert(t.take(n) =~= s);
    assert(s.take(n) =~= s);
    assert(t.skip(n + 1) =~= decimal(0));
    lemma_u16_of_decimal(0);
}

/// The order of versions is total: of two versions, one comes before the
/// other or they are the same, and never two of these at once.
pub proof fn law_order_is_total(a: Version, b: Version)
    ensures
        a.precedes(b) || a == b || b.precedes(a),
        !(a.precedes(b) && b.precedes(a)),
        !(a.precedes(b) && a == b),
{
}

/// What comes before a version comes before everything that the version comes
/// before.
pub proof fn law_order_is_transitive(a: Version, b: Version, c: Version)
    requires
        a.precedes(b),
        b.precedes(c),
    ensures
        a.precedes(c),
{
}

} // verus!
