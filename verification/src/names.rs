//! The names of what is generated: each is a function of the declaration's
//! name and of the version alone.

use vstd::prelude::*;
use vstd::string::*;

use crate::decimal::{decimal, push_decimal};
use crate::version::{joined, lemma_joined_injective, lemma_joined_parts, Version, RESERVED_MAJOR};

verus! {

/// The suffix that stands for `v` in names: `reserved` for the sentinel, which
/// is 999.0 and nothing else; of every other version the major number alone
/// where the minor number is 0, else both numbers with a `_` between them.
pub open spec fn suffix_of(v: Version) -> Seq<char> {
    if v.is_reserved() {
        "reserved"@
    } else {
        joined(v, '_')
    }
}

/// The name of the struct of version `v` for the declaration named `base`.
pub open spec fn struct_name_of(base: Seq<char>, v: Version) -> Seq<char> {
    base + seq!['_'] + suffix_of(v)
}

/// The name of the union's alternative for version `v`.
pub open spec fn alternative_name_of(v: Version) -> Seq<char> {
    if v.is_reserved() {
        "reserved"@
    } else {
        seq!['v'] + suffix_of(v)
    }
}

/// What documents the alternative for version `v`: from which version of the
/// interface called `name` on it is valid, by the name of that version's
/// constant.
pub open spec fn doc_of(name: Seq<char>, v: Version) -> Seq<char> {
    "valid when runtime version ≥ "@ + name + "_VERSION_"@ + suffix_of(v)
}

/// The name of the placeholder with this number.
pub open spec fn placeholder_name_of(number: nat) -> Seq<char> {
    "_padding_"@ + decimal(number)
}

/// Appends the suffix that stands for `v` to `out`.
fn push_suffix(out: &mut String, v: Version)
    ensures
        final(out)@ == old(out)@ + suffix_of(v),
{
    if v.major == RESERVED_MAJOR && v.minor == 0 {
        out.append("reserved");
    } else {
        push_decimal(out, v.major as u64);
        if v.minor != 0 {
            proof {
                reveal_strlit("_");
            }
            out.append("_");
            push_decimal(out, v.minor as u64);
        }
    }
    assert(out@ =~= old(out)@ + suffix_of(v));
}

/// The suffix that stands for `v` in names.
pub fn suffix(v: Version) -> (s: String)
    ensures
        s@ == suffix_of(v),
{
    let mut s = String::new();
    push_suffix(&mut s, v);
    assert(s@ =~= suffix_of(v));
    s
}

/// The name of the struct of version `v` for the declaration named `base`.
pub fn struct_name(base: &str, v: Version) -> (s: String)
    ensures
        s@ == struct_name_of(base@, v),
{
    let mut s = String::from_str(base);
    proof {
        reveal_strlit("_");
    }
    s.append("_");
    push_suffix(&mut s, v);
    assert(s@ =~= struct_name_of(base@, v));
    s
}

/// The name of the union's alternative for version `v`.
pub fn alternative_name(v: Version) -> (s: String)
    ensures
        s@ == alternative_name_of(v),
{
    if v.major == RESERVED_MAJOR && v.minor == 0 {
        String::from_str("reserved")
    } else {
        proof {
            reveal_strlit("v");
        }
        let mut s = String::from_str("v");
        push_suffix(&mut s, v);
        assert(s@ =~= alternative_name_of(v));
        s
    }
}

/// What documents the alternative for version `v` of the interface called
/// `name`.
pub fn doc(name: &str, v: Version) -> (s: String)
    ensures
        s@ == doc_of(name@, v),
{
    let mut s = String::from_str("valid when runtime version ≥ ");
    s.append(name);
    s.append("_VERSION_");
    push_suffix(&mut s, v);
    assert(s@ =~= doc_of(name@, v));
    s
}

/// The name of the placeholder with this number.
pub fn placeholder_name(number: usize) -> (s: String)
    ensures
        s@ == placeholder_name_of(number as nat),
{
    let mut s = String::from_str("_padding_");
    push_decimal(&mut s, number as u64);
    s
}

/// The suffix tells the version: two versions with the same suffix are the
/// same version.
pub proof fn law_suffix_tells_versions_apart(a: Version, b: Version)
    requires
        suffix_of(a) == suffix_of(b),
    ensures
        a == b,
{
    reveal_strlit("reserved");
    lemma_joined_parts(a, '_');
    lemma_joined_parts(b, '_');
    if !a.is_reserved() && !b.is_reserved() {
        lemma_joined_injective(a, b, '_');
    }
}

/// Under one declaration, the name of the struct tells the version, and so
/// does the name of the alternative: two versions with the same struct name,
/// or with the same alternative name, are the same version.
pub proof fn law_names_tell_versions_apart(base: Seq<char>, a: Version, b: Version)
    requires
        struct_name_of(base, a) == struct_name_of(base, b) || alternative_name_of(a)
            == alternative_name_of(b),
    ensures
        a == b,
{
    reveal_strlit("reserved");
    if struct_name_of(base, a) == struct_name_of(base, b) {
        let n = base.len() as int + 1;
        assert(struct_name_of(base, a).skip(n) =~= suffix_of(a));
        assert(struct_name_of(base, b).skip(n) =~= suffix_of(b));
    } else if !a.is_reserved() && !b.is_reserved() {
        assert(alternative_name_of(a).skip(1) =~= suffix_of(a));
        assert(alternative_name_of(b).skip(1) =~= suffix_of(b));
    } else if !a.is_reserved() {
        assert(alternative_name_of(a)[0] == 'v');
    } else if !b.is_reserved() {
        assert(alternative_name_of(b)[0] == 'v');
    }
    law_suffix_tells_versions_apart(a, b);
}

} // verus!
