//! Layout synthesis: which members the struct of one version holds.
//!
//! The struct of version `v` keeps the declaration's fields up to the last one
//! that `v` includes. A field before that point which `v` does not include yet
//! leaves a placeholder of pointer size in its place, so that every later field
//! stands where it stands in each other version. Fields after that point are
//! left out.

use vstd::prelude::*;

use crate::version::Version;

verus! {

/// A member of a generated struct.
#[derive(Debug, Copy, Clone, PartialEq, Eq, Structural)]
pub enum Member {
    /// The declaration's field at this index, as it was declared.
    Field(usize),
    /// A placeholder of pointer size with this number, where a field stands
    /// that the version does not include yet.
    Padding(usize),
}

/// The index of the last field that version `v` includes, where `versions`
/// holds the minimum version of each field.
pub open spec fn last_included(versions: Seq<Version>, v: Version) -> Option<int>
    decreases versions.len(),
{
    if versions.len() == 0 {
        None
    } else if versions.last().at_most(v) {
        Some(versions.len() - 1)
    } else {
        last_included(versions.drop_last(), v)
    }
}

/// How many members the struct of version `v` has: one for each field up to
/// the last that `v` includes; one for each field where it includes none.
pub open spec fn member_count(versions: Seq<Version>, v: Version) -> int {
    match last_included(versions, v) {
        Some(last) => last + 1,
        None => versions.len() as int,
    }
}

/// How many of the first `i` fields version `v` does not include.
pub open spec fn paddings_before(versions: Seq<Version>, v: Version, i: int) -> nat
    decreases i,
{
    if i <= 0 {
        0
    } else if versions[i - 1].at_most(v) {
        paddings_before(versions, v, i - 1)
    } else {
        paddings_before(versions, v, i - 1) + 1
    }
}

/// The member that stands at index `i` of the struct of version `v`: the field
/// itself where `v` includes it, else a placeholder, numbered from 0 in the
/// order of the placeholders.
pub open spec fn member_at(versions: Seq<Version>, v: Version, i: int) -> Member {
    if versions[i].at_most(v) {
        Member::Field(i as usize)
    } else {
        Member::Padding(paddings_before(versions, v, i) as usize)
    }
}

/// The members of the struct of version `v`, in order.
pub open spec fn members_of(versions: Seq<Version>, v: Version) -> Seq<Member> {
    Seq::new(member_count(versions, v) as nat, |i: int| member_at(versions, v, i))
}

/// `last_included` is the index of a field that `v` includes and after which
/// it includes none.
pub proof fn lemma_last_included(versions: Seq<Version>, v: Version, last: int)
    requires
        0 <= last < versions.len(),
        versions[last].at_most(v),
        forall|k: int| last < k < versions.len() ==> !(#[trigger] versions[k]).at_most(v),
    ensures
        last_included(versions, v) == Some(last),
    decreases versions.len(),
{
    if last < versions.len() - 1 {
        assert(!versions[versions.len() - 1].at_most(v));
        lemma_last_included(versions.drop_last(), v, last);
    }
}

/// `last_included` finds a field that `v` includes wherever there is one, and
/// every field after it is one that `v` does not include.
pub proof fn lemma_last_included_is_last(versions: Seq<Version>, v: Version)
    ensures
        match last_included(versions, v) {
            Some(last) => {
                &&& 0 <= last < versions.len()
                &&& versions[last].at_most(v)
                &&& forall|k: int|
                    last < k < versions.len() ==> !(#[trigger] versions[k]).at_most(v)
            },
            None => forall|k: int| 0 <= k < versions.len() ==> !(#[trigger] versions[k]).at_most(v),
        },
    decreases versions.len(),
{
    if versions.len() == 0 {
    } else if versions.last().at_most(v) {
    } else {
        let rest = versions.drop_last();
        lemma_last_included_is_last(rest, v);
        match last_included(rest, v) {
            Some(last) => {
                assert forall|k: int| last < k < versions.len() implies !(
                #[trigger] versions[k]).at_most(v) by {
                    if k < rest.len() {
                        assert(rest[k] == versions[k]);
                    }
                }
            },
            None => {
                assert forall|k: int| 0 <= k < versions.len() implies !(
                #[trigger] versions[k]).at_most(v) by {
                    if k < rest.len() {
                        assert(rest[k] == versions[k]);
                    }
                }
            },
        }
    }
}

/// No more placeholders stand before a field than fields do.
pub proof fn lemma_paddings_bound(versions: Seq<Version>, v: Version, i: int)
    requires
        0 <= i,
    ensures
        paddings_before(versions, v, i) <= i,
    decreases i,
{
    if i > 0 {
        lemma_paddings_bound(versions, v, i - 1);
    }
}

/// The index of the last field that version `v` includes, or `None` where it
/// includes none.
pub fn find_last_included(versions: &Vec<Version>, v: Version) -> (r: Option<usize>)
    ensures
        r is Some <==> last_included(versions@, v) is Some,
        r is Some ==> r->0 == last_included(versions@, v)->0 && r->0 < versions@.len(),
{
    let mut i: usize = versions.len();
    while i > 0
        invariant
            i <= versions@.len(),
            forall|k: int| i <= k < versions@.len() ==> !(#[trigger] versions@[k]).at_most(v),
        decreases i,
    {
        if versions[i - 1] <= v {
            proof {
                lemma_last_included(versions@, v, i - 1);
            }
            return Some(i - 1);
        }
        i -= 1;
    }
    proof {
        lemma_last_included_is_last(versions@, v);
    }
    None
}

/// The members of the struct of version `v`, where `versions` holds the
/// minimum version of each field of the declaration, in declaration order.
pub fn variant_members(versions: &Vec<Version>, v: Version) -> (members: Vec<Member>)
    ensures
        members@ == members_of(versions@, v),
{
    let len = versions.len();
    let count = match find_last_included(versions, v) {
        Some(last) => last + 1,
        None => len,
    };
    proof {
        lemma_last_included_is_last(versions@, v);
    }
    let mut members: Vec<Member> = Vec::new();
    let mut padding: usize = 0;
    let mut i: usize = 0;
    while i < count
        invariant
            i <= count <= versions@.len(),
            count == member_count(versions@, v),
            members@.len() == i,
            forall|k: int| 0 <= k < i ==> members@[k] == member_at(versions@, v, k),
            padding == paddings_before(versions@, v, i as int),
        decreases count - i,
    {
        proof {
            lemma_paddings_bound(versions@, v, i as int);
        }
        if versions[i] <= v {
            members.push(Member::Field(i));
        } else {
            members.push(Member::Padding(padding));
            padding += 1;
        }
        i += 1;
    }
    assert(members@ =~= members_of(versions@, v));
    members
}

/// Every field that version `v` includes is a member of its struct, at the
/// index at which it was declared.
pub proof fn law_included_fields_are_members(versions: Seq<Version>, v: Version, i: int)
    requires
        versions.len() <= usize::MAX,
        0 <= i < versions.len(),
        versions[i].at_most(v),
    ensures
        i < members_of(versions, v).len(),
        members_of(versions, v)[i] == Member::Field(i as usize),
{
    lemma_last_included_is_last(versions, v);
}

/// Where version `v` includes a field at all, its struct ends with a field:
/// what follows the last field that `v` includes is left out, not padded.
pub proof fn law_ends_with_field(versions: Seq<Version>, v: Version)
    requires
        last_included(versions, v) is Some,
    ensures
        members_of(versions, v).len() == last_included(versions, v)->0 + 1,
        members_of(versions, v).last() is Field,
        forall|k: int|
            members_of(versions, v).len() <= k < versions.len() ==> !(#[trigger] versions[k]).at_most(
                v,
            ),
{
    lemma_last_included_is_last(versions, v);
}

/// The struct of a version extends the struct of each lower version: it has
/// at least as many members, and where the lower one holds a field the higher
/// one holds the same field at the same index. Stated of a lower version that
/// includes a field at all.
pub proof fn law_prefix_extension(versions: Seq<Version>, lower: Version, higher: Version)
    requires
        lower.at_most(higher),
        last_included(versions, lower) is Some,
    ensures
        members_of(versions, lower).len() <= members_of(versions, higher).len(),
        forall|i: int|
            0 <= i < members_of(versions, lower).len() && members_of(versions, lower)[i] is Field
                ==> members_of(versions, higher)[i] == members_of(versions, lower)[i],
{
    lemma_last_included_is_last(versions, lower);
    lemma_last_included_is_last(versions, higher);
    let last = last_included(versions, lower)->0;
    assert(versions[last].at_most(higher));
    assert forall|i: int|
        0 <= i < members_of(versions, lower).len() && members_of(
            versions,
            lower,
        )[i] is Field implies members_of(versions, higher)[i] == members_of(versions, lower)[i] by {
        assert(versions[i].at_most(lower));
        assert(versions[i].at_most(higher));
    }
}

/// The placeholders before a later index are at least those before an earlier
/// one.
proof fn lemma_paddings_monotonic(versions: Seq<Version>, v: Version, i: int, j: int)
    requires
        0 <= i <= j,
    ensures
        paddings_before(versions, v, i) <= paddings_before(versions, v, j),
    decreases j - i,
{
    if i < j {
        lemma_paddings_monotonic(versions, v, i, j - 1);
    }
}

/// The placeholders of one struct are numbered in their order, from 0: each
/// has a number of its own.
pub proof fn law_placeholders_numbered(versions: Seq<Version>, v: Version, i: int, j: int)
    requires
        versions.len() <= usize::MAX,
        0 <= i < j < members_of(versions, v).len(),
        members_of(versions, v)[i] is Padding,
        members_of(versions, v)[j] is Padding,
    ensures
        members_of(versions, v)[i]->Padding_0 < members_of(versions, v)[j]->Padding_0,
        (forall|k: int| 0 <= k < i ==> members_of(versions, v)[k] is Field) ==> members_of(
            versions,
            v,
        )[i]->Padding_0 == 0,
{
    lemma_last_included_is_last(versions, v);
    lemma_paddings_monotonic(versions, v, i + 1, j);
    lemma_paddings_bound(versions, v, j);
    if forall|k: int| 0 <= k < i ==> members_of(versions, v)[k] is Field {
        lemma_no_paddings(versions, v, i);
    }
}

/// No placeholder stands before an index up to which every field is included.
proof fn lemma_no_paddings(versions: Seq<Version>, v: Version, i: int)
    requires
        0 <= i <= members_of(versions, v).len(),
        forall|k: int| 0 <= k < i ==> members_of(versions, v)[k] is Field,
    ensures
        paddings_before(versions, v, i) == 0,
    decreases i,
{
    if i > 0 {
        assert(members_of(versions, v)[i - 1] is Field);
        lemma_no_paddings(versions, v, i - 1);
    }
}

} // verus!
