//! The field version table: the minimum version of each declared field, in
//! declaration order, and the set of distinct versions among them.

use vstd::prelude::*;
use vstd::string::*;

use crate::version::{version_of, ParseError, Version};

verus! {

/// A field of the declaration that layouts are generated from.
pub struct FieldDecl {
    /// The field's name.
    pub name: String,
    /// The literal of the tag that says in which version the field was
    /// introduced, where the field carries one.
    pub added: Option<String>,
}

impl FieldDecl {
    /// The minimum version of the field: the version that its tag denotes,
    /// `default` where it has no tag, nothing where the tag does not read as a
    /// version.
    pub open spec fn min_version(self, default: Version) -> Option<Version> {
        match self.added {
            Some(tag) => version_of(tag@),
            None => Some(default),
        }
    }

    /// Resolves the field to its minimum version.
    pub fn resolve(&self, default: Version) -> (r: Result<Version, ParseError>)
        ensures
            r is Ok <==> self.min_version(default) is Some,
            r is Ok ==> Some(r->Ok_0) == self.min_version(default),
    {
        match &self.added {
            Some(tag) => Version::try_from(tag.as_str()),
            None => Ok(default),
        }
    }
}

/// Whether the tag of every field reads as a version.
pub open spec fn all_readable(fields: Seq<FieldDecl>, default: Version) -> bool {
    forall|i: int| 0 <= i < fields.len() ==> (#[trigger] fields[i]).min_version(default) is Some
}

/// The minimum versions of `fields`, one for each field, in declaration order.
pub open spec fn min_versions(fields: Seq<FieldDecl>, default: Version) -> Seq<Version>
    recommends
        all_readable(fields, default),
{
    Seq::new(fields.len(), |i: int| fields[i].min_version(default)->0)
}

/// Resolves every field to its minimum version, in declaration order. The
/// first field whose tag does not read as a version ends the work: its index
/// is the error.
pub fn resolve_versions(fields: &Vec<FieldDecl>, default: Version) -> (r: Result<
    Vec<Version>,
    usize,
>)
    ensures
        match r {
            Ok(versions) => all_readable(fields@, default) && versions@ == min_versions(
                fields@,
                default,
            ),
            Err(i) => {
                &&& i < fields@.len()
                &&& fields@[i as int].min_version(default) is None
                &&& all_readable(fields@.take(i as int), default)
            },
        },
{
    let mut versions: Vec<Version> = Vec::new();
    let mut i: usize = 0;
    while i < fields.len()
        invariant
            i <= fields@.len(),
            versions@.len() == i,
            forall|k: int|
                0 <= k < i ==> (#[trigger] fields@[k]).min_version(default) == Some(versions@[k]),
        decreases fields@.len() - i,
    {
        match fields[i].resolve(default) {
            Ok(v) => {
                versions.push(v);
            },
            Err(_) => {
                return Err(i);
            },
        }
        i += 1;
    }
    assert(versions@ =~= min_versions(fields@, default));
    Ok(versions)
}

/// Whether `s` is in strictly ascending order.
pub open spec fn ascending(s: Seq<Version>) -> bool {
    forall|i: int, j: int| 0 <= i < j < s.len() ==> s[i].precedes(s[j])
}

/// Whether `set` is the version set of `versions`: the versions that occur in
/// `versions`, each once, in ascending order.
pub open spec fn is_version_set(set: Seq<Version>, versions: Seq<Version>) -> bool {
    &&& ascending(set)
    &&& forall|v: Version| set.contains(v) <==> versions.contains(v)
}

/// Puts `v` at its place in the ascending `set`, unless it is there already.
fn insert_version(set: &mut Vec<Version>, v: Version)
    requires
        ascending(old(set)@),
    ensures
        ascending(final(set)@),
        forall|w: Version| final(set)@.contains(w) <==> (old(set)@.contains(w) || w == v),
{
    let mut p: usize = 0;
    while p < set.len() && set[p] < v
        invariant
            p <= set@.len(),
            set@ == old(set)@,
            forall|k: int| 0 <= k < p ==> set@[k].precedes(v),
        decreases set@.len() - p,
    {
        p += 1;
    }
    if p < set.len() && set[p] == v {
        return ;
    }
    set.insert(p, v);
    proof {
        let a = old(set)@;
        let b = set@;
        assert(b.len() == a.len() + 1);
        assert(b[p as int] == v);
        assert forall|k: int| 0 <= k < p implies b[k] == a[k] by {}
        assert forall|k: int| p < k < b.len() implies b[k] == a[k - 1] by {}
        assert forall|k: int| p <= k < a.len() implies v.precedes(#[trigger] a[k]) by {
            assert(!a[p as int].precedes(v));
            assert(a[p as int] != v);
            if p < k {
                assert(a[p as int].precedes(a[k]));
            }
        }
        assert forall|i: int, j: int| 0 <= i < j < b.len() implies b[i].precedes(b[j]) by {
            if j < p {
                assert(a[i].precedes(a[j]));
            } else if j == p {
            } else if i < p {
                assert(a[i].precedes(v));
                assert(v.precedes(a[j - 1]));
            } else if i == p {
                assert(v.precedes(a[j - 1]));
            } else {
                assert(a[i - 1].precedes(a[j - 1]));
            }
        }
        assert forall|w: Version| b.contains(w) <==> (a.contains(w) || w == v) by {
            if b.contains(w) {
                let k = choose|k: int| 0 <= k < b.len() && b[k] == w;
                if k < p {
                    assert(a[k] == w);
                } else if k > p {
                    assert(a[k - 1] == w);
                }
            }
            if a.contains(w) {
                let k = choose|k: int| 0 <= k < a.len() && a[k] == w;
                if k < p {
                    assert(b[k] == w);
                } else {
                    assert(b[k + 1] == w);
                }
            }
        }
    }
}

/// The version set of `versions`: its distinct versions in ascending order,
/// one for each layout that will be generated.
pub fn distinct_versions(versions: &Vec<Version>) -> (set: Vec<Version>)
    ensures
        is_version_set(set@, versions@),
        set@.len() == versions@.to_set().len(),
{
    let mut set: Vec<Version> = Vec::new();
    let mut i: usize = 0;
    while i < versions.len()
        invariant
            i <= versions@.len(),
            is_version_set(set@, versions@.take(i as int)),
        decreases versions@.len() - i,
    {
        let ghost before = set@;
        let ghost seen = versions@.take(i as int);
        insert_version(&mut set, versions[i]);
        proof {
            let next = versions@.take(i + 1);
            assert(next =~= seen.push(versions@[i as int]));
            assert forall|w: Version| set@.contains(w) <==> next.contains(w) by {
                if next.contains(w) {
                    let k = choose|k: int| 0 <= k < next.len() && next[k] == w;
                    if k < i {
                        assert(seen[k] == w);
                    }
                }
                if seen.contains(w) {
                    let k = choose|k: int| 0 <= k < seen.len() && seen[k] == w;
                    assert(next[k] == w);
                }
                assert(next[i as int] == versions@[i as int]);
            }
        }
        i += 1;
    }
    proof {
        assert(versions@.take(i as int) =~= versions@);
        lemma_version_set_len(set@, versions@);
    }
    set
}

/// A version set holds as many versions as there are distinct ones.
pub proof fn lemma_version_set_len(set: Seq<Version>, versions: Seq<Version>)
    requires
        is_version_set(set, versions),
    ensures
        set.len() == versions.to_set().len(),
        set.no_duplicates(),
{
    assert(set.no_duplicates()) by {
        assert forall|i: int, j: int|
            0 <= i < set.len() && 0 <= j < set.len() && i != j implies set[i] != set[j] by {
            if i < j {
                assert(set[i].precedes(set[j]));
            } else {
                assert(set[j].precedes(set[i]));
            }
        }
    }
    set.unique_seq_to_set();
    assert(set.to_set() =~= versions.to_set());
}

/// There is one version set only: two ascending sequences that hold the same
/// versions are the same sequence.
pub proof fn lemma_version_set_unique(a: Seq<Version>, b: Seq<Version>, versions: Seq<Version>)
    requires
        is_version_set(a, versions),
        is_version_set(b, versions),
    ensures
        a == b,
    decreases a.len(),
{
    if a.len() == 0 {
        if b.len() > 0 {
            assert(b.contains(b[0]));
            assert(versions.contains(b[0]));
            assert(a.contains(b[0]));
        }
        assert(a =~= b);
    } else {
        assert(a.contains(a[0]));
        assert(versions.contains(a[0]));
        assert(b.contains(a[0]));
        let j = choose|j: int| 0 <= j < b.len() && b[j] == a[0];
        assert(b.contains(b[0]));
        assert(versions.contains(b[0]));
        assert(a.contains(b[0]));
        let i = choose|i: int| 0 <= i < a.len() && a[i] == b[0];
        if i > 0 {
            assert(a[0].precedes(a[i]));
        }
        if j > 0 {
            assert(b[0].precedes(b[j]));
        }
        assert(a[0] == b[0]);
        let ra = a.drop_first();
        let rb = b.drop_first();
        assert forall|x: int, y: int| 0 <= x < y < ra.len() implies ra[x].precedes(ra[y]) by {
            assert(a[x + 1].precedes(a[y + 1]));
        }
        assert forall|x: int, y: int| 0 <= x < y < rb.len() implies rb[x].precedes(rb[y]) by {
            assert(b[x + 1].precedes(b[y + 1]));
        }
        assert forall|v: Version| ra.contains(v) <==> rb.contains(v) by {
            if ra.contains(v) {
                let k = choose|k: int| 0 <= k < ra.len() && ra[k] == v;
                assert(a[k + 1] == v);
                assert(a[0].precedes(a[k + 1]));
                assert(a.contains(v));
                assert(versions.contains(v));
                assert(b.contains(v));
                let m = choose|m: int| 0 <= m < b.len() && b[m] == v;
                assert(m != 0);
                assert(rb[m - 1] == v);
            }
            if rb.contains(v) {
                let k = choose|k: int| 0 <= k < rb.len() && rb[k] == v;
                assert(b[k + 1] == v);
                assert(b[0].precedes(b[k + 1]));
                assert(b.contains(v));
                assert(versions.contains(v));
                assert(a.contains(v));
                let m = choose|m: int| 0 <= m < a.len() && a[m] == v;
                assert(m != 0);
                assert(ra[m - 1] == v);
            }
        }
        lemma_version_set_unique(ra, rb, rb);
        assert(a =~= seq![a[0]] + ra);
        assert(b =~= seq![b[0]] + rb);
    }
}

} // verus!
