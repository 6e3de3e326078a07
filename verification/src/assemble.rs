//! Union assembly: from a declaration whose fields are tagged with the version
//! that introduced them to one struct for each distinct version and one union
//! that overlays them.

use vstd::prelude::*;
use vstd::string::*;

use crate::config::Config;
use crate::fields::{
    all_readable, distinct_versions, is_version_set, lemma_version_set_len, min_versions,
    resolve_versions, FieldDecl,
};
use crate::layout::{
    last_included, law_ends_with_field, members_of, variant_members, Member,
};
use crate::names::{
    alternative_name, alternative_name_of, doc, doc_of, struct_name, struct_name_of,
};
use crate::version::Version;

verus! {

/// What kind of item a declaration is. Layouts are generated from a struct
/// with named fields and from nothing else.
#[derive(Debug, Copy, Clone, PartialEq, Eq, Structural)]
pub enum Shape {
    /// A struct with named fields.
    NamedStruct,
    /// A struct with unnamed fields.
    TupleStruct,
    /// A struct without fields.
    UnitStruct,
    /// An enum.
    Enum,
    /// A union.
    Union,
}

/// To whom a declaration is visible.
#[derive(Debug, PartialEq, Eq)]
pub enum Visibility {
    /// To the module that holds it.
    Inherited,
    /// To everyone.
    Public,
    /// To the part of the crate that the text names, as in `pub(crate)`.
    Restricted(String),
}

/// The declaration that layouts are generated from.
pub struct Declaration {
    pub visibility: Visibility,
    pub name: String,
    pub shape: Shape,
    /// The fields in declaration order.
    pub fields: Vec<FieldDecl>,
}

/// The struct of one version.
pub struct GeneratedStruct {
    pub version: Version,
    pub name: String,
    pub members: Vec<Member>,
}

/// One alternative of the union: the struct of one version under the name of
/// that version.
pub struct Alternative {
    pub name: String,
    /// The name of the struct that is the alternative's type.
    pub struct_name: String,
    /// The alternative's documentation.
    pub doc: String,
}

/// The union that overlays the structs of all versions.
pub struct GeneratedUnion {
    pub name: String,
    pub alternatives: Vec<Alternative>,
}

/// What is generated from one declaration.
pub struct Generated {
    /// The visibility of each struct, of the union and of each of its
    /// alternatives.
    pub visibility: Visibility,
    /// The structs, in ascending order of their versions.
    pub structs: Vec<GeneratedStruct>,
    pub union_type: GeneratedUnion,
}

/// Why nothing was generated from a declaration.
#[derive(Debug, Copy, Clone, PartialEq, Eq, Structural)]
pub enum Error {
    /// The tag of the field at this index does not read as a version.
    Parse { field: usize },
    /// The declaration is not a struct with named fields.
    Structure,
}

impl Error {
    /// What the error says to the person who wrote the declaration.
    pub fn message(&self) -> (m: &'static str)
        ensures
            m@ == match *self {
                Error::Parse { .. } => "Expected \"major.minor\" version number or \"reserved\""@,
                Error::Structure => "expected a struct with fields"@,
            },
    {
        match self {
            Error::Parse { .. } => "Expected \"major.minor\" version number or \"reserved\"",
            Error::Structure => "expected a struct with fields",
        }
    }
}

impl Generated {
    /// The versions of the structs, in the order of the structs.
    pub open spec fn versions(self) -> Seq<Version> {
        Seq::new(self.structs@.len(), |k: int| self.structs@[k].version)
    }

    /// Whether `self` is what is generated from `input` under `cfg`: one
    /// struct for each distinct minimum version among the fields, in ascending
    /// order, each with the name and the members of its version; and a union
    /// with the declaration's name and visibility that has one alternative for
    /// each struct, in the same order.
    pub open spec fn is_generated_from(self, cfg: Config, input: Declaration) -> bool {
        let versions = min_versions(input.fields@, cfg.version_default);
        &&& self.visibility == input.visibility
        &&& self.union_type.name@ == input.name@
        &&& is_version_set(self.versions(), versions)
        &&& self.union_type.alternatives@.len() == self.structs@.len()
        &&& forall|k: int|
            0 <= k < self.structs@.len() ==> {
                let v = (#[trigger] self.structs@[k]).version;
                let alternative = self.union_type.alternatives@[k];
                &&& self.structs@[k].name@ == struct_name_of(input.name@, v)
                &&& self.structs@[k].members@ == members_of(versions, v)
                &&& alternative.name@ == alternative_name_of(v)
                &&& alternative.struct_name@ == struct_name_of(input.name@, v)
                &&& alternative.doc@ == doc_of(cfg.name@, v)
            }
    }
}

/// Generates the layouts of `input`: the struct of each version and the union
/// of them all. Nothing is generated from a declaration that is no struct with
/// named fields, nor from one with a tag that does not read as a version: the
/// error then names the first such field.
pub fn jni_to_union_impl(cfg: Config, input: Declaration) -> (r: Result<Generated, Error>)
    ensures
        match r {
            Ok(generated) => {
                &&& input.shape is NamedStruct
                &&& all_readable(input.fields@, cfg.version_default)
                &&& generated.is_generated_from(cfg, input)
            },
            Err(Error::Structure) => !(input.shape is NamedStruct),
            Err(Error::Parse { field }) => {
                &&& input.shape is NamedStruct
                &&& field < input.fields@.len()
                &&& input.fields@[field as int].min_version(cfg.version_default) is None
                &&& all_readable(input.fields@.take(field as int), cfg.version_default)
            },
        },
{
    match input.shape {
        Shape::NamedStruct => {},
        _ => {
            return Err(Error::Structure);
        },
    }
    let versions = match resolve_versions(&input.fields, cfg.version_default) {
        Ok(versions) => versions,
        Err(field) => {
            return Err(Error::Parse { field });
        },
    };
    let set = distinct_versions(&versions);
    let mut structs: Vec<GeneratedStruct> = Vec::new();
    let mut alternatives: Vec<Alternative> = Vec::new();
    let mut k: usize = 0;
    while k < set.len()
        invariant
            k <= set@.len(),
            structs@.len() == k,
            alternatives@.len() == k,
            versions@ == min_versions(input.fields@, cfg.version_default),
            forall|j: int|
                0 <= j < k ==> {
                    let v = set@[j];
                    &&& (#[trigger] structs@[j]).version == v
                    &&& structs@[j].name@ == struct_name_of(input.name@, v)
                    &&& structs@[j].members@ == members_of(versions@, v)
                    &&& alternatives@[j].name@ == alternative_name_of(v)
                    &&& alternatives@[j].struct_name@ == struct_name_of(input.name@, v)
                    &&& alternatives@[j].doc@ == doc_of(cfg.name@, v)
                },
        decreases set@.len() - k,
    {
        let v = set[k];
        let name = struct_name(input.name.as_str(), v);
        let members = variant_members(&versions, v);
        alternatives.push(
            Alternative {
                name: alternative_name(v),
                struct_name: name.clone(),
                doc: doc(cfg.name.as_str(), v),
            },
        );
        structs.push(GeneratedStruct { version: v, name, members });
        k += 1;
    }
    let generated = Generated {
        visibility: input.visibility,
        structs,
        union_type: GeneratedUnion { name: input.name, alternatives },
    };
    assert(generated.versions() =~= set@);
    Ok(generated)
}

/// The union has one alternative for each distinct minimum version among the
/// fields, no more and no fewer, and so has the list of structs.
pub proof fn law_one_alternative_per_version(generated: Generated, cfg: Config, input: Declaration)
    requires
        generated.is_generated_from(cfg, input),
    ensures
        generated.union_type.alternatives@.len() == min_versions(
            input.fields@,
            cfg.version_default,
        ).to_set().len(),
        generated.structs@.len() == generated.union_type.alternatives@.len(),
{
    lemma_version_set_len(
        generated.versions(),
        min_versions(input.fields@, cfg.version_default),
    );
}

/// The struct of each alternative reaches as far as the last field that its
/// own version includes and no further: it ends with that field, whatever the
/// other versions include.
pub proof fn law_alternative_has_own_extent(
    generated: Generated,
    cfg: Config,
    input: Declaration,
    k: int,
)
    requires
        generated.is_generated_from(cfg, input),
        0 <= k < generated.structs@.len(),
    ensures
        ({
            let versions = min_versions(input.fields@, cfg.version_default);
            let v = generated.structs@[k].version;
            &&& last_included(versions, v) is Some
            &&& generated.structs@[k].members@.len() == last_included(versions, v)->0 + 1
            &&& generated.structs@[k].members@.last() is Field
            &&& generated.union_type.alternatives@[k].struct_name@ == generated.structs@[k].name@
        }),
{
    let versions = min_versions(input.fields@, cfg.version_default);
    let v = generated.structs@[k].version;
    assert(generated.versions()[k] == v);
    assert(generated.versions().contains(v));
    assert(versions.contains(v));
    let i = choose|i: int| 0 <= i < versions.len() && versions[i] == v;
    assert(versions[i].at_most(v));
    crate::layout::lemma_last_included_is_last(versions, v);
    law_ends_with_field(versions, v);
}

/// One declaration under one set of parameters has one outcome: whatever is
/// generated from it has the same versions, the same names, the same members
/// and the same documentation.
pub proof fn law_generation_is_determined(
    first: Generated,
    second: Generated,
    cfg: Config,
    input: Declaration,
)
    requires
        first.is_generated_from(cfg, input),
        second.is_generated_from(cfg, input),
    ensures
        first.visibility == second.visibility,
        first.union_type.name@ == second.union_type.name@,
        first.versions() == second.versions(),
        first.structs@.len() == second.structs@.len(),
        forall|k: int|
            0 <= k < first.structs@.len() ==> {
                &&& (#[trigger] first.structs@[k]).name@ == second.structs@[k].name@
                &&& first.structs@[k].members@ == second.structs@[k].members@
                &&& first.union_type.alternatives@[k].name@
                    == second.union_type.alternatives@[k].name@
                &&& first.union_type.alternatives@[k].struct_name@
                    == second.union_type.alternatives@[k].struct_name@
                &&& first.union_type.alternatives@[k].doc@
                    == second.union_type.alternatives@[k].doc@
            },
{
    let versions = min_versions(input.fields@, cfg.version_default);
    crate::fields::lemma_version_set_unique(first.versions(), second.versions(), versions);
    assert(first.structs@.len() == first.versions().len());
    assert(second.structs@.len() == second.versions().len());
    assert forall|k: int| 0 <= k < first.structs@.len() implies {
        &&& (#[trigger] first.structs@[k]).name@ == second.structs@[k].name@
        &&& first.structs@[k].members@ == second.structs@[k].members@
        &&& first.union_type.alternatives@[k].name@ == second.union_type.alternatives@[k].name@
        &&& first.union_type.alternatives@[k].struct_name@
            == second.union_type.alternatives@[k].struct_name@
        &&& first.union_type.alternatives@[k].doc@ == second.union_type.alternatives@[k].doc@
    } by {
        assert(first.versions()[k] == first.structs@[k].version);
        assert(second.versions()[k] == second.structs@[k].version);
    }
}

} // verus!
