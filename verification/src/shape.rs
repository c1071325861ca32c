//! The shape model: the normalized view of the type under processing, and
//! the per-behavior participation queries on its fields.

use vstd::prelude::*;
use vstd::string::StringExecFns;

use crate::behavior::BehaviorKind;
use crate::options::OptionEntry;
use crate::text::dec_digits;

verus! {

/// One field of an item or of a variant.
#[derive(Clone, Debug, PartialEq, Eq)]
pub struct Field {
    /// The source location of the field.
    pub span: u64,
    /// The field's explicit name; unnamed fields get positional placeholders.
    pub name: Option<String>,
    /// The indices of the item's generic parameters referenced by the
    /// field's declared type.
    pub params: Vec<usize>,
    /// The behaviors from whose body and bound inference this field is
    /// excluded (the `skip` marker).
    pub skip: Vec<BehaviorKind>,
    /// The behaviors from whose bound inference only this field is excluded,
    /// while still being visited in the body (the `skip(bound)` marker).
    pub skip_bound: Vec<BehaviorKind>,
    /// Force fully-qualified dispatch of the wipe call on this field, to
    /// bypass a same-named inherent method (the `Wipe(fqs)` marker).
    pub wipe_fqs: bool,
}

/// One variant of a sum-shaped item.
///
/// A skip marker written at the variant level arrives from the external
/// attribute parser as the same marker on each of the variant's fields.
#[derive(Clone, Debug, PartialEq, Eq)]
pub struct Variant {
    /// The source location of the variant.
    pub span: u64,
    /// The variant's identifier.
    pub name: String,
    /// Whether the variant's fields are named (brace layout) rather than
    /// positional (parenthesis layout).
    pub named: bool,
    /// The variant's fields, in declaration order.
    pub fields: Vec<Field>,
    /// The default-construction marker: at most one variant of an item may
    /// carry it.
    pub is_default: bool,
}

/// The structural kind of the item under processing.
#[derive(Clone, Debug, PartialEq, Eq)]
pub enum ItemShape {
    /// A product type with named fields.
    Struct(Vec<Field>),
    /// A product type with positional fields.
    Tuple(Vec<Field>),
    /// A product type with no fields.
    Unit,
    /// A sum type: its variants, in declaration order, which is also their
    /// ordering and hashing precedence.
    Enum(Vec<Variant>),
    /// An untagged union: only behaviors that never inspect field values may
    /// be requested on it.
    Union(Vec<Field>),
}

/// A single generic-parameter constraint of a resolved bound set.
#[derive(Clone, Debug, PartialEq, Eq)]
pub struct Bound {
    /// The constrained generic parameter.
    pub param: String,
    /// The capability the parameter must satisfy.
    pub capability: String,
}

/// The view of a bound.
pub struct BoundV {
    pub param: Seq<char>,
    pub capability: Seq<char>,
}

impl View for Bound {
    type V = BoundV;

    open spec fn view(&self) -> BoundV {
        BoundV { param: self.param@, capability: self.capability@ }
    }
}

/// One behavior requested on an item, with its raw options and the caller's
/// explicit bound override, if any.
///
/// When `custom_bounds` is present, it is used verbatim and automatic bound
/// inference is skipped entirely for this behavior.
#[derive(Clone, Debug, PartialEq, Eq)]
pub struct RequestedBehavior {
    /// The source location of the request.
    pub span: u64,
    /// The requested behavior.
    pub kind: BehaviorKind,
    /// The behavior's raw option entries, in source order.
    pub options: Vec<OptionEntry>,
    /// The explicit bound override: total, not additive.
    pub custom_bounds: Option<Vec<Bound>>,
}

/// The type under processing: its identifier, generic parameters, shape and
/// requested behaviors.
#[derive(Clone, Debug, PartialEq, Eq)]
pub struct Item {
    /// The item's identifier.
    pub name: String,
    /// The item's generic parameters, in declaration order.
    pub generics: Vec<String>,
    /// The item's structural kind.
    pub shape: ItemShape,
    /// The behaviors requested on the item, in request order, which is also
    /// the order of the emitted implementation blocks.
    pub behaviors: Vec<RequestedBehavior>,
}

/// Whether a field participates in a behavior: it does unless its `skip`
/// marker names the behavior.
pub open spec fn spec_participates(f: Field, k: BehaviorKind) -> bool {
    !f.skip@.contains(k)
}

/// Whether a field contributes to bound inference for a behavior: it must
/// participate and not carry the bound-only skip marker.
pub open spec fn spec_bound_participates(f: Field, k: BehaviorKind) -> bool {
    spec_participates(f, k) && !f.skip_bound@.contains(k)
}

/// Tests whether a behavior list names a behavior.
pub fn kinds_contain(v: &Vec<BehaviorKind>, k: BehaviorKind) -> (r: bool)
    ensures
        r == v@.contains(k),
{
    let mut i: usize = 0;
    while i < v.len()
        invariant
            i <= v@.len(),
            forall|j: int| 0 <= j < i ==> v@[j] != k,
        decreases v@.len() - i,
    {
        if v[i] == k {
            return true;
        }
        i = i + 1;
    }
    false
}

/// Tests whether a parameter-index list names an index.
pub fn indices_contain(v: &Vec<usize>, x: usize) -> (r: bool)
    ensures
        r == v@.contains(x),
{
    let mut i: usize = 0;
    while i < v.len()
        invariant
            i <= v@.len(),
            forall|j: int| 0 <= j < i ==> v@[j] != x,
        decreases v@.len() - i,
    {
        if v[i] == x {
            return true;
        }
        i = i + 1;
    }
    false
}

/// Whether a field participates in a behavior.
pub fn participates(f: &Field, k: BehaviorKind) -> (r: bool)
    ensures
        r == spec_participates(*f, k),
{
    !kinds_contain(&f.skip, k)
}

/// Whether a field contributes to bound inference for a behavior.
pub fn bound_participates(f: &Field, k: BehaviorKind) -> (r: bool)
    ensures
        r == spec_bound_participates(*f, k),
{
    participates(f, k) && !kinds_contain(&f.skip_bound, k)
}

/// The indices, from position `i` on, of the fields that participate in the
/// behavior, in declaration order.
pub open spec fn part_from(fields: Seq<Field>, k: BehaviorKind, i: int) -> Seq<int>
    decreases fields.len() - i
        when 0 <= i
{
    if i >= fields.len() {
        Seq::empty()
    } else if spec_participates(fields[i], k) {
        seq![i] + part_from(fields, k, i + 1)
    } else {
        part_from(fields, k, i + 1)
    }
}

/// The ordered list of indices of the fields that participate in the
/// behavior.
pub open spec fn spec_participating(fields: Seq<Field>, k: BehaviorKind) -> Seq<int> {
    part_from(fields, k, 0)
}

/// Produces the ordered list of indices of the fields that participate in
/// the behavior: declaration order, with every field whose `skip` marker
/// names the behavior excluded.
pub fn participating_indices(fields: &Vec<Field>, k: BehaviorKind) -> (r: Vec<usize>)
    ensures
        r@.map_values(|u: usize| u as int) == spec_participating(fields@, k),
{
    let mut r: Vec<usize> = Vec::new();
    let mut i: usize = 0;
    while i < fields.len()
        invariant
            i <= fields@.len(),
            spec_participating(fields@, k) == r@.map_values(|u: usize| u as int) + part_from(
                fields@,
                k,
                i as int,
            ),
        decreases fields@.len() - i,
    {
        if participates(&fields[i], k) {
            let ghost prev = r@;
            r.push(i);
            proof {
                assert(r@.map_values(|u: usize| u as int) =~= prev.map_values(|u: usize| u as int)
                    + seq![i as int]);
                assert(prev.map_values(|u: usize| u as int) + (seq![i as int] + part_from(
                    fields@,
                    k,
                    i + 1,
                )) =~= r@.map_values(|u: usize| u as int) + part_from(fields@, k, i + 1));
            }
        }
        i = i + 1;
    }
    proof {
        assert(spec_participating(fields@, k) =~= r@.map_values(|u: usize| u as int));
    }
    r
}

/// Whether a field list is structurally empty for a behavior: no field
/// participates. Several behaviors special-case empty shapes, degenerating
/// to a no-op body rather than an empty match needing a catch-all arm.
pub fn is_empty_for(fields: &Vec<Field>, k: BehaviorKind) -> (r: bool)
    ensures
        r == (spec_participating(fields@, k).len() == 0),
{
    let idx = participating_indices(fields, k);
    idx.len() == 0
}

/// The stable binding name of the field at position `i`: the field's own
/// name, or its position for unnamed fields, behind a reserved prefix, so
/// that every behavior generates the same collision-free local name for the
/// same field.
pub open spec fn spec_binding(f: Field, i: int) -> Seq<char> {
    match f.name {
        Some(n) => "__"@ + n@,
        None => "__"@ + dec_digits(i as nat),
    }
}

/// The binding name used for the right-hand value in the bodies of binary
/// behaviors, distinct from the left-hand binding of the same field.
pub open spec fn spec_binding_rhs(f: Field, i: int) -> Seq<char> {
    match f.name {
        Some(n) => "__other_"@ + n@,
        None => "__other_"@ + dec_digits(i as nat),
    }
}

/// Builds the stable binding name of the field at position `i`.
pub fn binding_name(f: &Field, i: usize) -> (r: String)
    ensures
        r@ == spec_binding(*f, i as int),
{
    let mut r = String::from_str("__");
    match &f.name {
        Some(n) => r.append(n.as_str()),
        None => r.append(crate::text::u64_to_string(i as u64).as_str()),
    }
    r
}

/// Builds the right-hand binding name of the field at position `i`.
pub fn binding_name_rhs(f: &Field, i: usize) -> (r: String)
    ensures
        r@ == spec_binding_rhs(*f, i as int),
{
    let mut r = String::from_str("__other_");
    match &f.name {
        Some(n) => r.append(n.as_str()),
        None => r.append(crate::text::u64_to_string(i as u64).as_str()),
    }
    r
}

} // verus!
