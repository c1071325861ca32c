//! The bound resolver: computes, per behavior, the minimal set of
//! generic-parameter constraints the generated implementation needs.

use vstd::prelude::*;

use crate::behavior::BehaviorKind;
use crate::shape::{
    bound_participates, indices_contain, spec_bound_participates, Bound, BoundV, Field, ItemShape,
};

verus! {

/// Whether the declared type of some field in the list both contributes to
/// bound inference for the behavior and references generic parameter `j`.
pub open spec fn spec_fields_ref(fields: Seq<Field>, k: BehaviorKind, j: int) -> bool {
    exists|i: int, m: int|
        0 <= i < fields.len() && 0 <= m < fields[i].params@.len() && spec_bound_participates(
            fields[i],
            k,
        ) && fields[i].params@[m] as int == j
}

/// Whether generic parameter `j` is referenced by a field of the shape that
/// contributes to bound inference for the behavior.
pub open spec fn spec_shape_refs(shape: ItemShape, k: BehaviorKind, j: int) -> bool {
    match shape {
        ItemShape::Struct(fields) => spec_fields_ref(fields@, k, j),
        ItemShape::Tuple(fields) => spec_fields_ref(fields@, k, j),
        ItemShape::Unit => false,
        ItemShape::Enum(variants) => exists|i: int|
            0 <= i < variants@.len() && #[trigger] variant_refs(variants@[i], k, j),
        ItemShape::Union(fields) => spec_fields_ref(fields@, k, j),
    }
}

/// Whether one variant holds a contributing field referencing `j`.
pub open spec fn variant_refs(v: crate::shape::Variant, k: BehaviorKind, j: int) -> bool {
    spec_fields_ref(v.fields@, k, j)
}

/// The automatically inferred bound list over the generic parameters from
/// position `j` on: each parameter referenced by a contributing field gets
/// the behavior's capability; parameters never referenced by a contributing
/// field receive no constraint.
pub open spec fn inferred_from(
    generics: Seq<String>,
    shape: ItemShape,
    k: BehaviorKind,
    cap: Seq<char>,
    j: int,
) -> Seq<BoundV>
    decreases generics.len() - j
        when 0 <= j
{
    if j >= generics.len() {
        Seq::empty()
    } else if spec_shape_refs(shape, k, j) {
        seq![BoundV { param: generics[j]@, capability: cap }] + inferred_from(
            generics,
            shape,
            k,
            cap,
            j + 1,
        )
    } else {
        inferred_from(generics, shape, k, cap, j + 1)
    }
}

/// The resolved bound set of one behavior: the caller's explicit bound list
/// verbatim when one was supplied (automatic inference is skipped entirely),
/// the inferred minimal list otherwise.
pub open spec fn spec_resolve_bounds(
    generics: Seq<String>,
    shape: ItemShape,
    k: BehaviorKind,
    cap: Seq<char>,
    custom: Option<Seq<Bound>>,
) -> Seq<BoundV> {
    match custom {
        Some(bs) => bs.map_values(|b: Bound| b@),
        None => inferred_from(generics, shape, k, cap, 0),
    }
}

/// Whether a field list contains a contributing field referencing `j`.
fn fields_ref_param(fields: &Vec<Field>, k: BehaviorKind, j: usize) -> (r: bool)
    ensures
        r == spec_fields_ref(fields@, k, j as int),
{
    let mut i: usize = 0;
    while i < fields.len()
        invariant
            i <= fields@.len(),
            forall|l: int|
                0 <= l < i ==> !(spec_bound_participates(fields@[l], k)
                    && fields@[l].params@.contains(j)),
        decreases fields@.len() - i,
    {
        let f = &fields[i];
        if bound_participates(f, k) && indices_contain(&f.params, j) {
            proof {
                let m = choose|m: int| 0 <= m < f.params@.len() && f.params@[m] == j;
                assert(spec_fields_ref(fields@, k, j as int));
            }
            return true;
        }
        proof {
            if !fields@[i as int].params@.contains(j) {
                assert(forall|m: int|
                    0 <= m < fields@[i as int].params@.len() ==> fields@[i as int].params@[m] != j);
            }
        }
        i = i + 1;
    }
    false
}

/// Whether generic parameter `j` is referenced by a contributing field of
/// the shape.
pub fn shape_refs_param(shape: &ItemShape, k: BehaviorKind, j: usize) -> (r: bool)
    ensures
        r == spec_shape_refs(*shape, k, j as int),
{
    match shape {
        ItemShape::Struct(fields) => fields_ref_param(fields, k, j),
        ItemShape::Tuple(fields) => fields_ref_param(fields, k, j),
        ItemShape::Unit => false,
        ItemShape::Enum(variants) => {
            let mut i: usize = 0;
            while i < variants.len()
                invariant
                    i <= variants@.len(),
                    shape is Enum,
                    shape->Enum_0 == *variants,
                    forall|l: int| 0 <= l < i ==> !variant_refs(variants@[l], k, j as int),
                decreases variants@.len() - i,
            {
                if fields_ref_param(&variants[i].fields, k, j) {
                    proof {
                        let ghost w = i as int;
                        assert(0 <= w < variants@.len());
                        assert(variant_refs(variants@[w], k, j as int));
                        assert(shape is Enum);
                        assert(shape->Enum_0 == *variants);
                        assert(spec_shape_refs(*shape, k, j as int));
                    }
                    return true;
                }
                i = i + 1;
            }
            false
        },
        ItemShape::Union(fields) => fields_ref_param(fields, k, j),
    }
}

/// Resolves the bound set of one behavior on one item.
///
/// When the caller supplied an explicit bound list it is used verbatim —
/// explicit overrides are total, not additive. Otherwise every generic
/// parameter referenced by at least one contributing field's declared type
/// is constrained by `capability`, and no other parameter is constrained.
pub fn resolve_bounds(
    generics: &Vec<String>,
    shape: &ItemShape,
    kind: BehaviorKind,
    capability: &String,
    custom: &Option<Vec<Bound>>,
) -> (r: Vec<Bound>)
    ensures
        r@.map_values(|b: Bound| b@) == spec_resolve_bounds(
            generics@,
            *shape,
            kind,
            capability@,
            match custom {
                Some(bs) => Some(bs@),
                None => None,
            },
        ),
{
    match custom {
        Some(bs) => {
            let mut r: Vec<Bound> = Vec::new();
            let mut i: usize = 0;
            while i < bs.len()
                invariant
                    i <= bs@.len(),
                    r@.map_values(|b: Bound| b@) =~= bs@.take(i as int).map_values(|b: Bound| b@),
                decreases bs@.len() - i,
            {
                let ghost prev = r@;
                let ghost l = i as int;
                r.push(
                    Bound { param: bs[i].param.clone(), capability: bs[i].capability.clone() },
                );
                proof {
                    assert(r@.last()@ == bs@[l]@);
                    assert(r@.map_values(|b: Bound| b@) =~= prev.map_values(|b: Bound| b@).push(
                        bs@[l]@,
                    ));
                    assert(bs@.take(l + 1).map_values(|b: Bound| b@) =~= bs@.take(l).map_values(
                        |b: Bound| b@,
                    ).push(bs@[l]@));
                }
                i = i + 1;
            }
            proof {
                assert(bs@.take(bs@.len() as int) =~= bs@);
            }
            r
        },
        None => {
            let mut r: Vec<Bound> = Vec::new();
            let mut j: usize = 0;
            while j < generics.len()
                invariant
                    j <= generics@.len(),
                    inferred_from(generics@, *shape, kind, capability@, 0) == r@.map_values(
                        |b: Bound| b@,
                    ) + inferred_from(generics@, *shape, kind, capability@, j as int),
                decreases generics@.len() - j,
            {
                if shape_refs_param(shape, kind, j) {
                    let ghost prev = r@;
                    r.push(Bound { param: generics[j].clone(), capability: capability.clone() });
                    proof {
                        assert(r@.map_values(|b: Bound| b@) =~= prev.map_values(
                            |b: Bound| b@,
                        ).push(r@.last()@));
                        assert(prev.map_values(|b: Bound| b@) + (seq![r@.last()@] + inferred_from(
                            generics@,
                            *shape,
                            kind,
                            capability@,
                            j + 1,
                        )) =~= r@.map_values(|b: Bound| b@) + inferred_from(
                            generics@,
                            *shape,
                            kind,
                            capability@,
                            j + 1,
                        ));
                    }
                }
                j = j + 1;
            }
            proof {
                assert(inferred_from(generics@, *shape, kind, capability@, 0) =~= r@.map_values(
                    |b: Bound| b@,
                ));
            }
            r
        },
    }
}

proof fn lemma_inferred_names(
    generics: Seq<String>,
    shape: ItemShape,
    k: BehaviorKind,
    cap: Seq<char>,
    j0: int,
    name: Seq<char>,
)
    requires
        0 <= j0 <= generics.len(),
    ensures
        (exists|p: int|
            0 <= p < inferred_from(generics, shape, k, cap, j0).len() && inferred_from(
                generics,
                shape,
                k,
                cap,
                j0,
            )[p].param == name) <==> (exists|j: int|
            j0 <= j < generics.len() && generics[j]@ == name && spec_shape_refs(shape, k, j)),
    decreases generics.len() - j0,
{
    if j0 >= generics.len() {
    } else {
        lemma_inferred_names(generics, shape, k, cap, j0 + 1, name);
        let whole = inferred_from(generics, shape, k, cap, j0);
        let rest = inferred_from(generics, shape, k, cap, j0 + 1);
        let lhs = exists|p: int| 0 <= p < whole.len() && whole[p].param == name;
        let rhs = exists|j: int|
            j0 <= j < generics.len() && generics[j]@ == name && spec_shape_refs(shape, k, j);
        let lhs_rest = exists|p: int| 0 <= p < rest.len() && rest[p].param == name;
        let rhs_rest = exists|j: int|
            j0 + 1 <= j < generics.len() && generics[j]@ == name && spec_shape_refs(shape, k, j);
        if spec_shape_refs(shape, k, j0) {
            assert(whole == seq![BoundV { param: generics[j0]@, capability: cap }] + rest);
            assert(whole.len() == 1 + rest.len());
            assert(whole[0].param == generics[j0]@);
            assert(forall|p: int| 0 <= p < rest.len() ==> whole[p + 1] == rest[p]);
            if lhs {
                let p = choose|p: int| 0 <= p < whole.len() && whole[p].param == name;
                if p == 0 {
                    assert(generics[j0]@ == name && spec_shape_refs(shape, k, j0));
                    assert(rhs);
                } else {
                    assert(rest[p - 1].param == name);
                    assert(lhs_rest);
                    let j = choose|j: int|
                        j0 + 1 <= j < generics.len() && generics[j]@ == name && spec_shape_refs(
                            shape,
                            k,
                            j,
                        );
                    assert(rhs);
                }
            }
            if rhs {
                let j = choose|j: int|
                    j0 <= j < generics.len() && generics[j]@ == name && spec_shape_refs(
                        shape,
                        k,
                        j,
                    );
                if j == j0 {
                    assert(whole[0].param == name);
                    assert(lhs);
                } else {
                    assert(rhs_rest);
                    let p = choose|p: int| 0 <= p < rest.len() && rest[p].param == name;
                    assert(whole[p + 1].param == name);
                    assert(lhs);
                }
            }
        } else {
            assert(whole == rest);
            if rhs {
                let j = choose|j: int|
                    j0 <= j < generics.len() && generics[j]@ == name && spec_shape_refs(
                        shape,
                        k,
                        j,
                    );
                assert(j != j0);
                assert(rhs_rest);
            }
            if rhs_rest {
                let j = choose|j: int|
                    j0 + 1 <= j < generics.len() && generics[j]@ == name && spec_shape_refs(
                        shape,
                        k,
                        j,
                    );
                assert(rhs);
            }
        }
    }
}

/// The other half of skip-idempotence: a field marked skip for a behavior
/// is excluded from the behavior's bound inference outright, so it can
/// never be the field that puts a parameter into the bound set.
pub proof fn lemma_skip_excludes_bound(f: Field, k: BehaviorKind)
    requires
        !crate::shape::spec_participates(f, k),
    ensures
        !spec_bound_participates(f, k),
{
}

/// The minimal-bound law: with no explicit override, a generic parameter's
/// name appears in the resolved bound set if and only if the parameter is
/// referenced by the declared type of at least one field that participates
/// in the behavior and contributes to bound inference.
pub proof fn lemma_minimal_bounds(
    generics: Seq<String>,
    shape: ItemShape,
    k: BehaviorKind,
    cap: Seq<char>,
    j: int,
)
    requires
        0 <= j < generics.len(),
        forall|a: int, b: int|
            0 <= a < generics.len() && 0 <= b < generics.len() && a != b ==> generics[a]@
                != generics[b]@,
    ensures
        (exists|p: int|
            0 <= p < spec_resolve_bounds(generics, shape, k, cap, None).len()
                && spec_resolve_bounds(generics, shape, k, cap, None)[p].param == generics[j]@)
            <==> spec_shape_refs(shape, k, j),
{
    let name = generics[j]@;
    lemma_inferred_names(generics, shape, k, cap, 0, name);
    let infs = inferred_from(generics, shape, k, cap, 0);
    let resolved = spec_resolve_bounds(generics, shape, k, cap, None);
    assert(resolved == infs);
    if exists|p: int| 0 <= p < infs.len() && infs[p].param == name {
        let p = choose|p: int| 0 <= p < infs.len() && infs[p].param == name;
        assert(0 <= p < resolved.len() && resolved[p].param == name);
    }
    if exists|p: int| 0 <= p < resolved.len() && resolved[p].param == name {
        let p = choose|p: int| 0 <= p < resolved.len() && resolved[p].param == name;
        assert(0 <= p < infs.len() && infs[p].param == name);
    }
    let rhs = exists|j2: int|
        0 <= j2 < generics.len() && generics[j2]@ == name && spec_shape_refs(shape, k, j2);
    if rhs {
        let j2 = choose|j2: int|
            0 <= j2 < generics.len() && generics[j2]@ == name && spec_shape_refs(shape, k, j2);
        assert(j2 == j);
    }
    if spec_shape_refs(shape, k, j) {
        assert(0 <= j < generics.len() && generics[j]@ == name && spec_shape_refs(shape, k, j));
        assert(rhs);
    }
}

} // verus!
