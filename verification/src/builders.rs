//! The body builders of the catalog's remaining behaviors: comparison,
//! hashing, debug formatting, cloning, default construction, and the
//! teardown body of the wipe-on-teardown behavior.

use vstd::prelude::*;

use crate::behavior::BehaviorKind;
use crate::output::{
    make_pattern, make_rhs_pattern, spec_field_name, spec_pattern, spec_rhs_pattern, variant_path,
    BodyArm, BodyArmV, CtorField, CtorFieldV, CtorSource, CtorSourceV, FieldOp, FieldOpV,
};
use crate::shape::{
    binding_name, binding_name_rhs, participates, spec_binding, spec_binding_rhs,
    spec_participates, Field, Variant,
};

verus! {

/// Which per-field operation a body builder emits for each participating
/// field.
#[derive(Clone, Copy, Debug, PartialEq, Eq, Structural)]
pub enum OpMode {
    /// The teardown call of the wipe-on-teardown destructor.
    Teardown,
    /// One lexicographic comparison step of the ordering and equality
    /// bodies.
    Compare,
    /// Feeding the field into the hash state.
    Feed,
    /// Rendering the field in the debug layout.
    Debug,
}

/// The operation emitted for the field at position `i` under a mode.
pub open spec fn spec_op(f: Field, i: int, mode: OpMode) -> FieldOpV {
    match mode {
        OpMode::Teardown => FieldOpV::WipeOrTeardown { binding: spec_binding(f, i) },
        OpMode::Compare => FieldOpV::Compare {
            left: spec_binding(f, i),
            right: spec_binding_rhs(f, i),
        },
        OpMode::Feed => FieldOpV::Feed { binding: spec_binding(f, i) },
        OpMode::Debug => FieldOpV::DebugField {
            label: spec_field_name(f),
            binding: spec_binding(f, i),
        },
    }
}

/// The operations of the fields from position `i` on: one per participating
/// field, in declaration order.
pub open spec fn ops_from(fields: Seq<Field>, k: BehaviorKind, mode: OpMode, i: int) -> Seq<
    FieldOpV,
>
    decreases fields.len() - i
        when 0 <= i
{
    if i >= fields.len() {
        Seq::empty()
    } else if spec_participates(fields[i], k) {
        seq![spec_op(fields[i], i, mode)] + ops_from(fields, k, mode, i + 1)
    } else {
        ops_from(fields, k, mode, i + 1)
    }
}

/// Appends the per-field operations of one field list to `r`.
pub fn push_ops(r: &mut Vec<FieldOp>, fields: &Vec<Field>, k: BehaviorKind, mode: OpMode)
    ensures
        final(r)@.map_values(|o: FieldOp| o@) == old(r)@.map_values(|o: FieldOp| o@) + ops_from(
            fields@,
            k,
            mode,
            0,
        ),
{
    let ghost base = r@.map_values(|o: FieldOp| o@);
    let mut i: usize = 0;
    while i < fields.len()
        invariant
            i <= fields@.len(),
            base + ops_from(fields@, k, mode, 0) == r@.map_values(|o: FieldOp| o@) + ops_from(
                fields@,
                k,
                mode,
                i as int,
            ),
        decreases fields@.len() - i,
    {
        let f = &fields[i];
        if participates(f, k) {
            let ghost prev = r@;
            let op = match mode {
                OpMode::Teardown => FieldOp::WipeOrTeardown { binding: binding_name(f, i) },
                OpMode::Compare => FieldOp::Compare {
                    left: binding_name(f, i),
                    right: binding_name_rhs(f, i),
                },
                OpMode::Feed => FieldOp::Feed { binding: binding_name(f, i) },
                OpMode::Debug => FieldOp::DebugField {
                    label: match &f.name {
                        Some(n) => Some(n.clone()),
                        None => None,
                    },
                    binding: binding_name(f, i),
                },
            };
            r.push(op);
            proof {
                assert(r@.last()@ == spec_op(fields@[i as int], i as int, mode));
                assert(r@.map_values(|o: FieldOp| o@) =~= prev.map_values(|o: FieldOp| o@).push(
                    r@.last()@,
                ));
                assert(prev.map_values(|o: FieldOp| o@) + (seq![r@.last()@] + ops_from(
                    fields@,
                    k,
                    mode,
                    i + 1,
                )) =~= r@.map_values(|o: FieldOp| o@) + ops_from(fields@, k, mode, i + 1));
            }
        }
        i = i + 1;
    }
    proof {
        assert(base + ops_from(fields@, k, mode, 0) =~= r@.map_values(|o: FieldOp| o@));
    }
}

/// Builds the per-field operations of one field list.
pub fn build_ops(fields: &Vec<Field>, k: BehaviorKind, mode: OpMode) -> (r: Vec<FieldOp>)
    ensures
        r@.map_values(|o: FieldOp| o@) == ops_from(fields@, k, mode, 0),
{
    let mut r: Vec<FieldOp> = Vec::new();
    proof {
        assert(r@.map_values(|o: FieldOp| o@) =~= Seq::<FieldOpV>::empty());
    }
    push_ops(&mut r, fields, k, mode);
    proof {
        assert(Seq::<FieldOpV>::empty() + ops_from(fields@, k, mode, 0) =~= ops_from(
            fields@,
            k,
            mode,
            0,
        ));
    }
    r
}

/// One match arm of a sum shape's body under a mode: the variant's pattern
/// (and a right-hand pattern for binary behaviors), the discriminant feed
/// when hashing, then the per-field operations.
pub open spec fn spec_arm(
    item_name: Seq<char>,
    v: Variant,
    ordinal: int,
    k: BehaviorKind,
    mode: OpMode,
    with_rhs: bool,
    with_disc: bool,
) -> BodyArmV {
    BodyArmV {
        pattern: spec_pattern(item_name + "::"@ + v.name@, v.named, v.fields@),
        rhs_pattern: if with_rhs {
            Some(spec_rhs_pattern(item_name + "::"@ + v.name@, v.named, v.fields@))
        } else {
            None
        },
        ops: (if with_disc {
            seq![FieldOpV::FeedDiscriminant { ordinal: ordinal as u64 }]
        } else {
            Seq::empty()
        }) + ops_from(v.fields@, k, mode, 0),
        result: None,
    }
}

/// The arms of a sum shape's body from variant `i` on.
pub open spec fn arms_from(
    item_name: Seq<char>,
    variants: Seq<Variant>,
    k: BehaviorKind,
    mode: OpMode,
    with_rhs: bool,
    with_disc: bool,
    i: int,
) -> Seq<BodyArmV>
    decreases variants.len() - i
        when 0 <= i
{
    if i >= variants.len() {
        Seq::empty()
    } else {
        seq![spec_arm(item_name, variants[i], i, k, mode, with_rhs, with_disc)] + arms_from(
            item_name,
            variants,
            k,
            mode,
            with_rhs,
            with_disc,
            i + 1,
        )
    }
}

/// Builds the arms of a sum shape's body.
pub fn build_arms(
    item_name: &String,
    variants: &Vec<Variant>,
    k: BehaviorKind,
    mode: OpMode,
    with_rhs: bool,
    with_disc: bool,
) -> (r: Vec<BodyArm>)
    requires
        variants@.len() <= u64::MAX,
    ensures
        r@.map_values(|a: BodyArm| a@) == arms_from(
            item_name@,
            variants@,
            k,
            mode,
            with_rhs,
            with_disc,
            0,
        ),
{
    let mut r: Vec<BodyArm> = Vec::new();
    let mut i: usize = 0;
    while i < variants.len()
        invariant
            i <= variants@.len(),
            variants@.len() <= u64::MAX,
            arms_from(item_name@, variants@, k, mode, with_rhs, with_disc, 0) == r@.map_values(
                |a: BodyArm| a@,
            ) + arms_from(item_name@, variants@, k, mode, with_rhs, with_disc, i as int),
        decreases variants@.len() - i,
    {
        let v = &variants[i];
        let ghost prev = r@;
        let pattern = make_pattern(variant_path(item_name, &v.name), v.named, &v.fields);
        let rhs_pattern = if with_rhs {
            Some(make_rhs_pattern(variant_path(item_name, &v.name), v.named, &v.fields))
        } else {
            None
        };
        let mut ops: Vec<FieldOp> = Vec::new();
        if with_disc {
            ops.push(FieldOp::FeedDiscriminant { ordinal: i as u64 });
        }
        proof {
            if with_disc {
                assert(ops@.map_values(|o: FieldOp| o@) =~= seq![
                    FieldOpV::FeedDiscriminant { ordinal: i as u64 },
                ]);
            } else {
                assert(ops@.map_values(|o: FieldOp| o@) =~= Seq::<FieldOpV>::empty());
            }
        }
        push_ops(&mut ops, &v.fields, k, mode);
        r.push(BodyArm { pattern, rhs_pattern, ops, result: None });
        proof {
            assert(r@.last()@.ops =~= spec_arm(
                item_name@,
                variants@[i as int],
                i as int,
                k,
                mode,
                with_rhs,
                with_disc,
            ).ops);
            assert(r@.last()@ == spec_arm(
                item_name@,
                variants@[i as int],
                i as int,
                k,
                mode,
                with_rhs,
                with_disc,
            ));
            assert(r@.map_values(|a: BodyArm| a@) =~= prev.map_values(|a: BodyArm| a@).push(
                r@.last()@,
            ));
            assert(prev.map_values(|a: BodyArm| a@) + (seq![r@.last()@] + arms_from(
                item_name@,
                variants@,
                k,
                mode,
                with_rhs,
                with_disc,
                i + 1,
            )) =~= r@.map_values(|a: BodyArm| a@) + arms_from(
                item_name@,
                variants@,
                k,
                mode,
                with_rhs,
                with_disc,
                i + 1,
            ));
        }
        i = i + 1;
    }
    proof {
        assert(arms_from(item_name@, variants@, k, mode, with_rhs, with_disc, 0) =~= r@.map_values(
            |a: BodyArm| a@,
        ));
    }
    r
}

/// The constructor fields of a clone body: participating fields are cloned
/// from their bindings, skipped fields are default-reconstructed.
pub open spec fn clone_fields_from(fields: Seq<Field>, k: BehaviorKind, i: int) -> Seq<CtorFieldV>
    decreases fields.len() - i
        when 0 <= i
{
    if i >= fields.len() {
        Seq::empty()
    } else {
        seq![
            CtorFieldV {
                field_name: spec_field_name(fields[i]),
                source: if spec_participates(fields[i], k) {
                    CtorSourceV::Cloned(spec_binding(fields[i], i))
                } else {
                    CtorSourceV::Defaulted
                },
            },
        ] + clone_fields_from(fields, k, i + 1)
    }
}

/// The constructor fields of a default-construction body: every field
/// default-constructed.
pub open spec fn default_fields_from(fields: Seq<Field>, i: int) -> Seq<CtorFieldV>
    decreases fields.len() - i
        when 0 <= i
{
    if i >= fields.len() {
        Seq::empty()
    } else {
        seq![
            CtorFieldV { field_name: spec_field_name(fields[i]), source: CtorSourceV::Defaulted },
        ] + default_fields_from(fields, i + 1)
    }
}

/// Builds the constructor fields of a clone body.
pub fn build_clone_fields(fields: &Vec<Field>, k: BehaviorKind) -> (r: Vec<CtorField>)
    ensures
        r@.map_values(|f: CtorField| f@) == clone_fields_from(fields@, k, 0),
{
    let mut r: Vec<CtorField> = Vec::new();
    let mut i: usize = 0;
    while i < fields.len()
        invariant
            i <= fields@.len(),
            clone_fields_from(fields@, k, 0) == r@.map_values(|f: CtorField| f@)
                + clone_fields_from(fields@, k, i as int),
        decreases fields@.len() - i,
    {
        let f = &fields[i];
        let ghost prev = r@;
        let field_name = match &f.name {
            Some(n) => Some(n.clone()),
            None => None,
        };
        let source = if participates(f, k) {
            CtorSource::Cloned(binding_name(f, i))
        } else {
            CtorSource::Defaulted
        };
        r.push(CtorField { field_name, source });
        proof {
            assert(r@.last()@ == clone_fields_from(fields@, k, i as int)[0]);
            assert(r@.map_values(|f: CtorField| f@) =~= prev.map_values(|f: CtorField| f@).push(
                r@.last()@,
            ));
            assert(prev.map_values(|f: CtorField| f@) + (seq![r@.last()@] + clone_fields_from(
                fields@,
                k,
                i + 1,
            )) =~= r@.map_values(|f: CtorField| f@) + clone_fields_from(fields@, k, i + 1));
        }
        i = i + 1;
    }
    proof {
        assert(clone_fields_from(fields@, k, 0) =~= r@.map_values(|f: CtorField| f@));
    }
    r
}

/// Builds the constructor fields of a default-construction body.
pub fn build_default_fields(fields: &Vec<Field>) -> (r: Vec<CtorField>)
    ensures
        r@.map_values(|f: CtorField| f@) == default_fields_from(fields@, 0),
{
    let mut r: Vec<CtorField> = Vec::new();
    let mut i: usize = 0;
    while i < fields.len()
        invariant
            i <= fields@.len(),
            default_fields_from(fields@, 0) == r@.map_values(|f: CtorField| f@)
                + default_fields_from(fields@, i as int),
        decreases fields@.len() - i,
    {
        let f = &fields[i];
        let ghost prev = r@;
        let field_name = match &f.name {
            Some(n) => Some(n.clone()),
            None => None,
        };
        r.push(CtorField { field_name, source: CtorSource::Defaulted });
        proof {
            assert(r@.last()@ == default_fields_from(fields@, i as int)[0]);
            assert(r@.map_values(|f: CtorField| f@) =~= prev.map_values(|f: CtorField| f@).push(
                r@.last()@,
            ));
            assert(prev.map_values(|f: CtorField| f@) + (seq![r@.last()@] + default_fields_from(
                fields@,
                i + 1,
            )) =~= r@.map_values(|f: CtorField| f@) + default_fields_from(fields@, i + 1));
        }
        i = i + 1;
    }
    proof {
        assert(default_fields_from(fields@, 0) =~= r@.map_values(|f: CtorField| f@));
    }
    r
}

} // verus!
