//! The value-level meaning of the generated bodies: what the emitted
//! equality, ordering, hashing, cloning, default-construction, wipe and
//! teardown implementations compute on concrete field values.
//!
//! A field value is modeled as a machine integer; a product value is the
//! list of its field values in declaration order, and a sum value carries
//! its variant's ordinal next to the variant's field values.

use vstd::prelude::*;

use crate::behavior::BehaviorKind;
use crate::shape::{participates, spec_participates, Field, Variant};
use crate::{cmp_value, spec_cmp_value, Ordering};

verus! {

/// A concrete value of a sum-shaped item: the ordinal of its variant and
/// the variant's field values in declaration order.
#[derive(Clone, Debug, PartialEq, Eq)]
pub struct SumValue {
    pub variant: usize,
    pub fields: Vec<i64>,
}

/// The comparison the generated ordering body performs from field `i` on:
/// left to right over the participating fields, short-circuiting on the
/// first differing pair — lexicographic, leftmost field most significant.
pub open spec fn cmp_from(fields: Seq<Field>, k: BehaviorKind, a: Seq<i64>, b: Seq<i64>, i: int) -> Ordering
    decreases fields.len() - i
        when 0 <= i
{
    if i >= fields.len() {
        Ordering::Equal
    } else if spec_participates(fields[i], k) && a[i] != b[i] {
        spec_cmp_value(a[i] as int, b[i] as int)
    } else {
        cmp_from(fields, k, a, b, i + 1)
    }
}

/// What the generated ordering body returns on two product values.
pub open spec fn spec_cmp_fields(fields: Seq<Field>, k: BehaviorKind, a: Seq<i64>, b: Seq<i64>) -> Ordering {
    cmp_from(fields, k, a, b, 0)
}

/// Whether the generated equality body holds from field `i` on: every
/// participating pair equal.
pub open spec fn eq_from(fields: Seq<Field>, k: BehaviorKind, a: Seq<i64>, b: Seq<i64>, i: int) -> bool
    decreases fields.len() - i
        when 0 <= i
{
    if i >= fields.len() {
        true
    } else if spec_participates(fields[i], k) && a[i] != b[i] {
        false
    } else {
        eq_from(fields, k, a, b, i + 1)
    }
}

/// What the generated equality body returns on two product values.
pub open spec fn spec_eq_fields(fields: Seq<Field>, k: BehaviorKind, a: Seq<i64>, b: Seq<i64>) -> bool {
    eq_from(fields, k, a, b, 0)
}

/// What the generated ordering body returns on two sum values: values of
/// different variants are ordered by variant declaration order alone, and
/// only a matched same-variant pair is compared field by field.
pub open spec fn spec_cmp_sum(
    variants: Seq<Variant>,
    k: BehaviorKind,
    av: int,
    af: Seq<i64>,
    bv: int,
    bf: Seq<i64>,
) -> Ordering {
    if av != bv {
        spec_cmp_value(av, bv)
    } else {
        spec_cmp_fields(variants[av].fields@, k, af, bf)
    }
}

/// What the generated equality body returns on two sum values.
pub open spec fn spec_eq_sum(
    variants: Seq<Variant>,
    k: BehaviorKind,
    av: int,
    af: Seq<i64>,
    bv: int,
    bf: Seq<i64>,
) -> bool {
    av == bv && spec_eq_fields(variants[av].fields@, k, af, bf)
}

/// The values the generated hashing body feeds into the hash state from
/// field `i` on: the participating fields in declaration order.
pub open spec fn feed_from(fields: Seq<Field>, k: BehaviorKind, vals: Seq<i64>, i: int) -> Seq<i64>
    decreases fields.len() - i
        when 0 <= i
{
    if i >= fields.len() {
        Seq::empty()
    } else if spec_participates(fields[i], k) {
        seq![vals[i]] + feed_from(fields, k, vals, i + 1)
    } else {
        feed_from(fields, k, vals, i + 1)
    }
}

/// What the generated hashing body feeds for a product value.
pub open spec fn spec_feed_fields(fields: Seq<Field>, k: BehaviorKind, vals: Seq<i64>) -> Seq<i64> {
    feed_from(fields, k, vals, 0)
}

/// What the generated hashing body feeds for a sum value: the variant's
/// discriminant before any field, so that two values of different variants
/// feed differently even when their fields would coincide.
pub open spec fn spec_feed_sum(variants: Seq<Variant>, k: BehaviorKind, av: int, af: Seq<i64>) -> Seq<i64> {
    seq![av as i64] + spec_feed_fields(variants[av].fields@, k, af)
}

/// The post-state of the generated wipe body on a product value: every
/// participating field equals its zero representation, every skipped field
/// is untouched. The dispatch mechanism (fully qualified or not) has no
/// effect on the post-state.
pub open spec fn spec_wipe_vals(fields: Seq<Field>, vals: Seq<i64>) -> Seq<i64> {
    Seq::new(
        vals.len(),
        |i: int|
            if spec_participates(fields[i], BehaviorKind::Wipe) {
                0i64
            } else {
                vals[i]
            },
    )
}

/// The post-state of teardown: when the item defers wiping to teardown, the
/// destructor wipes every participating field before teardown completes;
/// otherwise teardown leaves every field as construction left it.
pub open spec fn spec_teardown_vals(fields: Seq<Field>, vals: Seq<i64>, wipes: bool) -> Seq<i64> {
    if wipes {
        spec_wipe_vals(fields, vals)
    } else {
        vals
    }
}

/// What the generated clone body reconstructs: participating fields are
/// cloned, skipped fields are reconstructed by default construction (the
/// per-skip reconstruction policy of the clonable behaviors).
pub open spec fn spec_clone_vals(fields: Seq<Field>, k: BehaviorKind, vals: Seq<i64>) -> Seq<i64> {
    Seq::new(
        vals.len(),
        |i: int|
            if spec_participates(fields[i], k) {
                vals[i]
            } else {
                0i64
            },
    )
}

/// What default construction produces for a product shape: every field
/// default-constructed.
pub open spec fn spec_default_vals(len: nat) -> Seq<i64> {
    Seq::new(len, |i: int| 0i64)
}

/// Evaluates the generated ordering body on two product values.
pub fn eval_cmp_product(fields: &Vec<Field>, k: BehaviorKind, a: &Vec<i64>, b: &Vec<i64>) -> (r: Ordering)
    requires
        a@.len() == fields@.len(),
        b@.len() == fields@.len(),
    ensures
        r == spec_cmp_fields(fields@, k, a@, b@),
{
    let mut i: usize = 0;
    while i < fields.len()
        invariant
            i <= fields@.len(),
            a@.len() == fields@.len(),
            b@.len() == fields@.len(),
            spec_cmp_fields(fields@, k, a@, b@) == cmp_from(fields@, k, a@, b@, i as int),
        decreases fields@.len() - i,
    {
        if participates(&fields[i], k) && a[i] != b[i] {
            return cmp_value(a[i], b[i]);
        }
        i = i + 1;
    }
    Ordering::Equal
}

/// Evaluates the generated equality body on two product values.
pub fn eval_eq_product(fields: &Vec<Field>, k: BehaviorKind, a: &Vec<i64>, b: &Vec<i64>) -> (r: bool)
    requires
        a@.len() == fields@.len(),
        b@.len() == fields@.len(),
    ensures
        r == spec_eq_fields(fields@, k, a@, b@),
{
    let mut i: usize = 0;
    while i < fields.len()
        invariant
            i <= fields@.len(),
            a@.len() == fields@.len(),
            b@.len() == fields@.len(),
            spec_eq_fields(fields@, k, a@, b@) == eq_from(fields@, k, a@, b@, i as int),
        decreases fields@.len() - i,
    {
        if participates(&fields[i], k) && a[i] != b[i] {
            return false;
        }
        i = i + 1;
    }
    true
}

/// Evaluates the generated ordering body on two sum values.
pub fn eval_cmp_sum(variants: &Vec<Variant>, k: BehaviorKind, a: &SumValue, b: &SumValue) -> (r: Ordering)
    requires
        a.variant < variants@.len(),
        b.variant < variants@.len(),
        a.fields@.len() == variants@[a.variant as int].fields@.len(),
        b.fields@.len() == variants@[b.variant as int].fields@.len(),
    ensures
        r == spec_cmp_sum(
            variants@,
            k,
            a.variant as int,
            a.fields@,
            b.variant as int,
            b.fields@,
        ),
{
    if a.variant < b.variant {
        Ordering::Less
    } else if a.variant > b.variant {
        Ordering::Greater
    } else {
        eval_cmp_product(&variants[a.variant].fields, k, &a.fields, &b.fields)
    }
}

/// Evaluates the generated equality body on two sum values.
pub fn eval_eq_sum(variants: &Vec<Variant>, k: BehaviorKind, a: &SumValue, b: &SumValue) -> (r: bool)
    requires
        a.variant < variants@.len(),
        b.variant < variants@.len(),
        a.fields@.len() == variants@[a.variant as int].fields@.len(),
        b.fields@.len() == variants@[b.variant as int].fields@.len(),
    ensures
        r == spec_eq_sum(
            variants@,
            k,
            a.variant as int,
            a.fields@,
            b.variant as int,
            b.fields@,
        ),
{
    if a.variant != b.variant {
        false
    } else {
        eval_eq_product(&variants[a.variant].fields, k, &a.fields, &b.fields)
    }
}

/// Evaluates the generated hashing body's feed for a product value.
pub fn eval_feed_product(fields: &Vec<Field>, k: BehaviorKind, vals: &Vec<i64>) -> (r: Vec<i64>)
    requires
        vals@.len() == fields@.len(),
    ensures
        r@ == spec_feed_fields(fields@, k, vals@),
{
    let mut r: Vec<i64> = Vec::new();
    let mut i: usize = 0;
    while i < fields.len()
        invariant
            i <= fields@.len(),
            vals@.len() == fields@.len(),
            spec_feed_fields(fields@, k, vals@) == r@ + feed_from(fields@, k, vals@, i as int),
        decreases fields@.len() - i,
    {
        if participates(&fields[i], k) {
            let ghost prev = r@;
            r.push(vals[i]);
            proof {
                assert(prev + (seq![vals@[i as int]] + feed_from(fields@, k, vals@, i + 1)) =~= r@
                    + feed_from(fields@, k, vals@, i + 1));
            }
        }
        i = i + 1;
    }
    proof {
        assert(spec_feed_fields(fields@, k, vals@) =~= r@);
    }
    r
}

/// Evaluates the generated hashing body's feed for a sum value.
pub fn eval_feed_sum(variants: &Vec<Variant>, k: BehaviorKind, a: &SumValue) -> (r: Vec<i64>)
    requires
        a.variant < variants@.len(),
        a.variant <= i64::MAX,
        a.fields@.len() == variants@[a.variant as int].fields@.len(),
    ensures
        r@ == spec_feed_sum(variants@, k, a.variant as int, a.fields@),
{
    let mut r: Vec<i64> = Vec::new();
    r.push(a.variant as i64);
    let mut rest = eval_feed_product(&variants[a.variant].fields, k, &a.fields);
    let mut i: usize = 0;
    while i < rest.len()
        invariant
            i <= rest@.len(),
            r@ == seq![a.variant as i64] + rest@.take(i as int),
        decreases rest@.len() - i,
    {
        let ghost prev = r@;
        r.push(rest[i]);
        proof {
            assert(prev.push(rest@[i as int]) =~= seq![a.variant as i64] + rest@.take(i + 1));
        }
        i = i + 1;
    }
    proof {
        assert(rest@.take(rest@.len() as int) =~= rest@);
        assert(r@ =~= spec_feed_sum(variants@, k, a.variant as int, a.fields@));
    }
    r
}

/// Evaluates the generated wipe body on a product value: the post-state of
/// the wiped value.
pub fn eval_wipe(fields: &Vec<Field>, vals: &Vec<i64>) -> (r: Vec<i64>)
    requires
        vals@.len() == fields@.len(),
    ensures
        r@ == spec_wipe_vals(fields@, vals@),
{
    let mut r: Vec<i64> = Vec::new();
    let mut i: usize = 0;
    while i < vals.len()
        invariant
            i <= vals@.len(),
            vals@.len() == fields@.len(),
            r@.len() == i,
            forall|l: int| 0 <= l < i ==> r@[l] == spec_wipe_vals(fields@, vals@)[l],
        decreases vals@.len() - i,
    {
        if participates(&fields[i], BehaviorKind::Wipe) {
            r.push(0);
        } else {
            r.push(vals[i]);
        }
        i = i + 1;
    }
    proof {
        assert(r@ =~= spec_wipe_vals(fields@, vals@));
    }
    r
}

/// Evaluates teardown on a product value: wipes when the configuration
/// defers wiping to the destructor, leaves the value untouched otherwise.
pub fn eval_teardown(fields: &Vec<Field>, vals: &Vec<i64>, wipes: bool) -> (r: Vec<i64>)
    requires
        vals@.len() == fields@.len(),
    ensures
        r@ == spec_teardown_vals(fields@, vals@, wipes),
{
    if wipes {
        eval_wipe(fields, vals)
    } else {
        let mut r: Vec<i64> = Vec::new();
        let mut i: usize = 0;
        while i < vals.len()
            invariant
                i <= vals@.len(),
                r@ == vals@.take(i as int),
            decreases vals@.len() - i,
        {
            let ghost prev = r@;
            r.push(vals[i]);
            proof {
                assert(prev.push(vals@[i as int]) =~= vals@.take(i + 1));
            }
            i = i + 1;
        }
        proof {
            assert(vals@.take(vals@.len() as int) =~= vals@);
        }
        r
    }
}

/// Evaluates the generated clone body on a product value.
pub fn eval_clone_product(fields: &Vec<Field>, k: BehaviorKind, vals: &Vec<i64>) -> (r: Vec<i64>)
    requires
        vals@.len() == fields@.len(),
    ensures
        r@ == spec_clone_vals(fields@, k, vals@),
{
    let mut r: Vec<i64> = Vec::new();
    let mut i: usize = 0;
    while i < vals.len()
        invariant
            i <= vals@.len(),
            vals@.len() == fields@.len(),
            r@.len() == i,
            forall|l: int| 0 <= l < i ==> r@[l] == spec_clone_vals(fields@, k, vals@)[l],
        decreases vals@.len() - i,
    {
        if participates(&fields[i], k) {
            r.push(vals[i]);
        } else {
            r.push(0);
        }
        i = i + 1;
    }
    proof {
        assert(r@ =~= spec_clone_vals(fields@, k, vals@));
    }
    r
}

/// Evaluates default construction of a product shape: every field at its
/// default representation.
pub fn eval_default_product(len: usize) -> (r: Vec<i64>)
    ensures
        r@ == spec_default_vals(len as nat),
{
    let mut r: Vec<i64> = Vec::new();
    let mut i: usize = 0;
    while i < len
        invariant
            i <= len,
            r@.len() == i,
            forall|l: int| 0 <= l < i ==> r@[l] == 0i64,
        decreases len - i,
    {
        r.push(0);
        i = i + 1;
    }
    proof {
        assert(r@ =~= spec_default_vals(len as nat));
    }
    r
}

proof fn lemma_cmp_from_first_diff(
    fields: Seq<Field>,
    k: BehaviorKind,
    a: Seq<i64>,
    b: Seq<i64>,
    i: int,
    j: int,
)
    requires
        a.len() == fields.len(),
        b.len() == fields.len(),
        0 <= j <= i < fields.len(),
        spec_participates(fields[i], k),
        a[i] != b[i],
        forall|l: int| 0 <= l < i && spec_participates(fields[l], k) ==> a[l] == b[l],
    ensures
        cmp_from(fields, k, a, b, j) == spec_cmp_value(a[i] as int, b[i] as int),
    decreases i - j,
{
    if j == i {
    } else {
        lemma_cmp_from_first_diff(fields, k, a, b, i, j + 1);
    }
}

/// The lexicographic-ordering law: on two product values that first differ
/// at participating field `i`, the ordering result equals the ordering of
/// the two values of field `i`, regardless of every later field's values.
pub proof fn lemma_lexicographic_ordering(
    fields: Seq<Field>,
    k: BehaviorKind,
    a: Seq<i64>,
    b: Seq<i64>,
    i: int,
)
    requires
        a.len() == fields.len(),
        b.len() == fields.len(),
        0 <= i < fields.len(),
        spec_participates(fields[i], k),
        a[i] != b[i],
        forall|l: int| 0 <= l < i && spec_participates(fields[l], k) ==> a[l] == b[l],
    ensures
        spec_cmp_fields(fields, k, a, b) == spec_cmp_value(a[i] as int, b[i] as int),
{
    lemma_cmp_from_first_diff(fields, k, a, b, i, 0);
}

/// The discriminant-precedence law: on two sum values of different
/// variants, ordering and equality depend on the variants' declaration
/// order alone, never on any field's contents.
pub proof fn lemma_discriminant_precedence(
    variants: Seq<Variant>,
    k: BehaviorKind,
    av: int,
    af: Seq<i64>,
    bv: int,
    bf: Seq<i64>,
)
    requires
        av != bv,
    ensures
        spec_cmp_sum(variants, k, av, af, bv, bf) == spec_cmp_value(av, bv),
        !spec_eq_sum(variants, k, av, af, bv, bf),
{
}

proof fn lemma_cmp_from_skip(
    fields: Seq<Field>,
    k: BehaviorKind,
    a: Seq<i64>,
    a2: Seq<i64>,
    b: Seq<i64>,
    i: int,
    j: int,
)
    requires
        a.len() == fields.len(),
        a2.len() == fields.len(),
        b.len() == fields.len(),
        0 <= i < fields.len(),
        0 <= j,
        !spec_participates(fields[i], k),
        forall|l: int| 0 <= l < fields.len() && l != i ==> a2[l] == a[l],
    ensures
        cmp_from(fields, k, a2, b, j) == cmp_from(fields, k, a, b, j),
        eq_from(fields, k, a2, b, j) == eq_from(fields, k, a, b, j),
        feed_from(fields, k, a2, j) == feed_from(fields, k, a, j),
    decreases fields.len() - j,
{
    if j >= fields.len() {
    } else {
        lemma_cmp_from_skip(fields, k, a, a2, b, i, j + 1);
        if j != i {
            assert(a2[j] == a[j]);
        }
    }
}

/// The skip-idempotence law: a field marked skip for a behavior is excluded
/// from the behavior's body, so varying that field's value changes nothing
/// the behavior computes — not its ordering result, not its equality
/// result, not its hash feed. (Its exclusion from the bound set is the
/// minimal-bound law: a skipped field never contributes a constraint.)
pub proof fn lemma_skip_idempotence(
    fields: Seq<Field>,
    k: BehaviorKind,
    a: Seq<i64>,
    a2: Seq<i64>,
    b: Seq<i64>,
    i: int,
)
    requires
        a.len() == fields.len(),
        a2.len() == fields.len(),
        b.len() == fields.len(),
        0 <= i < fields.len(),
        !spec_participates(fields[i], k),
        forall|l: int| 0 <= l < fields.len() && l != i ==> a2[l] == a[l],
    ensures
        spec_cmp_fields(fields, k, a2, b) == spec_cmp_fields(fields, k, a, b),
        spec_eq_fields(fields, k, a2, b) == spec_eq_fields(fields, k, a, b),
        spec_feed_fields(fields, k, a2) == spec_feed_fields(fields, k, a),
{
    lemma_cmp_from_skip(fields, k, a, a2, b, i, 0);
}

/// The wipe-then-default law: after the wipe, every participating field
/// equals its zero representation and every skipped field is untouched;
/// and the dispatch mechanism is observationally transparent — two field
/// lists that differ only in their fully-qualified markers produce the
/// identical post-state.
pub proof fn lemma_wipe_then_default(
    fields: Seq<Field>,
    fields2: Seq<Field>,
    vals: Seq<i64>,
)
    requires
        vals.len() == fields.len(),
        fields2.len() == fields.len(),
        forall|l: int| 0 <= l < fields.len() ==> fields2[l].skip == fields[l].skip,
    ensures
        forall|l: int|
            0 <= l < vals.len() && spec_participates(fields[l], BehaviorKind::Wipe)
                ==> spec_wipe_vals(fields, vals)[l] == 0i64,
        forall|l: int|
            0 <= l < vals.len() && !spec_participates(fields[l], BehaviorKind::Wipe)
                ==> spec_wipe_vals(fields, vals)[l] == vals[l],
        spec_wipe_vals(fields2, vals) == spec_wipe_vals(fields, vals),
{
    assert forall|l: int| 0 <= l < fields.len() implies spec_participates(
        fields2[l],
        BehaviorKind::Wipe,
    ) == spec_participates(fields[l], BehaviorKind::Wipe) by {
        assert(fields2[l].skip == fields[l].skip);
    }
    assert(spec_wipe_vals(fields2, vals) =~= spec_wipe_vals(fields, vals));
}

/// The teardown-triggers-wipe law: with wiping deferred to teardown, a
/// value's fields hold exactly what construction put there until teardown
/// runs, and by the time teardown completes every participating field is
/// wiped; without the deferral, teardown touches nothing.
pub proof fn lemma_teardown_triggers_wipe(fields: Seq<Field>, vals: Seq<i64>)
    requires
        vals.len() == fields.len(),
    ensures
        forall|l: int|
            0 <= l < vals.len() && spec_participates(fields[l], BehaviorKind::Wipe)
                ==> spec_teardown_vals(fields, vals, true)[l] == 0i64,
        forall|l: int|
            0 <= l < vals.len() && !spec_participates(fields[l], BehaviorKind::Wipe)
                ==> spec_teardown_vals(fields, vals, true)[l] == vals[l],
        spec_teardown_vals(fields, vals, false) == vals,
{
}

} // verus!
