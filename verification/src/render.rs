//! The value-level meaning of the generated debug-formatting bodies: the
//! type or variant name followed by the participating fields in declaration
//! order, in the layout of the shape.

use vstd::prelude::*;
use vstd::string::StringExecFns;

use crate::behavior::BehaviorKind;
use crate::semantics::SumValue;
use crate::shape::{participates, spec_participates, Field, Variant};
use crate::text::{dec_int, i64_to_string, join_strings, spec_join, views_of};

verus! {

/// The rendering of one participating field: its value in decimal, behind
/// its `name: ` label in a named layout.
pub open spec fn spec_entry(f: Field, v: i64, named: bool) -> Seq<char> {
    if named {
        match f.name {
            Some(n) => n@ + ": "@ + dec_int(v as int),
            None => dec_int(v as int),
        }
    } else {
        dec_int(v as int)
    }
}

/// The renderings of the participating fields from position `i` on.
pub open spec fn entries_from(
    fields: Seq<Field>,
    k: BehaviorKind,
    vals: Seq<i64>,
    named: bool,
    i: int,
) -> Seq<Seq<char>>
    decreases fields.len() - i
        when 0 <= i
{
    if i >= fields.len() {
        Seq::empty()
    } else if spec_participates(fields[i], k) {
        seq![spec_entry(fields[i], vals[i], named)] + entries_from(fields, k, vals, named, i + 1)
    } else {
        entries_from(fields, k, vals, named, i + 1)
    }
}

/// What the generated debug body renders for a product value: the name
/// alone for a shape with no participating field, the brace layout for
/// named fields, the parenthesis layout otherwise.
pub open spec fn spec_debug_product(
    name: Seq<char>,
    named: bool,
    fields: Seq<Field>,
    k: BehaviorKind,
    vals: Seq<i64>,
) -> Seq<char> {
    let es = entries_from(fields, k, vals, named, 0);
    if es.len() == 0 {
        name
    } else if named {
        name + " { "@ + spec_join(es, ", "@) + " }"@
    } else {
        name + "("@ + spec_join(es, ", "@) + ")"@
    }
}

/// What the generated debug body renders for a sum value: its variant's
/// name and participating fields, in the variant's own layout.
pub open spec fn spec_debug_sum(
    variants: Seq<Variant>,
    k: BehaviorKind,
    av: int,
    af: Seq<i64>,
) -> Seq<char> {
    spec_debug_product(variants[av].name@, variants[av].named, variants[av].fields@, k, af)
}

fn render_entries(fields: &Vec<Field>, k: BehaviorKind, vals: &Vec<i64>, named: bool) -> (r: Vec<
    String,
>)
    requires
        vals@.len() == fields@.len(),
    ensures
        views_of(r@) == entries_from(fields@, k, vals@, named, 0),
{
    let mut r: Vec<String> = Vec::new();
    let mut i: usize = 0;
    while i < fields.len()
        invariant
            i <= fields@.len(),
            vals@.len() == fields@.len(),
            entries_from(fields@, k, vals@, named, 0) == views_of(r@) + entries_from(
                fields@,
                k,
                vals@,
                named,
                i as int,
            ),
        decreases fields@.len() - i,
    {
        let f = &fields[i];
        if participates(f, k) {
            let ghost prev = r@;
            let rendered = i64_to_string(vals[i]);
            let entry = if named {
                match &f.name {
                    Some(n) => {
                        let mut e = n.clone();
                        e.append(": ");
                        e.append(rendered.as_str());
                        e
                    },
                    None => rendered,
                }
            } else {
                rendered
            };
            r.push(entry);
            proof {
                assert(r@.last()@ == spec_entry(fields@[i as int], vals@[i as int], named));
                assert(views_of(r@) =~= views_of(prev).push(r@.last()@));
                assert(views_of(prev) + (seq![r@.last()@] + entries_from(
                    fields@,
                    k,
                    vals@,
                    named,
                    i + 1,
                )) =~= views_of(r@) + entries_from(fields@, k, vals@, named, i + 1));
            }
        }
        i = i + 1;
    }
    proof {
        assert(entries_from(fields@, k, vals@, named, 0) =~= views_of(r@));
    }
    r
}

/// Renders what the generated debug body prints for a product value.
pub fn render_debug_product(
    name: &String,
    named: bool,
    fields: &Vec<Field>,
    k: BehaviorKind,
    vals: &Vec<i64>,
) -> (r: String)
    requires
        vals@.len() == fields@.len(),
    ensures
        r@ == spec_debug_product(name@, named, fields@, k, vals@),
{
    let entries = render_entries(fields, k, vals, named);
    if entries.len() == 0 {
        name.clone()
    } else {
        let joined = join_strings(&entries, ", ");
        let mut r = name.clone();
        if named {
            r.append(" { ");
            r.append(joined.as_str());
            r.append(" }");
        } else {
            r.append("(");
            r.append(joined.as_str());
            r.append(")");
        }
        r
    }
}

proof fn lemma_entries_from_skip(
    fields: Seq<Field>,
    k: BehaviorKind,
    a: Seq<i64>,
    a2: Seq<i64>,
    named: bool,
    i: int,
    j: int,
)
    requires
        a.len() == fields.len(),
        a2.len() == fields.len(),
        0 <= i < fields.len(),
        0 <= j,
        !spec_participates(fields[i], k),
        forall|l: int| 0 <= l < fields.len() && l != i ==> a2[l] == a[l],
    ensures
        entries_from(fields, k, a2, named, j) == entries_from(fields, k, a, named, j),
    decreases fields.len() - j,
{
    if j >= fields.len() {
    } else {
        lemma_entries_from_skip(fields, k, a, a2, named, i, j + 1);
        if j != i {
            assert(a2[j] == a[j]);
        }
    }
}

/// The skip-idempotence law for debug formatting: a field marked skip is
/// excluded from the rendering, so varying its value changes nothing the
/// debug body prints.
pub proof fn lemma_debug_skip_idempotence(
    name: Seq<char>,
    named: bool,
    fields: Seq<Field>,
    k: BehaviorKind,
    a: Seq<i64>,
    a2: Seq<i64>,
    i: int,
)
    requires
        a.len() == fields.len(),
        a2.len() == fields.len(),
        0 <= i < fields.len(),
        !spec_participates(fields[i], k),
        forall|l: int| 0 <= l < fields.len() && l != i ==> a2[l] == a[l],
    ensures
        spec_debug_product(name, named, fields, k, a2) == spec_debug_product(
            name,
            named,
            fields,
            k,
            a,
        ),
{
    lemma_entries_from_skip(fields, k, a, a2, named, i, 0);
}

/// Renders what the generated debug body prints for a sum value.
pub fn render_debug_sum(variants: &Vec<Variant>, k: BehaviorKind, a: &SumValue) -> (r: String)
    requires
        a.variant < variants@.len(),
        a.fields@.len() == variants@[a.variant as int].fields@.len(),
    ensures
        r@ == spec_debug_sum(variants@, k, a.variant as int, a.fields@),
{
    let v = &variants[a.variant];
    render_debug_product(&v.name, v.named, &v.fields, k, &a.fields)
}

} // verus!
