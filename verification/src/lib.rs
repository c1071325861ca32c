//! A derive-style implementation synthesizer with precise constraint
//! inference.
//!
//! Given a structural description of a data type (a product type with named
//! or unnamed fields, or a sum type with variants, parameterized over generic
//! type parameters) and a set of requested standard behaviors (equality,
//! ordering, hashing, cloning, default construction, debug formatting,
//! secure wipe, and so on), the library computes, for each behavior, the
//! minimal set of generic-parameter bounds actually needed and produces one
//! structured implementation block per behavior. An external emitter renders
//! the blocks into source text; an external attribute parser hands the
//! library already-structured configuration entries.

use vstd::prelude::*;

mod behavior;
mod bounds;
mod builders;
mod options;
mod output;
mod paths;
mod render;
mod semantics;
mod shape;
mod synth;
mod text;
mod zeroize;

pub use behavior::BehaviorKind;
pub use bounds::{lemma_minimal_bounds, lemma_skip_excludes_bound, resolve_bounds, shape_refs_param};
pub use builders::{build_arms, build_clone_fields, build_default_fields, build_ops, OpMode};
pub use options::{ConfigError, OptionEntry, OptionValue, WipeConfig};
pub use output::{
    Body, BodyArm, Ctor, CtorField, CtorSource, FieldBinding, FieldOp, ImplBlock, Pattern,
    Receiver, Signature,
};
pub use paths::{capability_path, drop_path, path_is_valid, wipe_root};
pub use render::{lemma_debug_skip_idempotence, render_debug_product, render_debug_sum};
pub use semantics::{
    eval_clone_product, eval_cmp_product, eval_cmp_sum, eval_default_product, eval_eq_product,
    eval_eq_sum, eval_feed_product, eval_feed_sum, eval_teardown, eval_wipe,
    lemma_discriminant_precedence, lemma_lexicographic_ordering, lemma_skip_idempotence,
    lemma_teardown_triggers_wipe, lemma_wipe_then_default, SumValue,
};
pub use shape::{
    binding_name, binding_name_rhs, bound_participates, is_empty_for, participates,
    participating_indices, Bound, Field, Item, ItemShape, RequestedBehavior, Variant,
};
pub use synth::{
    behavior_signature, build_clone_body, build_compare_body, build_debug_body,
    build_default_body, build_hash_body, build_teardown_body, count_defaults, drop_signature,
    first_default, lemma_missing_default_variant, lemma_union_shape_mismatch,
    lemma_wipe_teardown_emission, synthesize,
};
pub use text::{i64_to_string, join_strings, u64_to_string};
pub use zeroize::Zeroize;

verus! {

/// The comparison outcome produced by the ordering behaviors.
#[derive(Clone, Copy, Debug, PartialEq, Eq, Structural)]
pub enum Ordering {
    Less,
    Equal,
    Greater,
}

/// Compares two field values the way a generated ordering body compares one
/// participating field pair.
pub fn cmp_value(a: i64, b: i64) -> (r: Ordering)
    ensures
        r == spec_cmp_value(a as int, b as int),
{
    if a < b {
        Ordering::Less
    } else if a == b {
        Ordering::Equal
    } else {
        Ordering::Greater
    }
}

/// What `cmp_value` returns: the order of two field values.
pub open spec fn spec_cmp_value(a: int, b: int) -> Ordering {
    if a < b {
        Ordering::Less
    } else if a == b {
        Ordering::Equal
    } else {
        Ordering::Greater
    }
}

} // verus!
