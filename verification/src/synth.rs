//! The synthesizer: validates an item's requested behaviors and produces one
//! implementation block per behavior (plus any behavior-triggered auxiliary
//! block), in request order, or the first configuration error found.

use vstd::prelude::*;
use vstd::string::StringExecFns;

use crate::behavior::BehaviorKind;
use crate::bounds::{resolve_bounds, spec_resolve_bounds};
use crate::builders::{arms_from, build_arms, build_clone_fields, build_default_fields, build_ops,
    clone_fields_from, default_fields_from, ops_from, OpMode};
use crate::options::{ConfigError, ErrorV, WipeConfig, WipeConfigV};
use crate::output::{make_pattern, make_rhs_pattern, spec_pattern, spec_rhs_pattern, variant_path,
    Body, BodyArm, BodyArmV, BodyV, Ctor, CtorV, ImplBlock, ImplBlockV, Receiver, Signature,
    SignatureV};
use crate::paths::{capability_path, drop_path, spec_capability_path, spec_drop_path};
use crate::shape::{Bound, Field, Item, ItemShape, RequestedBehavior, Variant};
use crate::zeroize::{spec_wipe_body, spec_wipe_signature, Zeroize};

verus! {

/// Whether a behavior belongs to the wipe family, whose options go through
/// the wipe option parser.
pub open spec fn spec_is_wipe_kind(k: BehaviorKind) -> bool {
    k is Wipe || k is WipeOnTeardown
}

/// The declared signature of each behavior's generated method; the marker
/// behaviors declare none.
pub open spec fn spec_signature(k: BehaviorKind) -> Option<SignatureV> {
    match k {
        BehaviorKind::Clone => Some(
            SignatureV {
                method: "clone"@,
                receiver: Receiver::Ref,
                params: Seq::empty(),
                ret: Some("Self"@),
            },
        ),
        BehaviorKind::Copy => None,
        BehaviorKind::Debug => Some(
            SignatureV {
                method: "fmt"@,
                receiver: Receiver::Ref,
                params: seq!["&mut ::core::fmt::Formatter"@],
                ret: Some("::core::fmt::Result"@),
            },
        ),
        BehaviorKind::Default => Some(
            SignatureV {
                method: "default"@,
                receiver: Receiver::Static,
                params: Seq::empty(),
                ret: Some("Self"@),
            },
        ),
        BehaviorKind::Eq => None,
        BehaviorKind::Hash => Some(
            SignatureV {
                method: "hash"@,
                receiver: Receiver::Ref,
                params: seq!["&mut H"@],
                ret: None,
            },
        ),
        BehaviorKind::Ord => Some(
            SignatureV {
                method: "cmp"@,
                receiver: Receiver::Ref,
                params: seq!["&Self"@],
                ret: Some("::core::cmp::Ordering"@),
            },
        ),
        BehaviorKind::PartialEq => Some(
            SignatureV {
                method: "eq"@,
                receiver: Receiver::Ref,
                params: seq!["&Self"@],
                ret: Some("bool"@),
            },
        ),
        BehaviorKind::PartialOrd => Some(
            SignatureV {
                method: "partial_cmp"@,
                receiver: Receiver::Ref,
                params: seq!["&Self"@],
                ret: Some("::core::option::Option<::core::cmp::Ordering>"@),
            },
        ),
        BehaviorKind::Wipe => Some(spec_wipe_signature()),
        BehaviorKind::WipeOnTeardown => None,
    }
}

/// The declared signature of the auxiliary destructor block.
pub open spec fn spec_drop_signature() -> SignatureV {
    SignatureV { method: "drop"@, receiver: Receiver::MutRef, params: Seq::empty(), ret: None }
}

/// Builds the declared signature of a behavior's generated method.
pub fn behavior_signature(k: BehaviorKind) -> (r: Option<Signature>)
    ensures
        match r {
            Some(s) => spec_signature(k) == Some(s@),
            None => spec_signature(k) is None,
        },
{
    let r = match k {
        BehaviorKind::Clone => Some(
            Signature {
                method: String::from_str("clone"),
                receiver: Receiver::Ref,
                params: Vec::new(),
                ret: Some(String::from_str("Self")),
            },
        ),
        BehaviorKind::Copy => None,
        BehaviorKind::Debug => Some(
            Signature {
                method: String::from_str("fmt"),
                receiver: Receiver::Ref,
                params: vec![String::from_str("&mut ::core::fmt::Formatter")],
                ret: Some(String::from_str("::core::fmt::Result")),
            },
        ),
        BehaviorKind::Default => Some(
            Signature {
                method: String::from_str("default"),
                receiver: Receiver::Static,
                params: Vec::new(),
                ret: Some(String::from_str("Self")),
            },
        ),
        BehaviorKind::Eq => None,
        BehaviorKind::Hash => Some(
            Signature {
                method: String::from_str("hash"),
                receiver: Receiver::Ref,
                params: vec![String::from_str("&mut H")],
                ret: None,
            },
        ),
        BehaviorKind::Ord => Some(
            Signature {
                method: String::from_str("cmp"),
                receiver: Receiver::Ref,
                params: vec![String::from_str("&Self")],
                ret: Some(String::from_str("::core::cmp::Ordering")),
            },
        ),
        BehaviorKind::PartialEq => Some(
            Signature {
                method: String::from_str("eq"),
                receiver: Receiver::Ref,
                params: vec![String::from_str("&Self")],
                ret: Some(String::from_str("bool")),
            },
        ),
        BehaviorKind::PartialOrd => Some(
            Signature {
                method: String::from_str("partial_cmp"),
                receiver: Receiver::Ref,
                params: vec![String::from_str("&Self")],
                ret: Some(String::from_str("::core::option::Option<::core::cmp::Ordering>")),
            },
        ),
        BehaviorKind::Wipe => Some(Zeroize.build_signature()),
        BehaviorKind::WipeOnTeardown => None,
    };
    proof {
        match &r {
            Some(s) => {
                assert(s@.params =~= spec_signature(k)->Some_0.params);
            },
            None => {},
        }
    }
    r
}

/// Builds the declared signature of the auxiliary destructor block.
pub fn drop_signature() -> (r: Signature)
    ensures
        r@ == spec_drop_signature(),
{
    let r = Signature {
        method: String::from_str("drop"),
        receiver: Receiver::MutRef,
        params: Vec::new(),
        ret: None,
    };
    proof {
        assert(r@.params =~= spec_drop_signature().params);
    }
    r
}

/// The body of the comparison behaviors: one arm per matched same-variant
/// pair, comparing the participating field pairs left to right; two values
/// of different variants are ordered by variant declaration order, without
/// inspecting any field.
pub open spec fn spec_compare_body(name: Seq<char>, shape: ItemShape, k: BehaviorKind) -> BodyV {
    match shape {
        ItemShape::Struct(fields) => spec_compare_product(name, true, fields@, k),
        ItemShape::Tuple(fields) => spec_compare_product(name, false, fields@, k),
        ItemShape::Unit => BodyV::Empty,
        ItemShape::Enum(variants) => if variants@.len() == 0 {
            BodyV::Empty
        } else {
            BodyV::Match(arms_from(name, variants@, k, OpMode::Compare, true, false, 0))
        },
        ItemShape::Union(fields) => BodyV::Empty,
    }
}

/// The comparison body of a product shape.
pub open spec fn spec_compare_product(
    name: Seq<char>,
    named: bool,
    fields: Seq<Field>,
    k: BehaviorKind,
) -> BodyV {
    let ops = ops_from(fields, k, OpMode::Compare, 0);
    if ops.len() == 0 {
        BodyV::Empty
    } else {
        BodyV::Match(
            seq![
                BodyArmV {
                    pattern: spec_pattern(name, named, fields),
                    rhs_pattern: Some(spec_rhs_pattern(name, named, fields)),
                    ops,
                    result: None,
                },
            ],
        )
    }
}

/// The body of the hashing behavior: product shapes feed their
/// participating fields in declaration order; sum shapes feed the variant's
/// discriminant before any field.
pub open spec fn spec_hash_body(name: Seq<char>, shape: ItemShape) -> BodyV {
    match shape {
        ItemShape::Struct(fields) => spec_hash_product(name, true, fields@),
        ItemShape::Tuple(fields) => spec_hash_product(name, false, fields@),
        ItemShape::Unit => BodyV::Empty,
        ItemShape::Enum(variants) => if variants@.len() == 0 {
            BodyV::Empty
        } else {
            BodyV::Match(arms_from(name, variants@, BehaviorKind::Hash, OpMode::Feed, false, true, 0))
        },
        ItemShape::Union(fields) => BodyV::Empty,
    }
}

/// The hashing body of a product shape.
pub open spec fn spec_hash_product(name: Seq<char>, named: bool, fields: Seq<Field>) -> BodyV {
    let ops = ops_from(fields, BehaviorKind::Hash, OpMode::Feed, 0);
    if ops.len() == 0 {
        BodyV::Empty
    } else {
        BodyV::Match(
            seq![
                BodyArmV {
                    pattern: spec_pattern(name, named, fields),
                    rhs_pattern: None,
                    ops,
                    result: None,
                },
            ],
        )
    }
}

/// The body of the debug behavior: the type or variant name followed by the
/// participating fields in declaration order.
pub open spec fn spec_debug_body(name: Seq<char>, shape: ItemShape) -> BodyV {
    match shape {
        ItemShape::Struct(fields) => spec_debug_product(name, true, fields@),
        ItemShape::Tuple(fields) => spec_debug_product(name, false, fields@),
        ItemShape::Unit => BodyV::Empty,
        ItemShape::Enum(variants) => if variants@.len() == 0 {
            BodyV::Empty
        } else {
            BodyV::Match(
                arms_from(name, variants@, BehaviorKind::Debug, OpMode::Debug, false, false, 0),
            )
        },
        ItemShape::Union(fields) => BodyV::Empty,
    }
}

/// The debug body of a product shape.
pub open spec fn spec_debug_product(name: Seq<char>, named: bool, fields: Seq<Field>) -> BodyV {
    let ops = ops_from(fields, BehaviorKind::Debug, OpMode::Debug, 0);
    if ops.len() == 0 {
        BodyV::Empty
    } else {
        BodyV::Match(
            seq![
                BodyArmV {
                    pattern: spec_pattern(name, named, fields),
                    rhs_pattern: None,
                    ops,
                    result: None,
                },
            ],
        )
    }
}

/// The clone arms of a sum shape's variants from position `i` on.
pub open spec fn clone_arms_from(
    item_name: Seq<char>,
    variants: Seq<Variant>,
    k: BehaviorKind,
    i: int,
) -> Seq<BodyArmV>
    decreases variants.len() - i
        when 0 <= i
{
    if i >= variants.len() {
        Seq::empty()
    } else {
        let v = variants[i];
        seq![
            BodyArmV {
                pattern: spec_pattern(item_name + "::"@ + v.name@, v.named, v.fields@),
                rhs_pattern: None,
                ops: Seq::empty(),
                result: Some(
                    CtorV {
                        path: item_name + "::"@ + v.name@,
                        named: v.named,
                        fields: clone_fields_from(v.fields@, k, 0),
                    },
                ),
            },
        ] + clone_arms_from(item_name, variants, k, i + 1)
    }
}

/// The body of the clone behavior: reconstruct the same shape or variant,
/// cloning each participating field and default-reconstructing each skipped
/// one; a union is cloned by bitwise copy.
pub open spec fn spec_clone_body(name: Seq<char>, shape: ItemShape, k: BehaviorKind) -> BodyV {
    match shape {
        ItemShape::Struct(fields) => spec_clone_product(name, true, fields@, k),
        ItemShape::Tuple(fields) => spec_clone_product(name, false, fields@, k),
        ItemShape::Unit => spec_clone_product(name, false, Seq::empty(), k),
        ItemShape::Enum(variants) => if variants@.len() == 0 {
            BodyV::Empty
        } else {
            BodyV::Match(clone_arms_from(name, variants@, k, 0))
        },
        ItemShape::Union(fields) => BodyV::CopySelf,
    }
}

/// The clone body of a product shape.
pub open spec fn spec_clone_product(
    name: Seq<char>,
    named: bool,
    fields: Seq<Field>,
    k: BehaviorKind,
) -> BodyV {
    BodyV::Match(
        seq![
            BodyArmV {
                pattern: spec_pattern(name, named, fields),
                rhs_pattern: None,
                ops: Seq::empty(),
                result: Some(
                    CtorV { path: name, named, fields: clone_fields_from(fields, k, 0) },
                ),
            },
        ],
    )
}

/// The number of variants from position `i` on that carry the default
/// marker.
pub open spec fn count_defaults_from(variants: Seq<Variant>, i: int) -> int
    decreases variants.len() - i
        when 0 <= i
{
    if i >= variants.len() {
        0
    } else {
        (if variants[i].is_default {
            1int
        } else {
            0int
        }) + count_defaults_from(variants, i + 1)
    }
}

/// The position of the first variant carrying the default marker, or the
/// variant count when none does.
pub open spec fn first_default_from(variants: Seq<Variant>, i: int) -> int
    decreases variants.len() - i
        when 0 <= i
{
    if i >= variants.len() {
        variants.len() as int
    } else if variants[i].is_default {
        i
    } else {
        first_default_from(variants, i + 1)
    }
}

proof fn lemma_count_pos_first(variants: Seq<Variant>, i: int)
    requires
        0 <= i,
        count_defaults_from(variants, i) > 0,
    ensures
        i <= first_default_from(variants, i) < variants.len(),
        variants[first_default_from(variants, i)].is_default,
    decreases variants.len() - i,
{
    if i >= variants.len() {
    } else if variants[i].is_default {
    } else {
        lemma_count_pos_first(variants, i + 1);
    }
}

/// The body of default construction: product shapes default-construct every
/// field; a sum shape constructs exactly its marked-default variant.
/// Defined on the shapes validation lets through: a sum shape with exactly
/// one marker, and any product shape.
pub open spec fn spec_default_body(name: Seq<char>, shape: ItemShape) -> BodyV {
    match shape {
        ItemShape::Struct(fields) => BodyV::Construct(
            CtorV { path: name, named: true, fields: default_fields_from(fields@, 0) },
        ),
        ItemShape::Tuple(fields) => BodyV::Construct(
            CtorV { path: name, named: false, fields: default_fields_from(fields@, 0) },
        ),
        ItemShape::Unit => BodyV::Construct(
            CtorV { path: name, named: false, fields: Seq::empty() },
        ),
        ItemShape::Enum(variants) => {
            let d = first_default_from(variants@, 0);
            BodyV::Construct(
                CtorV {
                    path: name + "::"@ + variants@[d].name@,
                    named: variants@[d].named,
                    fields: default_fields_from(variants@[d].fields@, 0),
                },
            )
        },
        ItemShape::Union(fields) => BodyV::Empty,
    }
}

/// The teardown body of the wipe-on-teardown behavior: every participating
/// field of every variant is wiped or recursively torn down, in declaration
/// order, continuing through all fields.
pub open spec fn spec_teardown_body(name: Seq<char>, shape: ItemShape) -> BodyV {
    match shape {
        ItemShape::Struct(fields) => spec_teardown_product(name, true, fields@),
        ItemShape::Tuple(fields) => spec_teardown_product(name, false, fields@),
        ItemShape::Unit => BodyV::Empty,
        ItemShape::Enum(variants) => if variants@.len() == 0 {
            BodyV::Empty
        } else {
            BodyV::Match(
                arms_from(
                    name,
                    variants@,
                    BehaviorKind::WipeOnTeardown,
                    OpMode::Teardown,
                    false,
                    false,
                    0,
                ),
            )
        },
        ItemShape::Union(fields) => BodyV::Empty,
    }
}

/// The teardown body of a product shape.
pub open spec fn spec_teardown_product(name: Seq<char>, named: bool, fields: Seq<Field>) -> BodyV {
    let ops = ops_from(fields, BehaviorKind::WipeOnTeardown, OpMode::Teardown, 0);
    if ops.len() == 0 {
        BodyV::Empty
    } else {
        BodyV::Match(
            seq![
                BodyArmV {
                    pattern: spec_pattern(name, named, fields),
                    rhs_pattern: None,
                    ops,
                    result: None,
                },
            ],
        )
    }
}

fn single_arm_body(
    name: &String,
    named: bool,
    fields: &Vec<Field>,
    k: BehaviorKind,
    mode: OpMode,
    with_rhs: bool,
) -> (r: Body)
    ensures
        ({
            let ops = ops_from(fields@, k, mode, 0);
            r@ == if ops.len() == 0 {
                BodyV::Empty
            } else {
                BodyV::Match(
                    seq![
                        BodyArmV {
                            pattern: spec_pattern(name@, named, fields@),
                            rhs_pattern: if with_rhs {
                                Some(spec_rhs_pattern(name@, named, fields@))
                            } else {
                                None
                            },
                            ops,
                            result: None,
                        },
                    ],
                )
            }
        }),
{
    let ops = build_ops(fields, k, mode);
    if ops.len() == 0 {
        Body::Empty
    } else {
        let pattern = make_pattern(name.clone(), named, fields);
        let rhs_pattern = if with_rhs {
            Some(make_rhs_pattern(name.clone(), named, fields))
        } else {
            None
        };
        let arm = BodyArm { pattern, rhs_pattern, ops, result: None };
        let ghost armv = arm@;
        let r = Body::Match(vec![arm]);
        proof {
            assert(r@->Match_0 =~= seq![armv]);
        }
        r
    }
}

/// Builds the body of a comparison behavior.
pub fn build_compare_body(name: &String, shape: &ItemShape, k: BehaviorKind) -> (r: Body)
    ensures
        r@ == spec_compare_body(name@, *shape, k),
{
    match shape {
        ItemShape::Struct(fields) => single_arm_body(name, true, fields, k, OpMode::Compare, true),
        ItemShape::Tuple(fields) => single_arm_body(name, false, fields, k, OpMode::Compare, true),
        ItemShape::Unit => Body::Empty,
        ItemShape::Enum(variants) => {
            if variants.len() == 0 {
                Body::Empty
            } else {
                let arms = build_arms(name, variants, k, OpMode::Compare, true, false);
                let r = Body::Match(arms);
                proof {
                    assert(r@->Match_0 =~= arms_from(
                        name@,
                        variants@,
                        k,
                        OpMode::Compare,
                        true,
                        false,
                        0,
                    ));
                }
                r
            }
        },
        ItemShape::Union(fields) => Body::Empty,
    }
}

/// Builds the body of the hashing behavior.
pub fn build_hash_body(name: &String, shape: &ItemShape) -> (r: Body)
    ensures
        r@ == spec_hash_body(name@, *shape),
{
    match shape {
        ItemShape::Struct(fields) => single_arm_body(
            name,
            true,
            fields,
            BehaviorKind::Hash,
            OpMode::Feed,
            false,
        ),
        ItemShape::Tuple(fields) => single_arm_body(
            name,
            false,
            fields,
            BehaviorKind::Hash,
            OpMode::Feed,
            false,
        ),
        ItemShape::Unit => Body::Empty,
        ItemShape::Enum(variants) => {
            if variants.len() == 0 {
                Body::Empty
            } else {
                let arms = build_arms(name, variants, BehaviorKind::Hash, OpMode::Feed, false, true);
                let r = Body::Match(arms);
                proof {
                    assert(r@->Match_0 =~= arms_from(
                        name@,
                        variants@,
                        BehaviorKind::Hash,
                        OpMode::Feed,
                        false,
                        true,
                        0,
                    ));
                }
                r
            }
        },
        ItemShape::Union(fields) => Body::Empty,
    }
}

/// Builds the body of the debug behavior.
pub fn build_debug_body(name: &String, shape: &ItemShape) -> (r: Body)
    ensures
        r@ == spec_debug_body(name@, *shape),
{
    match shape {
        ItemShape::Struct(fields) => single_arm_body(
            name,
            true,
            fields,
            BehaviorKind::Debug,
            OpMode::Debug,
            false,
        ),
        ItemShape::Tuple(fields) => single_arm_body(
            name,
            false,
            fields,
            BehaviorKind::Debug,
            OpMode::Debug,
            false,
        ),
        ItemShape::Unit => Body::Empty,
        ItemShape::Enum(variants) => {
            if variants.len() == 0 {
                Body::Empty
            } else {
                let arms = build_arms(
                    name,
                    variants,
                    BehaviorKind::Debug,
                    OpMode::Debug,
                    false,
                    false,
                );
                let r = Body::Match(arms);
                proof {
                    assert(r@->Match_0 =~= arms_from(
                        name@,
                        variants@,
                        BehaviorKind::Debug,
                        OpMode::Debug,
                        false,
                        false,
                        0,
                    ));
                }
                r
            }
        },
        ItemShape::Union(fields) => Body::Empty,
    }
}

/// Builds the body of the teardown destructor of wipe-on-teardown.
pub fn build_teardown_body(name: &String, shape: &ItemShape) -> (r: Body)
    ensures
        r@ == spec_teardown_body(name@, *shape),
{
    match shape {
        ItemShape::Struct(fields) => single_arm_body(
            name,
            true,
            fields,
            BehaviorKind::WipeOnTeardown,
            OpMode::Teardown,
            false,
        ),
        ItemShape::Tuple(fields) => single_arm_body(
            name,
            false,
            fields,
            BehaviorKind::WipeOnTeardown,
            OpMode::Teardown,
            false,
        ),
        ItemShape::Unit => Body::Empty,
        ItemShape::Enum(variants) => {
            if variants.len() == 0 {
                Body::Empty
            } else {
                let arms = build_arms(
                    name,
                    variants,
                    BehaviorKind::WipeOnTeardown,
                    OpMode::Teardown,
                    false,
                    false,
                );
                let r = Body::Match(arms);
                proof {
                    assert(r@->Match_0 =~= arms_from(
                        name@,
                        variants@,
                        BehaviorKind::WipeOnTeardown,
                        OpMode::Teardown,
                        false,
                        false,
                        0,
                    ));
                }
                r
            }
        },
        ItemShape::Union(fields) => Body::Empty,
    }
}

fn clone_product_body(name: &String, named: bool, fields: &Vec<Field>, k: BehaviorKind) -> (r:
    Body)
    ensures
        r@ == spec_clone_product(name@, named, fields@, k),
{
    let pattern = make_pattern(name.clone(), named, fields);
    let ctor = Ctor { path: name.clone(), named, fields: build_clone_fields(fields, k) };
    let arm = BodyArm { pattern, rhs_pattern: None, ops: Vec::new(), result: Some(ctor) };
    let ghost armv = arm@;
    let r = Body::Match(vec![arm]);
    proof {
        assert(armv.ops =~= spec_clone_product(name@, named, fields@, k)->Match_0[0].ops);
        assert(r@->Match_0 =~= seq![armv]);
        assert(armv == spec_clone_product(name@, named, fields@, k)->Match_0[0]);
        assert(r@->Match_0 =~= spec_clone_product(name@, named, fields@, k)->Match_0);
    }
    r
}

/// Builds the body of the clone behavior.
pub fn build_clone_body(name: &String, shape: &ItemShape, k: BehaviorKind) -> (r: Body)
    ensures
        r@ == spec_clone_body(name@, *shape, k),
{
    match shape {
        ItemShape::Struct(fields) => clone_product_body(name, true, fields, k),
        ItemShape::Tuple(fields) => clone_product_body(name, false, fields, k),
        ItemShape::Unit => {
            let empty_fields: Vec<Field> = Vec::new();
            let r = clone_product_body(name, false, &empty_fields, k);
            proof {
                assert(empty_fields@ =~= Seq::<Field>::empty());
            }
            r
        },
        ItemShape::Enum(variants) => {
            if variants.len() == 0 {
                Body::Empty
            } else {
                let mut arms: Vec<BodyArm> = Vec::new();
                let mut i: usize = 0;
                while i < variants.len()
                    invariant
                        i <= variants@.len(),
                        clone_arms_from(name@, variants@, k, 0) == arms@.map_values(
                            |a: BodyArm| a@,
                        ) + clone_arms_from(name@, variants@, k, i as int),
                    decreases variants@.len() - i,
                {
                    let v = &variants[i];
                    let ghost prev = arms@;
                    let pattern = make_pattern(variant_path(name, &v.name), v.named, &v.fields);
                    let ctor = Ctor {
                        path: variant_path(name, &v.name),
                        named: v.named,
                        fields: build_clone_fields(&v.fields, k),
                    };
                    arms.push(
                        BodyArm { pattern, rhs_pattern: None, ops: Vec::new(), result: Some(ctor) },
                    );
                    proof {
                        assert(arms@.last()@.ops =~= clone_arms_from(
                            name@,
                            variants@,
                            k,
                            i as int,
                        )[0].ops);
                        assert(arms@.last()@ == clone_arms_from(name@, variants@, k, i as int)[0]);
                        assert(arms@.map_values(|a: BodyArm| a@) =~= prev.map_values(
                            |a: BodyArm| a@,
                        ).push(arms@.last()@));
                        assert(prev.map_values(|a: BodyArm| a@) + (seq![arms@.last()@]
                            + clone_arms_from(name@, variants@, k, i + 1)) =~= arms@.map_values(
                            |a: BodyArm| a@,
                        ) + clone_arms_from(name@, variants@, k, i + 1));
                    }
                    i = i + 1;
                }
                proof {
                    assert(clone_arms_from(name@, variants@, k, 0) =~= arms@.map_values(
                        |a: BodyArm| a@,
                    ));
                }
                Body::Match(arms)
            }
        },
        ItemShape::Union(fields) => Body::CopySelf,
    }
}

/// Counts the variants carrying the default marker.
pub fn count_defaults(variants: &Vec<Variant>) -> (r: usize)
    ensures
        r as int == count_defaults_from(variants@, 0),
{
    let mut r: usize = 0;
    let mut i: usize = 0;
    while i < variants.len()
        invariant
            i <= variants@.len(),
            r <= i,
            count_defaults_from(variants@, 0) == r + count_defaults_from(variants@, i as int),
        decreases variants@.len() - i,
    {
        if variants[i].is_default {
            r = r + 1;
        }
        i = i + 1;
    }
    r
}

/// Finds the variant carrying the default marker.
pub fn first_default(variants: &Vec<Variant>) -> (r: usize)
    requires
        count_defaults_from(variants@, 0) > 0,
    ensures
        r as int == first_default_from(variants@, 0),
        r < variants@.len(),
        variants@[r as int].is_default,
{
    proof {
        lemma_count_pos_first(variants@, 0);
    }
    let mut i: usize = 0;
    while i < variants.len()
        invariant
            i <= variants@.len(),
            first_default_from(variants@, 0) == first_default_from(variants@, i as int),
            first_default_from(variants@, 0) < variants@.len(),
            variants@[first_default_from(variants@, 0)].is_default,
        decreases variants@.len() - i,
    {
        if variants[i].is_default {
            return i;
        }
        i = i + 1;
    }
    proof {
        assert(false);
    }
    0
}

/// Builds the body of default construction; on a sum shape, exactly one
/// variant must carry the default marker.
pub fn build_default_body(name: &String, shape: &ItemShape) -> (r: Body)
    requires
        shape is Enum ==> count_defaults_from(shape->Enum_0@, 0) > 0,
        !(shape is Union),
    ensures
        r@ == spec_default_body(name@, *shape),
{
    match shape {
        ItemShape::Struct(fields) => {
            let ctor = Ctor { path: name.clone(), named: true, fields: build_default_fields(fields) };
            Body::Construct(ctor)
        },
        ItemShape::Tuple(fields) => {
            let ctor = Ctor {
                path: name.clone(),
                named: false,
                fields: build_default_fields(fields),
            };
            Body::Construct(ctor)
        },
        ItemShape::Unit => {
            let ctor = Ctor { path: name.clone(), named: false, fields: Vec::new() };
            let r = Body::Construct(ctor);
            proof {
                assert(r@->Construct_0.fields =~= Seq::<crate::output::CtorFieldV>::empty());
            }
            r
        },
        ItemShape::Enum(variants) => {
            let d = first_default(variants);
            let v = &variants[d];
            let ctor = Ctor {
                path: variant_path(name, &v.name),
                named: v.named,
                fields: build_default_fields(&v.fields),
            };
            Body::Construct(ctor)
        },
        ItemShape::Union(fields) => Body::Empty,
    }
}

/// Whether an earlier request names the same behavior: duplicate requests
/// are a configuration error.
pub open spec fn spec_dup_before(behaviors: Seq<RequestedBehavior>, bi: int) -> bool {
    exists|l: int| 0 <= l < bi && #[trigger] behaviors[l].kind == behaviors[bi].kind
}

/// The span of the first field from position `i` on whose skip marker names
/// the behavior.
pub open spec fn fields_bad_skip_from(fields: Seq<Field>, k: BehaviorKind, i: int) -> Option<u64>
    decreases fields.len() - i
        when 0 <= i
{
    if i >= fields.len() {
        None
    } else if fields[i].skip@.contains(k) {
        Some(fields[i].span)
    } else {
        fields_bad_skip_from(fields, k, i + 1)
    }
}

/// The span of the first field of any variant from position `i` on whose
/// skip marker names the behavior.
pub open spec fn variants_bad_skip_from(variants: Seq<Variant>, k: BehaviorKind, i: int) -> Option<
    u64,
>
    decreases variants.len() - i
        when 0 <= i
{
    if i >= variants.len() {
        None
    } else {
        match fields_bad_skip_from(variants[i].fields@, k, 0) {
            Some(span) => Some(span),
            None => variants_bad_skip_from(variants, k, i + 1),
        }
    }
}

/// The span of the first field of the shape whose skip marker names the
/// behavior, in declaration order.
pub open spec fn spec_shape_bad_skip(shape: ItemShape, k: BehaviorKind) -> Option<u64> {
    match shape {
        ItemShape::Struct(fields) => fields_bad_skip_from(fields@, k, 0),
        ItemShape::Tuple(fields) => fields_bad_skip_from(fields@, k, 0),
        ItemShape::Unit => None,
        ItemShape::Enum(variants) => variants_bad_skip_from(variants@, k, 0),
        ItemShape::Union(fields) => fields_bad_skip_from(fields@, k, 0),
    }
}

/// The configuration error of the behavior at position `bi`, if it has one.
///
/// The checks run in a fixed order: a duplicate request; a value-inspecting
/// behavior on an untagged union; the behavior's options (the wipe family
/// through the wipe option parser, every other behavior accepts none); a
/// skip marker on a behavior that forbids skips; and default construction
/// on a sum shape without exactly one marked-default variant.
pub open spec fn spec_behavior_error(item: Item, bi: int) -> Option<ErrorV> {
    let b = item.behaviors@[bi];
    if spec_dup_before(item.behaviors@, bi) {
        Some(ErrorV::DuplicateBehavior { span: b.span, name: b.kind.spec_name() })
    } else if item.shape is Union && b.kind.spec_inspects_values() {
        Some(ErrorV::ShapeMismatch { span: b.span, behavior: b.kind.spec_name() })
    } else if spec_is_wipe_kind(b.kind) && crate::zeroize::spec_parse_wipe(b.options@) is Fail {
        Some(crate::zeroize::spec_parse_wipe(b.options@)->Fail_0)
    } else if !spec_is_wipe_kind(b.kind) && b.options@.len() > 0 {
        Some(
            ErrorV::UnsupportedOption { span: b.options@[0].span, behavior: b.kind.spec_name() },
        )
    } else if !b.kind.spec_supports_skip() && spec_shape_bad_skip(item.shape, b.kind) is Some {
        Some(
            ErrorV::UnsupportedOption {
                span: spec_shape_bad_skip(item.shape, b.kind)->Some_0,
                behavior: b.kind.spec_name(),
            },
        )
    } else if b.kind is Default && item.shape is Enum && count_defaults_from(
        item.shape->Enum_0@,
        0,
    ) != 1 {
        Some(
            ErrorV::MissingDefaultVariant {
                span: b.span,
                marked: count_defaults_from(item.shape->Enum_0@, 0) as u64,
            },
        )
    } else {
        None
    }
}

/// The first configuration error among the behaviors from position `bi` on.
pub open spec fn first_error_from(item: Item, bi: int) -> Option<ErrorV>
    decreases item.behaviors@.len() - bi
        when 0 <= bi
{
    if bi >= item.behaviors@.len() {
        None
    } else {
        match spec_behavior_error(item, bi) {
            Some(e) => Some(e),
            None => first_error_from(item, bi + 1),
        }
    }
}

/// The first configuration error of an item, if it has one: any detected
/// error aborts emission for the whole item.
pub open spec fn spec_first_error(item: Item) -> Option<ErrorV> {
    first_error_from(item, 0)
}

/// The wipe configuration of a behavior: parsed from its options for the
/// wipe family, the default configuration otherwise.
pub open spec fn spec_wipe_cfg(b: RequestedBehavior) -> WipeConfigV {
    if spec_is_wipe_kind(b.kind) && crate::zeroize::spec_parse_wipe(b.options@) is Done {
        crate::zeroize::spec_parse_wipe(b.options@)->Done_0
    } else {
        WipeConfigV { crate_path: None, deferred: false }
    }
}

/// The caller's explicit bound list of a behavior, viewed.
pub open spec fn spec_custom_view(b: RequestedBehavior) -> Option<Seq<Bound>> {
    match b.custom_bounds {
        Some(v) => Some(v@),
        None => None,
    }
}

/// The implementation blocks of the behavior at position `bi`: the primary
/// block, followed immediately by the behavior's auxiliary teardown block
/// where it declares one. Every block of a behavior carries the same
/// resolved bound set, computed with the behavior's own capability.
pub open spec fn spec_behavior_blocks(item: Item, bi: int) -> Seq<ImplBlockV> {
    let b = item.behaviors@[bi];
    let cfg = spec_wipe_cfg(b);
    let cap = spec_capability_path(b.kind, cfg.crate_path);
    let bounds = spec_resolve_bounds(item.generics@, item.shape, b.kind, cap, spec_custom_view(b));
    let gens = item.generics@.map_values(|g: String| g@);
    let target = item.name@;
    let primary = ImplBlockV {
        trait_path: cap,
        target,
        generics: gens,
        bounds,
        signature: spec_signature(b.kind),
        body: match b.kind {
            BehaviorKind::Clone => spec_clone_body(item.name@, item.shape, b.kind),
            BehaviorKind::Copy => BodyV::Empty,
            BehaviorKind::Debug => spec_debug_body(item.name@, item.shape),
            BehaviorKind::Default => spec_default_body(item.name@, item.shape),
            BehaviorKind::Eq => BodyV::Empty,
            BehaviorKind::Hash => spec_hash_body(item.name@, item.shape),
            BehaviorKind::Ord => spec_compare_body(item.name@, item.shape, b.kind),
            BehaviorKind::PartialEq => spec_compare_body(item.name@, item.shape, b.kind),
            BehaviorKind::PartialOrd => spec_compare_body(item.name@, item.shape, b.kind),
            BehaviorKind::Wipe => spec_wipe_body(item.name@, item.shape, cap),
            BehaviorKind::WipeOnTeardown => BodyV::Empty,
        },
    };
    if b.kind is Wipe && cfg.deferred {
        seq![primary] + seq![
            ImplBlockV {
                trait_path: spec_drop_path(),
                target,
                generics: gens,
                bounds,
                signature: Some(spec_drop_signature()),
                body: BodyV::WipeSelf { trait_path: cap },
            },
        ]
    } else if b.kind is WipeOnTeardown {
        seq![primary] + seq![
            ImplBlockV {
                trait_path: spec_drop_path(),
                target,
                generics: gens,
                bounds,
                signature: Some(spec_drop_signature()),
                body: spec_teardown_body(item.name@, item.shape),
            },
        ]
    } else {
        seq![primary]
    }
}

/// The implementation blocks of the behaviors from position `bi` on, in
/// request order.
pub open spec fn blocks_from(item: Item, bi: int) -> Seq<ImplBlockV>
    decreases item.behaviors@.len() - bi
        when 0 <= bi
{
    if bi >= item.behaviors@.len() {
        Seq::empty()
    } else {
        spec_behavior_blocks(item, bi) + blocks_from(item, bi + 1)
    }
}

/// Everything the synthesizer emits for an item: the blocks of every
/// requested behavior, in request order.
pub open spec fn spec_blocks(item: Item) -> Seq<ImplBlockV> {
    blocks_from(item, 0)
}

fn dup_before(behaviors: &Vec<RequestedBehavior>, bi: usize) -> (r: bool)
    requires
        bi < behaviors@.len(),
    ensures
        r == spec_dup_before(behaviors@, bi as int),
{
    let mut l: usize = 0;
    while l < bi
        invariant
            l <= bi < behaviors@.len(),
            forall|m: int| 0 <= m < l ==> #[trigger] behaviors@[m].kind != behaviors@[bi as int].kind,
        decreases bi - l,
    {
        if behaviors[l].kind == behaviors[bi].kind {
            proof {
                assert(behaviors@[l as int].kind == behaviors@[bi as int].kind);
            }
            return true;
        }
        l = l + 1;
    }
    false
}

fn fields_bad_skip(fields: &Vec<Field>, k: BehaviorKind) -> (r: Option<u64>)
    ensures
        r == fields_bad_skip_from(fields@, k, 0),
{
    let mut i: usize = 0;
    while i < fields.len()
        invariant
            i <= fields@.len(),
            fields_bad_skip_from(fields@, k, 0) == fields_bad_skip_from(fields@, k, i as int),
        decreases fields@.len() - i,
    {
        if crate::shape::kinds_contain(&fields[i].skip, k) {
            return Some(fields[i].span);
        }
        i = i + 1;
    }
    None
}

fn shape_bad_skip(shape: &ItemShape, k: BehaviorKind) -> (r: Option<u64>)
    ensures
        r == spec_shape_bad_skip(*shape, k),
{
    match shape {
        ItemShape::Struct(fields) => fields_bad_skip(fields, k),
        ItemShape::Tuple(fields) => fields_bad_skip(fields, k),
        ItemShape::Unit => None,
        ItemShape::Enum(variants) => {
            let mut i: usize = 0;
            while i < variants.len()
                invariant
                    i <= variants@.len(),
                    shape is Enum,
                    shape->Enum_0 == *variants,
                    variants_bad_skip_from(variants@, k, 0) == variants_bad_skip_from(
                        variants@,
                        k,
                        i as int,
                    ),
                decreases variants@.len() - i,
            {
                let bad = fields_bad_skip(&variants[i].fields, k);
                if let Some(span) = bad {
                    return Some(span);
                }
                i = i + 1;
            }
            None
        },
        ItemShape::Union(fields) => fields_bad_skip(fields, k),
    }
}

fn clone_strings(xs: &Vec<String>) -> (r: Vec<String>)
    ensures
        r@.map_values(|s: String| s@) == xs@.map_values(|s: String| s@),
{
    let mut r: Vec<String> = Vec::new();
    let mut i: usize = 0;
    while i < xs.len()
        invariant
            i <= xs@.len(),
            r@.map_values(|s: String| s@) =~= xs@.take(i as int).map_values(|s: String| s@),
        decreases xs@.len() - i,
    {
        let ghost prev = r@;
        r.push(xs[i].clone());
        proof {
            assert(r@.map_values(|s: String| s@) =~= prev.map_values(|s: String| s@).push(
                xs@[i as int]@,
            ));
            assert(xs@.take(i + 1).map_values(|s: String| s@) =~= xs@.take(i as int).map_values(
                |s: String| s@,
            ).push(xs@[i as int]@));
        }
        i = i + 1;
    }
    proof {
        assert(xs@.take(xs@.len() as int) =~= xs@);
    }
    r
}

/// Synthesizes every requested behavior of an item into implementation
/// blocks, in request order, each behavior's auxiliary block immediately
/// after its primary one — or fails with the first configuration error
/// found, emitting nothing.
pub fn synthesize(item: &Item) -> (r: Result<Vec<ImplBlock>, ConfigError>)
    ensures
        match r {
            Ok(blocks) => spec_first_error(*item) is None && blocks@.map_values(
                |b: ImplBlock| b@,
            ) == spec_blocks(*item),
            Err(e) => spec_first_error(*item) == Some(e@),
        },
{
    let mut out: Vec<ImplBlock> = Vec::new();
    let mut bi: usize = 0;
    while bi < item.behaviors.len()
        invariant
            bi <= item.behaviors@.len(),
            spec_first_error(*item) == first_error_from(*item, bi as int),
            spec_blocks(*item) == out@.map_values(|b: ImplBlock| b@) + blocks_from(
                *item,
                bi as int,
            ),
        decreases item.behaviors@.len() - bi,
    {
        let b = &item.behaviors[bi];
        let is_wipe = matches!(b.kind, BehaviorKind::Wipe) || matches!(
            b.kind,
            BehaviorKind::WipeOnTeardown,
        );
        if dup_before(&item.behaviors, bi) {
            return Err(
                ConfigError::DuplicateBehavior {
                    span: b.span,
                    name: String::from_str(b.kind.name()),
                },
            );
        }
        let is_union = matches!(&item.shape, ItemShape::Union(_));
        if is_union && b.kind.inspects_values() {
            return Err(
                ConfigError::ShapeMismatch {
                    span: b.span,
                    behavior: String::from_str(b.kind.name()),
                },
            );
        }
        let cfg = if is_wipe {
            match Zeroize.parse_derive_trait(&b.options) {
                Ok(c) => c,
                Err(e) => {
                    return Err(e);
                },
            }
        } else {
            if b.options.len() > 0 {
                return Err(
                    ConfigError::UnsupportedOption {
                        span: b.options[0].span,
                        behavior: String::from_str(b.kind.name()),
                    },
                );
            }
            WipeConfig { crate_path: None, deferred: false }
        };
        if !b.kind.supports_skip() {
            let bad = shape_bad_skip(&item.shape, b.kind);
            if let Some(span) = bad {
                return Err(
                    ConfigError::UnsupportedOption {
                        span,
                        behavior: String::from_str(b.kind.name()),
                    },
                );
            }
        }
        if matches!(b.kind, BehaviorKind::Default) {
            if let ItemShape::Enum(variants) = &item.shape {
                let marked = count_defaults(variants);
                if marked != 1 {
                    return Err(
                        ConfigError::MissingDefaultVariant { span: b.span, marked: marked as u64 },
                    );
                }
            }
        }
        proof {
            assert(spec_wipe_cfg(item.behaviors@[bi as int]) == cfg@);
            assert(spec_behavior_error(*item, bi as int) is None);
        }
        let cap = capability_path(b.kind, &cfg.crate_path);
        let bounds = resolve_bounds(&item.generics, &item.shape, b.kind, &cap, &b.custom_bounds);
        let signature = behavior_signature(b.kind);
        let body = match b.kind {
            BehaviorKind::Clone => build_clone_body(&item.name, &item.shape, b.kind),
            BehaviorKind::Copy => Body::Empty,
            BehaviorKind::Debug => build_debug_body(&item.name, &item.shape),
            BehaviorKind::Default => build_default_body(&item.name, &item.shape),
            BehaviorKind::Eq => Body::Empty,
            BehaviorKind::Hash => build_hash_body(&item.name, &item.shape),
            BehaviorKind::Ord => build_compare_body(&item.name, &item.shape, b.kind),
            BehaviorKind::PartialEq => build_compare_body(&item.name, &item.shape, b.kind),
            BehaviorKind::PartialOrd => build_compare_body(&item.name, &item.shape, b.kind),
            BehaviorKind::Wipe => Zeroize.build_body(&item.name, &item.shape, &cfg),
            BehaviorKind::WipeOnTeardown => Body::Empty,
        };
        let ghost out_before = out@;
        out.push(
            ImplBlock {
                trait_path: cap.clone(),
                target: item.name.clone(),
                generics: clone_strings(&item.generics),
                bounds,
                signature,
                body,
            },
        );
        proof {
            assert(out@.last()@.generics =~= spec_behavior_blocks(*item, bi as int)[0].generics);
            assert(out@.last()@ == spec_behavior_blocks(*item, bi as int)[0]);
        }
        let mut pushed: usize = 1;
        if matches!(b.kind, BehaviorKind::Wipe) && cfg.deferred {
            let aux = Zeroize.additional_impl(&cfg);
            if let Some((aux_path, aux_body)) = aux {
                let aux_bounds = resolve_bounds(
                    &item.generics,
                    &item.shape,
                    b.kind,
                    &cap,
                    &b.custom_bounds,
                );
                out.push(
                    ImplBlock {
                        trait_path: aux_path,
                        target: item.name.clone(),
                        generics: clone_strings(&item.generics),
                        bounds: aux_bounds,
                        signature: Some(drop_signature()),
                        body: aux_body,
                    },
                );
                pushed = 2;
                proof {
                    assert(out@.last()@.generics =~= spec_behavior_blocks(
                        *item,
                        bi as int,
                    )[1].generics);
                    assert(out@.last()@ == spec_behavior_blocks(*item, bi as int)[1]);
                }
            }
        } else if matches!(b.kind, BehaviorKind::WipeOnTeardown) {
            let aux_bounds = resolve_bounds(
                &item.generics,
                &item.shape,
                b.kind,
                &cap,
                &b.custom_bounds,
            );
            out.push(
                ImplBlock {
                    trait_path: drop_path(),
                    target: item.name.clone(),
                    generics: clone_strings(&item.generics),
                    bounds: aux_bounds,
                    signature: Some(drop_signature()),
                    body: build_teardown_body(&item.name, &item.shape),
                },
            );
            pushed = 2;
            proof {
                assert(out@.last()@.generics =~= spec_behavior_blocks(
                    *item,
                    bi as int,
                )[1].generics);
                assert(out@.last()@ == spec_behavior_blocks(*item, bi as int)[1]);
            }
        }
        proof {
            assert(spec_behavior_blocks(*item, bi as int).len() == pushed);
            assert(out@.map_values(|blk: ImplBlock| blk@) =~= out_before.map_values(
                |blk: ImplBlock| blk@,
            ) + spec_behavior_blocks(*item, bi as int));
            assert(out_before.map_values(|blk: ImplBlock| blk@) + (spec_behavior_blocks(
                *item,
                bi as int,
            ) + blocks_from(*item, bi + 1)) =~= out@.map_values(|blk: ImplBlock| blk@)
                + blocks_from(*item, bi + 1));
        }
        bi = bi + 1;
    }
    proof {
        assert(spec_blocks(*item) =~= out@.map_values(|b: ImplBlock| b@));
    }
    Ok(out)
}

/// The emission side of the teardown-triggers-wipe law: a wipe request with
/// eager mode disabled (the `drop` option), and every wipe-on-teardown
/// request, emits an auxiliary destructor block right after its primary
/// block — so the wipe runs by the time teardown completes — while an eager
/// wipe request emits no destructor, leaving the fields untouched until the
/// caller wipes them.
pub proof fn lemma_wipe_teardown_emission(item: Item, bi: int)
    requires
        0 <= bi < item.behaviors@.len(),
    ensures
        ({
            let b = item.behaviors@[bi];
            ((b.kind is Wipe && spec_wipe_cfg(b).deferred) || b.kind is WipeOnTeardown) ==> (
            spec_behavior_blocks(item, bi).len() == 2 && spec_behavior_blocks(
                item,
                bi,
            )[1].trait_path == spec_drop_path())
        }),
        ({
            let b = item.behaviors@[bi];
            (b.kind is Wipe && !spec_wipe_cfg(b).deferred) ==> spec_behavior_blocks(
                item,
                bi,
            ).len() == 1
        }),
{
}

proof fn lemma_error_aborts(item: Item, j: int, bi: int)
    requires
        0 <= j <= bi < item.behaviors@.len(),
        spec_behavior_error(item, bi) is Some,
    ensures
        first_error_from(item, j) is Some,
    decreases bi - j,
{
    if j < bi {
        lemma_error_aborts(item, j + 1, bi);
    }
}

/// The configuration-error exhaustiveness law, first half: requesting
/// default construction on a sum shape with zero or several marked-default
/// variants aborts the whole item, and — absent an earlier error on that
/// request — with exactly the missing-required-state error, which counts
/// the markers found.
pub proof fn lemma_missing_default_variant(item: Item, bi: int)
    requires
        0 <= bi < item.behaviors@.len(),
        item.behaviors@[bi].kind is Default,
        item.shape is Enum,
        count_defaults_from(item.shape->Enum_0@, 0) != 1,
    ensures
        spec_first_error(item) is Some,
        (!spec_dup_before(item.behaviors@, bi) && item.behaviors@[bi].options@.len() == 0
            && spec_shape_bad_skip(item.shape, BehaviorKind::Default) is None)
            ==> spec_behavior_error(item, bi) == Some(
            ErrorV::MissingDefaultVariant {
                span: item.behaviors@[bi].span,
                marked: count_defaults_from(item.shape->Enum_0@, 0) as u64,
            },
        ),
{
    assert(spec_behavior_error(item, bi) is Some);
    lemma_error_aborts(item, 0, bi);
}

/// The configuration-error exhaustiveness law, second half: requesting any
/// value-inspecting behavior on a union-shaped item aborts the whole item,
/// and — absent a duplicate of that request — with exactly the
/// shape-mismatch error naming the behavior.
pub proof fn lemma_union_shape_mismatch(item: Item, bi: int)
    requires
        0 <= bi < item.behaviors@.len(),
        item.shape is Union,
        item.behaviors@[bi].kind.spec_inspects_values(),
    ensures
        spec_first_error(item) is Some,
        !spec_dup_before(item.behaviors@, bi) ==> spec_behavior_error(item, bi) == Some(
            ErrorV::ShapeMismatch {
                span: item.behaviors@[bi].span,
                behavior: item.behaviors@[bi].kind.spec_name(),
            },
        ),
{
    assert(spec_behavior_error(item, bi) is Some);
    lemma_error_aborts(item, 0, bi);
}

} // verus!
