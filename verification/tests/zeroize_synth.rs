//! The synthesizer's output for the wipe behaviors on small generic types.

use derive_where::{
    synthesize, BehaviorKind, Body, BodyArm, Bound, Field, FieldBinding, FieldOp, ImplBlock, Item,
    ItemShape, OptionEntry, OptionValue, Pattern, Receiver, RequestedBehavior, Signature,
};

fn unnamed_field(params: Vec<usize>) -> Field {
    Field { span: 0, name: None, params, skip: vec![], skip_bound: vec![], wipe_fqs: false }
}

fn bound(param: &str, capability: &str) -> Bound {
    Bound { param: param.to_string(), capability: capability.to_string() }
}

fn tuple_binding(i: usize) -> FieldBinding {
    FieldBinding { field_name: None, local: format!("__{}", i) }
}

fn tuple_pattern(path: &str, n: usize) -> Pattern {
    Pattern {
        path: path.to_string(),
        named: false,
        bindings: (0..n).map(tuple_binding).collect(),
    }
}

fn zeroize_signature() -> Signature {
    Signature {
        method: "zeroize".to_string(),
        receiver: Receiver::MutRef,
        params: vec![],
        ret: None,
    }
}

fn drop_signature() -> Signature {
    Signature { method: "drop".to_string(), receiver: Receiver::MutRef, params: vec![], ret: None }
}

#[test]
fn zeroize_basic() {
    let item = Item {
        name: "Test".to_string(),
        generics: vec!["T".to_string()],
        shape: ItemShape::Tuple(vec![unnamed_field(vec![0])]),
        behaviors: vec![RequestedBehavior {
            span: 1,
            kind: BehaviorKind::Wipe,
            options: vec![],
            custom_bounds: Some(vec![]),
        }],
    };
    let blocks = synthesize(&item).unwrap();
    let expected = vec![ImplBlock {
        trait_path: "::zeroize::Zeroize".to_string(),
        target: "Test".to_string(),
        generics: vec!["T".to_string()],
        bounds: vec![],
        signature: Some(zeroize_signature()),
        body: Body::Match(vec![BodyArm {
            pattern: tuple_pattern("Test", 1),
            rhs_pattern: None,
            ops: vec![FieldOp::WipeMethod { binding: "__0".to_string() }],
            result: None,
        }]),
    }];
    assert_eq!(blocks, expected);
}

#[test]
fn zeroize_drop() {
    let item = Item {
        name: "Test".to_string(),
        generics: vec!["T".to_string(), "U".to_string()],
        shape: ItemShape::Tuple(vec![unnamed_field(vec![0]), unnamed_field(vec![1])]),
        behaviors: vec![RequestedBehavior {
            span: 1,
            kind: BehaviorKind::WipeOnTeardown,
            options: vec![],
            custom_bounds: Some(vec![bound("T", "::zeroize::ZeroizeOnDrop")]),
        }],
    };
    let blocks = synthesize(&item).unwrap();
    let expected = vec![
        ImplBlock {
            trait_path: "::zeroize::ZeroizeOnDrop".to_string(),
            target: "Test".to_string(),
            generics: vec!["T".to_string(), "U".to_string()],
            bounds: vec![bound("T", "::zeroize::ZeroizeOnDrop")],
            signature: None,
            body: Body::Empty,
        },
        ImplBlock {
            trait_path: "::core::ops::Drop".to_string(),
            target: "Test".to_string(),
            generics: vec!["T".to_string(), "U".to_string()],
            bounds: vec![bound("T", "::zeroize::ZeroizeOnDrop")],
            signature: Some(drop_signature()),
            body: Body::Match(vec![BodyArm {
                pattern: tuple_pattern("Test", 2),
                rhs_pattern: None,
                ops: vec![
                    FieldOp::WipeOrTeardown { binding: "__0".to_string() },
                    FieldOp::WipeOrTeardown { binding: "__1".to_string() },
                ],
                result: None,
            }]),
        },
    ];
    assert_eq!(blocks, expected);
}

#[test]
fn both() {
    let item = Item {
        name: "Test".to_string(),
        generics: vec!["T".to_string(), "U".to_string()],
        shape: ItemShape::Tuple(vec![unnamed_field(vec![0]), unnamed_field(vec![1])]),
        behaviors: vec![
            RequestedBehavior {
                span: 1,
                kind: BehaviorKind::Wipe,
                options: vec![],
                custom_bounds: Some(vec![bound("T", "::zeroize::Zeroize")]),
            },
            RequestedBehavior {
                span: 2,
                kind: BehaviorKind::WipeOnTeardown,
                options: vec![],
                custom_bounds: Some(vec![bound("T", "::zeroize::ZeroizeOnDrop")]),
            },
        ],
    };
    let blocks = synthesize(&item).unwrap();
    assert_eq!(blocks.len(), 3);
    assert_eq!(blocks[0].trait_path, "::zeroize::Zeroize");
    assert_eq!(blocks[0].bounds, vec![bound("T", "::zeroize::Zeroize")]);
    assert_eq!(
        blocks[0].body,
        Body::Match(vec![BodyArm {
            pattern: tuple_pattern("Test", 2),
            rhs_pattern: None,
            ops: vec![
                FieldOp::WipeMethod { binding: "__0".to_string() },
                FieldOp::WipeMethod { binding: "__1".to_string() },
            ],
            result: None,
        }])
    );
    assert_eq!(blocks[1].trait_path, "::zeroize::ZeroizeOnDrop");
    assert_eq!(blocks[1].body, Body::Empty);
    assert_eq!(blocks[1].bounds, vec![bound("T", "::zeroize::ZeroizeOnDrop")]);
    assert_eq!(blocks[2].trait_path, "::core::ops::Drop");
    assert_eq!(blocks[2].bounds, vec![bound("T", "::zeroize::ZeroizeOnDrop")]);
    assert_eq!(
        blocks[2].body,
        Body::Match(vec![BodyArm {
            pattern: tuple_pattern("Test", 2),
            rhs_pattern: None,
            ops: vec![
                FieldOp::WipeOrTeardown { binding: "__0".to_string() },
                FieldOp::WipeOrTeardown { binding: "__1".to_string() },
            ],
            result: None,
        }])
    );
}

#[test]
fn zeroize_crate_() {
    let item = Item {
        name: "Test".to_string(),
        generics: vec!["T".to_string()],
        shape: ItemShape::Tuple(vec![unnamed_field(vec![0])]),
        behaviors: vec![RequestedBehavior {
            span: 1,
            kind: BehaviorKind::Wipe,
            options: vec![OptionEntry {
                span: 2,
                name: "crate".to_string(),
                value: OptionValue::Str("zeroize_".to_string()),
            }],
            custom_bounds: Some(vec![bound("T", "zeroize_::Zeroize")]),
        }],
    };
    let blocks = synthesize(&item).unwrap();
    let expected = vec![ImplBlock {
        trait_path: "zeroize_::Zeroize".to_string(),
        target: "Test".to_string(),
        generics: vec!["T".to_string()],
        bounds: vec![bound("T", "zeroize_::Zeroize")],
        signature: Some(zeroize_signature()),
        body: Body::Match(vec![BodyArm {
            pattern: tuple_pattern("Test", 1),
            rhs_pattern: None,
            ops: vec![FieldOp::WipeMethod { binding: "__0".to_string() }],
            result: None,
        }]),
    }];
    assert_eq!(blocks, expected);
}

fn teardown_crate_item(span: u64) -> Item {
    Item {
        name: "Test".to_string(),
        generics: vec!["T".to_string()],
        shape: ItemShape::Tuple(vec![unnamed_field(vec![0])]),
        behaviors: vec![RequestedBehavior {
            span,
            kind: BehaviorKind::WipeOnTeardown,
            options: vec![OptionEntry {
                span: span + 1,
                name: "crate".to_string(),
                value: OptionValue::Str("zeroize_".to_string()),
            }],
            custom_bounds: Some(vec![bound("T", "zeroize_::ZeroizeOnDrop")]),
        }],
    }
}

#[test]
fn drop_crate() {
    let blocks = synthesize(&teardown_crate_item(1)).unwrap();
    assert_eq!(blocks.len(), 2);
    assert_eq!(blocks[0].trait_path, "zeroize_::ZeroizeOnDrop");
    assert_eq!(blocks[0].body, Body::Empty);
    assert_eq!(blocks[0].bounds, vec![bound("T", "zeroize_::ZeroizeOnDrop")]);
    assert_eq!(blocks[1].trait_path, "::core::ops::Drop");
    assert_eq!(blocks[1].bounds, vec![bound("T", "zeroize_::ZeroizeOnDrop")]);
    assert_eq!(
        blocks[1].body,
        Body::Match(vec![BodyArm {
            pattern: tuple_pattern("Test", 1),
            rhs_pattern: None,
            ops: vec![FieldOp::WipeOrTeardown { binding: "__0".to_string() }],
            result: None,
        }])
    );
}

#[test]
fn crate_drop() {
    let blocks = synthesize(&teardown_crate_item(7)).unwrap();
    assert_eq!(blocks.len(), 2);
    assert_eq!(blocks[0].trait_path, "zeroize_::ZeroizeOnDrop");
    assert_eq!(blocks[1].trait_path, "::core::ops::Drop");
    assert_eq!(blocks[1].signature, Some(drop_signature()));
    assert_eq!(
        blocks[1].body,
        Body::Match(vec![BodyArm {
            pattern: tuple_pattern("Test", 1),
            rhs_pattern: None,
            ops: vec![FieldOp::WipeOrTeardown { binding: "__0".to_string() }],
            result: None,
        }])
    );
}

#[test]
fn zeroize_fqs() {
    let item = Item {
        name: "Test".to_string(),
        generics: vec!["T".to_string()],
        shape: ItemShape::Tuple(vec![Field {
            span: 0,
            name: None,
            params: vec![0],
            skip: vec![],
            skip_bound: vec![],
            wipe_fqs: true,
        }]),
        behaviors: vec![RequestedBehavior {
            span: 1,
            kind: BehaviorKind::Wipe,
            options: vec![],
            custom_bounds: Some(vec![]),
        }],
    };
    let blocks = synthesize(&item).unwrap();
    assert_eq!(blocks.len(), 1);
    assert_eq!(
        blocks[0].body,
        Body::Match(vec![BodyArm {
            pattern: tuple_pattern("Test", 1),
            rhs_pattern: None,
            ops: vec![FieldOp::WipeQualified {
                trait_path: "::zeroize::Zeroize".to_string(),
                binding: "__0".to_string(),
            }],
            result: None,
        }])
    );
}
