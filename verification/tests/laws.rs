//! Scenario tests: minimal bounds, discriminant precedence, skip markers,
//! the configuration-error taxonomy, and the small text helpers.

use derive_where::{
    binding_name, eval_cmp_sum, eval_eq_sum, i64_to_string, synthesize, u64_to_string,
    BehaviorKind, Body, ConfigError, Ctor, CtorField, CtorSource, Field, FieldOp, Item, ItemShape,
    OptionEntry, OptionValue, Ordering, RequestedBehavior, SumValue, Variant, Zeroize,
};

fn plain_field(params: Vec<usize>) -> Field {
    Field { span: 10, name: None, params, skip: vec![], skip_bound: vec![], wipe_fqs: false }
}

fn request(kind: BehaviorKind, span: u64) -> RequestedBehavior {
    RequestedBehavior { span, kind, options: vec![], custom_bounds: None }
}

fn item(shape: ItemShape, behaviors: Vec<RequestedBehavior>) -> Item {
    Item {
        name: "Test".to_string(),
        generics: vec!["T".to_string(), "U".to_string()],
        shape,
        behaviors,
    }
}

#[test]
fn minimal_bounds() {
    // Two generic parameters, only the first referenced by a field: only
    // that one is bounded.
    let it = item(
        ItemShape::Tuple(vec![plain_field(vec![0])]),
        vec![request(BehaviorKind::Wipe, 1)],
    );
    let blocks = synthesize(&it).unwrap();
    assert_eq!(blocks.len(), 1);
    assert_eq!(blocks[0].bounds.len(), 1);
    assert_eq!(blocks[0].bounds[0].param, "T");
    assert_eq!(blocks[0].bounds[0].capability, "::zeroize::Zeroize");
}

#[test]
fn skip_bound_only_keeps_body() {
    // A field marked skip-for-bounds-only contributes no constraint but is
    // still visited in the body.
    let f = Field {
        span: 10,
        name: None,
        params: vec![0],
        skip: vec![],
        skip_bound: vec![BehaviorKind::Wipe],
        wipe_fqs: false,
    };
    let it = item(ItemShape::Tuple(vec![f]), vec![request(BehaviorKind::Wipe, 1)]);
    let blocks = synthesize(&it).unwrap();
    assert_eq!(blocks[0].bounds.len(), 0);
    match &blocks[0].body {
        Body::Match(arms) => {
            assert_eq!(arms[0].ops, vec![FieldOp::WipeMethod { binding: "__0".to_string() }]);
        }
        other => panic!("unexpected body {:?}", other),
    }
}

#[test]
fn skipped_field_excluded_everywhere() {
    // A field marked skip contributes neither a constraint nor a body
    // operation.
    let f = Field {
        span: 10,
        name: None,
        params: vec![0],
        skip: vec![BehaviorKind::Wipe],
        skip_bound: vec![],
        wipe_fqs: false,
    };
    let it = item(ItemShape::Tuple(vec![f]), vec![request(BehaviorKind::Wipe, 1)]);
    let blocks = synthesize(&it).unwrap();
    assert_eq!(blocks[0].bounds.len(), 0);
    assert_eq!(blocks[0].body, Body::Empty);
}

fn two_variants() -> Vec<Variant> {
    let make = |name: &str, is_default: bool| Variant {
        span: 0,
        name: name.to_string(),
        named: false,
        fields: vec![plain_field(vec![0])],
        is_default,
    };
    vec![make("A", true), make("B", false)]
}

#[test]
fn discriminant_precedence() {
    // Values of different variants compare by variant declaration order,
    // whatever their fields hold.
    let variants = two_variants();
    let a_big = SumValue { variant: 0, fields: vec![1000] };
    let b_small = SumValue { variant: 1, fields: vec![-1000] };
    assert_eq!(
        eval_cmp_sum(&variants, BehaviorKind::Ord, &a_big, &b_small),
        Ordering::Less
    );
    assert_eq!(
        eval_cmp_sum(&variants, BehaviorKind::Ord, &b_small, &a_big),
        Ordering::Greater
    );
    assert!(!eval_eq_sum(&variants, BehaviorKind::PartialEq, &a_big, &b_small));
}

#[test]
fn default_enum_constructs_marked_variant() {
    let it = item(ItemShape::Enum(two_variants()), vec![request(BehaviorKind::Default, 1)]);
    let blocks = synthesize(&it).unwrap();
    assert_eq!(blocks.len(), 1);
    assert_eq!(
        blocks[0].body,
        Body::Construct(Ctor {
            path: "Test::A".to_string(),
            named: false,
            fields: vec![CtorField { field_name: None, source: CtorSource::Defaulted }],
        })
    );
}

#[test]
fn default_enum_without_marker_fails() {
    let mut variants = two_variants();
    variants[0].is_default = false;
    let it = item(ItemShape::Enum(variants), vec![request(BehaviorKind::Default, 5)]);
    assert_eq!(
        synthesize(&it),
        Err(ConfigError::MissingDefaultVariant { span: 5, marked: 0 })
    );
}

#[test]
fn default_enum_with_two_markers_fails() {
    let mut variants = two_variants();
    variants[1].is_default = true;
    let it = item(ItemShape::Enum(variants), vec![request(BehaviorKind::Default, 5)]);
    assert_eq!(
        synthesize(&it),
        Err(ConfigError::MissingDefaultVariant { span: 5, marked: 2 })
    );
}

#[test]
fn value_behavior_on_union_fails() {
    let it = item(
        ItemShape::Union(vec![plain_field(vec![0])]),
        vec![request(BehaviorKind::Eq, 5)],
    );
    assert_eq!(
        synthesize(&it),
        Err(ConfigError::ShapeMismatch { span: 5, behavior: "Eq".to_string() })
    );
}

#[test]
fn copy_on_union_is_accepted() {
    let it = item(
        ItemShape::Union(vec![plain_field(vec![0])]),
        vec![request(BehaviorKind::Copy, 5), request(BehaviorKind::Clone, 6)],
    );
    let blocks = synthesize(&it).unwrap();
    assert_eq!(blocks.len(), 2);
    assert_eq!(blocks[0].body, Body::Empty);
    assert_eq!(blocks[1].body, Body::CopySelf);
}

#[test]
fn duplicate_behavior_fails() {
    let it = item(
        ItemShape::Tuple(vec![plain_field(vec![0])]),
        vec![request(BehaviorKind::Clone, 1), request(BehaviorKind::Clone, 9)],
    );
    assert_eq!(
        synthesize(&it),
        Err(ConfigError::DuplicateBehavior { span: 9, name: "Clone".to_string() })
    );
}

#[test]
fn option_on_plain_behavior_fails() {
    let mut req = request(BehaviorKind::Clone, 1);
    req.options.push(OptionEntry {
        span: 4,
        name: "crate".to_string(),
        value: OptionValue::Str("x".to_string()),
    });
    let it = item(ItemShape::Tuple(vec![plain_field(vec![0])]), vec![req]);
    assert_eq!(
        synthesize(&it),
        Err(ConfigError::UnsupportedOption { span: 4, behavior: "Clone".to_string() })
    );
}

#[test]
fn invalid_crate_path_fails() {
    let mut req = request(BehaviorKind::Wipe, 1);
    req.options.push(OptionEntry {
        span: 4,
        name: "crate".to_string(),
        value: OptionValue::Str("not a path!!".to_string()),
    });
    let it = item(ItemShape::Tuple(vec![plain_field(vec![0])]), vec![req]);
    assert_eq!(synthesize(&it), Err(ConfigError::Path { span: 4 }));
}

#[test]
fn wipe_option_errors() {
    let drop_flag = |span| OptionEntry {
        span,
        name: "drop".to_string(),
        value: OptionValue::Flag,
    };
    let crate_opt = |span| OptionEntry {
        span,
        name: "crate".to_string(),
        value: OptionValue::Str("zeroize_".to_string()),
    };

    assert_eq!(
        Zeroize.parse_derive_trait(&vec![drop_flag(1), drop_flag(2)]),
        Err(ConfigError::DuplicateOption { span: 2, name: "drop".to_string() })
    );
    assert_eq!(
        Zeroize.parse_derive_trait(&vec![crate_opt(1), crate_opt(2)]),
        Err(ConfigError::DuplicateOption { span: 2, name: "crate".to_string() })
    );
    assert_eq!(
        Zeroize.parse_derive_trait(&vec![OptionEntry {
            span: 3,
            name: "unknown".to_string(),
            value: OptionValue::Flag,
        }]),
        Err(ConfigError::UnsupportedOption { span: 3, behavior: "Zeroize".to_string() })
    );
    assert_eq!(
        Zeroize.parse_derive_trait(&vec![OptionEntry {
            span: 3,
            name: "crate".to_string(),
            value: OptionValue::OtherLit,
        }]),
        Err(ConfigError::Syntax { span: 3 })
    );
    assert_eq!(
        Zeroize.parse_derive_trait(&vec![OptionEntry {
            span: 3,
            name: String::new(),
            value: OptionValue::Malformed,
        }]),
        Err(ConfigError::Syntax { span: 3 })
    );

    let cfg = Zeroize.parse_derive_trait(&vec![crate_opt(1), drop_flag(2)]).unwrap();
    assert_eq!(cfg.crate_path, Some("zeroize_".to_string()));
    assert!(cfg.deferred);
    assert_eq!(Zeroize.as_str(), "Zeroize");
    assert!(Zeroize.supports_skip());
    let default_cfg = Zeroize.default_derive_trait();
    assert_eq!(default_cfg.crate_path, None);
    assert!(!default_cfg.deferred);
}

#[test]
fn binding_names() {
    let unnamed = plain_field(vec![]);
    assert_eq!(binding_name(&unnamed, 0), "__0");
    assert_eq!(binding_name(&unnamed, 10), "__10");
    let named = Field {
        span: 0,
        name: Some("a".to_string()),
        params: vec![],
        skip: vec![],
        skip_bound: vec![],
        wipe_fqs: false,
    };
    assert_eq!(binding_name(&named, 3), "__a");
}

#[test]
fn clone_reconstructs_skipped_field_by_default() {
    let kept = plain_field(vec![0]);
    let skipped = Field {
        span: 11,
        name: None,
        params: vec![1],
        skip: vec![BehaviorKind::Clone],
        skip_bound: vec![],
        wipe_fqs: false,
    };
    let it = item(
        ItemShape::Tuple(vec![kept, skipped]),
        vec![request(BehaviorKind::Clone, 1)],
    );
    let blocks = synthesize(&it).unwrap();
    match &blocks[0].body {
        Body::Match(arms) => {
            let ctor = arms[0].result.as_ref().unwrap();
            assert_eq!(ctor.fields[0].source, CtorSource::Cloned("__0".to_string()));
            assert_eq!(ctor.fields[1].source, CtorSource::Defaulted);
        }
        other => panic!("unexpected body {:?}", other),
    }
    // The value-level policy: the skipped field comes back at its default.
    let fields = match &it.shape {
        ItemShape::Tuple(fs) => fs.clone(),
        _ => unreachable!(),
    };
    assert_eq!(
        derive_where::eval_clone_product(&fields, BehaviorKind::Clone, &vec![42i64, 7]),
        vec![42, 0]
    );
}

#[test]
fn skip_on_behavior_that_forbids_it_fails() {
    let f = Field {
        span: 77,
        name: None,
        params: vec![0],
        skip: vec![BehaviorKind::Default],
        skip_bound: vec![],
        wipe_fqs: false,
    };
    let it = item(ItemShape::Tuple(vec![f]), vec![request(BehaviorKind::Default, 1)]);
    assert_eq!(
        synthesize(&it),
        Err(ConfigError::UnsupportedOption { span: 77, behavior: "Default".to_string() })
    );
}

#[test]
fn behavior_names() {
    assert_eq!(BehaviorKind::from_name(&"Wipe".to_string()), Some(BehaviorKind::Wipe));
    assert_eq!(
        BehaviorKind::from_name(&"WipeOnTeardown".to_string()),
        Some(BehaviorKind::WipeOnTeardown)
    );
    assert_eq!(BehaviorKind::from_name(&"PartialOrd".to_string()), Some(BehaviorKind::PartialOrd));
    assert_eq!(BehaviorKind::from_name(&"Serialize".to_string()), None);
    assert_eq!(BehaviorKind::Wipe.name(), "Wipe");
    assert_eq!(BehaviorKind::Clone.name(), "Clone");
    assert!(BehaviorKind::Eq.inspects_values());
    assert!(!BehaviorKind::Copy.inspects_values());
    assert!(BehaviorKind::Wipe.supports_skip());
    assert!(!BehaviorKind::Default.supports_skip());
}

#[test]
fn decimal_rendering() {
    assert_eq!(u64_to_string(0), "0");
    assert_eq!(u64_to_string(907), "907");
    assert_eq!(i64_to_string(-5), "-5");
    assert_eq!(i64_to_string(9223372036854775807), "9223372036854775807");
    assert_eq!(i64_to_string(i64::MIN), "-9223372036854775808");
}
