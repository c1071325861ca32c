//! The behaviors' value-level results on sum shapes with brace-layout
//! variants, mirroring a generic one-variant enum with every behavior
//! requested and its only variant marked default.

use std::collections::hash_map::DefaultHasher;
use std::hash::{Hash, Hasher};

use derive_where::{
    count_defaults, eval_clone_product, eval_cmp_sum, eval_default_product, eval_eq_sum,
    eval_feed_sum, first_default, render_debug_sum, BehaviorKind, Field, Ordering, SumValue,
    Variant,
};

fn named_field(name: &str) -> Field {
    Field {
        span: 0,
        name: Some(name.to_string()),
        params: vec![0],
        skip: vec![],
        skip_bound: vec![],
        wipe_fqs: false,
    }
}

fn variant_a(field_names: &[&str]) -> Variant {
    Variant {
        span: 0,
        name: "A".to_string(),
        named: true,
        fields: field_names.iter().map(|n| named_field(n)).collect(),
        is_default: true,
    }
}

fn value(fields: Vec<i64>) -> SumValue {
    SumValue { variant: 0, fields }
}

fn hash_of(feed: &Vec<i64>) -> u64 {
    let mut h = DefaultHasher::new();
    feed.hash(&mut h);
    h.finish()
}

fn hash_eq(variants: &Vec<Variant>, a: &SumValue, b: &SumValue) {
    let fa = eval_feed_sum(variants, BehaviorKind::Hash, a);
    let fb = eval_feed_sum(variants, BehaviorKind::Hash, b);
    assert_eq!(fa, fb);
    assert_eq!(hash_of(&fa), hash_of(&fb));
}

fn hash_ne(variants: &Vec<Variant>, a: &SumValue, b: &SumValue) {
    let fa = eval_feed_sum(variants, BehaviorKind::Hash, a);
    let fb = eval_feed_sum(variants, BehaviorKind::Hash, b);
    assert_ne!(fa, fb);
    assert_ne!(hash_of(&fa), hash_of(&fb));
}

#[test]
fn enum_struct_single() {
    let variants = vec![variant_a(&["a"])];
    let test_1 = value(vec![42]);
    let test_2 = value(vec![42]);
    let test_le = value(vec![41]);
    let test_ge = value(vec![43]);

    let test_clone = eval_clone_product(&variants[0].fields, BehaviorKind::Clone, &test_1.fields);
    assert_eq!(test_clone, vec![42]);

    let test_copy = eval_clone_product(&variants[0].fields, BehaviorKind::Copy, &test_1.fields);
    assert_eq!(test_copy, vec![42]);

    assert_eq!(render_debug_sum(&variants, BehaviorKind::Debug, &test_1), "A { a: 42 }");

    assert_eq!(count_defaults(&variants), 1);
    assert_eq!(first_default(&variants), 0);
    let test_default = eval_default_product(1);
    assert_eq!(test_default[0], i64::default());

    hash_eq(&variants, &test_1, &test_2);
    hash_ne(&variants, &test_1, &test_ge);

    assert!(eval_eq_sum(&variants, BehaviorKind::PartialEq, &test_1, &test_2));
    assert!(!eval_eq_sum(&variants, BehaviorKind::PartialEq, &test_1, &test_ge));

    assert_eq!(eval_cmp_sum(&variants, BehaviorKind::Ord, &test_1, &test_2), Ordering::Equal);
    assert_eq!(eval_cmp_sum(&variants, BehaviorKind::Ord, &test_1, &test_le), Ordering::Greater);
    assert_eq!(eval_cmp_sum(&variants, BehaviorKind::Ord, &test_1, &test_ge), Ordering::Less);

    assert_eq!(
        eval_cmp_sum(&variants, BehaviorKind::PartialOrd, &test_1, &test_2),
        Ordering::Equal
    );
    assert_eq!(
        eval_cmp_sum(&variants, BehaviorKind::PartialOrd, &test_1, &test_le),
        Ordering::Greater
    );
    assert_eq!(
        eval_cmp_sum(&variants, BehaviorKind::PartialOrd, &test_1, &test_ge),
        Ordering::Less
    );
}

#[test]
fn enum_struct_multiple() {
    let variants = vec![variant_a(&["a", "b", "c"])];
    let test_1 = value(vec![42, 43, 44]);
    let test_2 = value(vec![42, 43, 44]);
    let test_le_1 = value(vec![41, 43, 44]);
    let test_le_2 = value(vec![42, 42, 44]);
    let test_le_3 = value(vec![42, 43, 43]);
    let test_ge_1 = value(vec![43, 43, 44]);
    let test_ge_2 = value(vec![42, 44, 44]);
    let test_ge_3 = value(vec![42, 44, 45]);

    let test_clone = eval_clone_product(&variants[0].fields, BehaviorKind::Clone, &test_1.fields);
    assert_eq!(test_clone, vec![42, 43, 44]);

    let test_copy = eval_clone_product(&variants[0].fields, BehaviorKind::Copy, &test_1.fields);
    assert_eq!(test_copy, vec![42, 43, 44]);

    assert_eq!(
        render_debug_sum(&variants, BehaviorKind::Debug, &test_1),
        "A { a: 42, b: 43, c: 44 }"
    );

    assert_eq!(count_defaults(&variants), 1);
    assert_eq!(first_default(&variants), 0);
    let test_default = eval_default_product(3);
    assert_eq!(test_default[0], i64::default());
    assert_eq!(test_default[1], i64::default());
    assert_eq!(test_default[2], i64::default());

    hash_eq(&variants, &test_1, &test_2);
    hash_ne(&variants, &test_1, &test_ge_1);
    hash_ne(&variants, &test_1, &test_ge_2);
    hash_ne(&variants, &test_1, &test_ge_3);

    assert!(eval_eq_sum(&variants, BehaviorKind::PartialEq, &test_1, &test_2));
    assert!(!eval_eq_sum(&variants, BehaviorKind::PartialEq, &test_1, &test_ge_1));
    assert!(!eval_eq_sum(&variants, BehaviorKind::PartialEq, &test_1, &test_ge_2));
    assert!(!eval_eq_sum(&variants, BehaviorKind::PartialEq, &test_1, &test_ge_3));
    assert!(!eval_eq_sum(&variants, BehaviorKind::PartialEq, &test_1, &value(vec![45, 45, 45])));

    assert_eq!(eval_cmp_sum(&variants, BehaviorKind::Ord, &test_1, &test_2), Ordering::Equal);
    assert_eq!(eval_cmp_sum(&variants, BehaviorKind::Ord, &test_1, &test_le_1), Ordering::Greater);
    assert_eq!(eval_cmp_sum(&variants, BehaviorKind::Ord, &test_1, &test_le_2), Ordering::Greater);
    assert_eq!(eval_cmp_sum(&variants, BehaviorKind::Ord, &test_1, &test_le_3), Ordering::Greater);
    assert_eq!(eval_cmp_sum(&variants, BehaviorKind::Ord, &test_1, &test_ge_1), Ordering::Less);
    assert_eq!(eval_cmp_sum(&variants, BehaviorKind::Ord, &test_1, &test_ge_2), Ordering::Less);
    assert_eq!(eval_cmp_sum(&variants, BehaviorKind::Ord, &test_1, &test_ge_3), Ordering::Less);

    assert_eq!(
        eval_cmp_sum(&variants, BehaviorKind::PartialOrd, &test_1, &test_2),
        Ordering::Equal
    );
    assert_eq!(
        eval_cmp_sum(&variants, BehaviorKind::PartialOrd, &test_1, &test_le_1),
        Ordering::Greater
    );
    assert_eq!(
        eval_cmp_sum(&variants, BehaviorKind::PartialOrd, &test_1, &test_le_2),
        Ordering::Greater
    );
    assert_eq!(
        eval_cmp_sum(&variants, BehaviorKind::PartialOrd, &test_1, &test_le_3),
        Ordering::Greater
    );
    assert_eq!(
        eval_cmp_sum(&variants, BehaviorKind::PartialOrd, &test_1, &test_ge_1),
        Ordering::Less
    );
    assert_eq!(
        eval_cmp_sum(&variants, BehaviorKind::PartialOrd, &test_1, &test_ge_2),
        Ordering::Less
    );
    assert_eq!(
        eval_cmp_sum(&variants, BehaviorKind::PartialOrd, &test_1, &test_ge_3),
        Ordering::Less
    );
}
