//! The behaviors' value-level results on tuple-shaped products, mirroring a
//! generic single-field and a three-field wrapper type with every behavior
//! requested.

use std::collections::hash_map::DefaultHasher;
use std::hash::{Hash, Hasher};

use derive_where::{
    eval_clone_product, eval_cmp_product, eval_default_product, eval_eq_product,
    eval_feed_product, render_debug_product, BehaviorKind, Field, Ordering,
};

fn unnamed_field() -> Field {
    Field { span: 0, name: None, params: vec![0], skip: vec![], skip_bound: vec![], wipe_fqs: false }
}

fn hash_of(feed: &Vec<i64>) -> u64 {
    let mut h = DefaultHasher::new();
    feed.hash(&mut h);
    h.finish()
}

fn hash_eq(fields: &Vec<Field>, a: &Vec<i64>, b: &Vec<i64>) {
    let fa = eval_feed_product(fields, BehaviorKind::Hash, a);
    let fb = eval_feed_product(fields, BehaviorKind::Hash, b);
    assert_eq!(fa, fb);
    assert_eq!(hash_of(&fa), hash_of(&fb));
}

fn hash_ne(fields: &Vec<Field>, a: &Vec<i64>, b: &Vec<i64>) {
    let fa = eval_feed_product(fields, BehaviorKind::Hash, a);
    let fb = eval_feed_product(fields, BehaviorKind::Hash, b);
    assert_ne!(fa, fb);
    assert_ne!(hash_of(&fa), hash_of(&fb));
}

#[test]
fn tuple_single() {
    let fields = vec![unnamed_field()];
    let test_1 = vec![42i64];
    let test_2 = vec![42i64];
    let test_le = vec![41i64];
    let test_ge = vec![43i64];

    let test_clone = eval_clone_product(&fields, BehaviorKind::Clone, &test_1);
    assert_eq!(test_clone[0], 42);

    let test_copy = eval_clone_product(&fields, BehaviorKind::Copy, &test_1);
    assert_eq!(test_copy[0], 42);

    assert_eq!(
        render_debug_product(&"Test".to_string(), false, &fields, BehaviorKind::Debug, &test_1),
        "Test(42)"
    );

    let test_default = eval_default_product(1);
    assert_eq!(test_default[0], i64::default());

    hash_eq(&fields, &test_1, &test_2);
    hash_ne(&fields, &test_1, &test_ge);

    assert!(eval_eq_product(&fields, BehaviorKind::PartialEq, &test_1, &test_2));
    assert!(!eval_eq_product(&fields, BehaviorKind::PartialEq, &test_1, &test_ge));

    assert_eq!(eval_cmp_product(&fields, BehaviorKind::Ord, &test_1, &test_2), Ordering::Equal);
    assert_eq!(eval_cmp_product(&fields, BehaviorKind::Ord, &test_1, &test_le), Ordering::Greater);
    assert_eq!(eval_cmp_product(&fields, BehaviorKind::Ord, &test_1, &test_ge), Ordering::Less);

    assert_eq!(
        eval_cmp_product(&fields, BehaviorKind::PartialOrd, &test_1, &test_2),
        Ordering::Equal
    );
    assert_eq!(
        eval_cmp_product(&fields, BehaviorKind::PartialOrd, &test_1, &vec![41i64]),
        Ordering::Greater
    );
    assert_eq!(
        eval_cmp_product(&fields, BehaviorKind::PartialOrd, &test_1, &test_ge),
        Ordering::Less
    );
}

#[test]
fn tuple_multiple() {
    let fields = vec![unnamed_field(), unnamed_field(), unnamed_field()];
    let test_1 = vec![42i64, 43, 44];
    let test_2 = vec![42i64, 43, 44];
    let test_ge_1 = vec![43i64, 43, 44];
    let test_ge_2 = vec![42i64, 44, 44];
    let test_ge_3 = vec![42i64, 43, 45];
    let test_le_1 = vec![41i64, 43, 44];
    let test_le_2 = vec![42i64, 42, 44];
    let test_le_3 = vec![42i64, 43, 43];

    let test_clone = eval_clone_product(&fields, BehaviorKind::Clone, &test_1);
    assert_eq!(test_clone[0], 42);
    assert_eq!(test_clone[1], 43);
    assert_eq!(test_clone[2], 44);

    let test_copy = eval_clone_product(&fields, BehaviorKind::Copy, &test_1);
    assert_eq!(test_copy[0], 42);
    assert_eq!(test_copy[1], 43);
    assert_eq!(test_copy[2], 44);

    assert_eq!(
        render_debug_product(&"Test".to_string(), false, &fields, BehaviorKind::Debug, &test_1),
        "Test(42, 43, 44)"
    );

    let test_default = eval_default_product(3);
    assert_eq!(test_default[0], i64::default());
    assert_eq!(test_default[1], i64::default());
    assert_eq!(test_default[2], i64::default());

    hash_eq(&fields, &test_1, &test_2);
    hash_ne(&fields, &test_1, &test_ge_1);
    hash_ne(&fields, &test_1, &test_ge_2);
    hash_ne(&fields, &test_1, &test_ge_3);

    assert!(eval_eq_product(&fields, BehaviorKind::PartialEq, &test_1, &test_2));
    assert!(!eval_eq_product(&fields, BehaviorKind::PartialEq, &test_1, &test_ge_1));
    assert!(!eval_eq_product(&fields, BehaviorKind::PartialEq, &test_1, &test_ge_2));
    assert!(!eval_eq_product(&fields, BehaviorKind::PartialEq, &test_1, &test_ge_3));
    assert!(!eval_eq_product(&fields, BehaviorKind::PartialEq, &test_1, &vec![45i64, 45, 45]));

    assert_eq!(eval_cmp_product(&fields, BehaviorKind::Ord, &test_1, &test_2), Ordering::Equal);
    assert_eq!(eval_cmp_product(&fields, BehaviorKind::Ord, &test_1, &test_le_1), Ordering::Greater);
    assert_eq!(eval_cmp_product(&fields, BehaviorKind::Ord, &test_1, &test_le_2), Ordering::Greater);
    assert_eq!(eval_cmp_product(&fields, BehaviorKind::Ord, &test_1, &test_le_3), Ordering::Greater);
    assert_eq!(eval_cmp_product(&fields, BehaviorKind::Ord, &test_1, &test_ge_1), Ordering::Less);
    assert_eq!(eval_cmp_product(&fields, BehaviorKind::Ord, &test_1, &test_ge_2), Ordering::Less);
    assert_eq!(eval_cmp_product(&fields, BehaviorKind::Ord, &test_1, &test_ge_3), Ordering::Less);

    assert_eq!(
        eval_cmp_product(&fields, BehaviorKind::PartialOrd, &test_1, &test_2),
        Ordering::Equal
    );
    assert_eq!(
        eval_cmp_product(&fields, BehaviorKind::PartialOrd, &test_1, &test_le_1),
        Ordering::Greater
    );
    assert_eq!(
        eval_cmp_product(&fields, BehaviorKind::PartialOrd, &test_1, &test_le_2),
        Ordering::Greater
    );
    assert_eq!(
        eval_cmp_product(&fields, BehaviorKind::PartialOrd, &test_1, &test_le_3),
        Ordering::Greater
    );
    assert_eq!(
        eval_cmp_product(&fields, BehaviorKind::PartialOrd, &test_1, &test_ge_1),
        Ordering::Less
    );
    assert_eq!(
        eval_cmp_product(&fields, BehaviorKind::PartialOrd, &test_1, &test_ge_2),
        Ordering::Less
    );
    assert_eq!(
        eval_cmp_product(&fields, BehaviorKind::PartialOrd, &test_1, &test_ge_3),
        Ordering::Less
    );
}
