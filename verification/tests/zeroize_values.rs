//! What the generated wipe implementations do to concrete field values:
//! eager wiping, the crate override, deferred wiping at teardown, and the
//! fully-qualified dispatch.

use derive_where::{
    eval_teardown, eval_wipe, BehaviorKind, Field, OptionEntry, OptionValue, Zeroize,
};

fn wrapper_field(fqs: bool) -> Field {
    Field { span: 0, name: None, params: vec![0], skip: vec![], skip_bound: vec![], wipe_fqs: fqs }
}

#[test]
fn basic() {
    let fields = vec![wrapper_field(false)];
    let cfg = Zeroize.parse_derive_trait(&vec![]).unwrap();
    assert!(!cfg.deferred);

    let mut test = vec![42i64];
    test = eval_wipe(&fields, &test);
    assert_eq!(test[0], 0);

    let dropped = eval_teardown(&fields, &vec![42i64], cfg.deferred);
    assert_eq!(dropped[0], 42);
}

#[test]
fn crate_() {
    let fields = vec![wrapper_field(false)];
    let options = vec![OptionEntry {
        span: 3,
        name: "crate".to_string(),
        value: OptionValue::Str("zeroize_".to_string()),
    }];
    let cfg = Zeroize.parse_derive_trait(&options).unwrap();
    assert_eq!(cfg.crate_path, Some("zeroize_".to_string()));
    assert!(!cfg.deferred);

    let mut test = vec![42i64];
    test = eval_wipe(&fields, &test);
    assert_eq!(test[0], 0);

    let dropped = eval_teardown(&fields, &vec![42i64], cfg.deferred);
    assert_eq!(dropped[0], 42);
}

#[test]
fn drop() {
    let fields = vec![wrapper_field(false)];
    let options = vec![OptionEntry { span: 3, name: "drop".to_string(), value: OptionValue::Flag }];
    let cfg = Zeroize.parse_derive_trait(&options).unwrap();
    assert!(cfg.deferred);

    let mut test = vec![42i64];
    test = eval_wipe(&fields, &test);
    assert_eq!(test[0], 0);

    let dropped = eval_teardown(&fields, &vec![42i64], cfg.deferred);
    assert_eq!(dropped[0], 0);
}

#[test]
fn fqs() {
    let fields = vec![wrapper_field(true)];
    let options = vec![OptionEntry { span: 3, name: "drop".to_string(), value: OptionValue::Flag }];
    let cfg = Zeroize.parse_derive_trait(&options).unwrap();

    let mut test = vec![42i64];
    test = eval_wipe(&fields, &test);
    assert_eq!(test[0], 0);

    // The fully-qualified dispatch is observationally transparent.
    let plain = vec![wrapper_field(false)];
    assert_eq!(eval_wipe(&fields, &vec![42i64]), eval_wipe(&plain, &vec![42i64]));

    let dropped = eval_teardown(&fields, &vec![42i64], cfg.deferred);
    assert_eq!(dropped[0], 0);
}

#[test]
fn deref() {
    // A field whose wipe goes through a dereferencing wrapper still holds
    // its zero representation after the deferred wipe.
    let fields = vec![wrapper_field(false)];
    let options = vec![OptionEntry { span: 3, name: "drop".to_string(), value: OptionValue::Flag }];
    let cfg = Zeroize.parse_derive_trait(&options).unwrap();

    let mut test = vec![42i64];
    test = eval_wipe(&fields, &test);
    assert_eq!(test[0], 0);

    let dropped = eval_teardown(&fields, &vec![42i64], cfg.deferred);
    assert_eq!(dropped[0], 0);
}

#[test]
fn wipe_preserves_skipped_fields() {
    let skipped = Field {
        span: 0,
        name: None,
        params: vec![0],
        skip: vec![BehaviorKind::Wipe],
        skip_bound: vec![],
        wipe_fqs: false,
    };
    let fields = vec![wrapper_field(false), skipped];
    let wiped = eval_wipe(&fields, &vec![42i64, 7i64]);
    assert_eq!(wiped, vec![0, 7]);
}
