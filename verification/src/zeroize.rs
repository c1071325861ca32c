//! The catalog entry of the secure-wipe behaviors: option parsing, signature
//! and body building, and the auxiliary teardown implementation of the
//! deferred wipe.

use vstd::prelude::*;
use vstd::string::StringExecFns;

use crate::behavior::BehaviorKind;
use crate::options::{ConfigError, ErrorV, OptionEntry, OptionValue, OptionValueV, WipeConfig,
    WipeConfigV};
use crate::output::{spec_pattern, Body, BodyArm, BodyV, BodyArmV, FieldOp, FieldOpV, Receiver,
    Signature, SignatureV, make_pattern, variant_path};
use crate::paths::{capability_path, drop_path, path_is_valid, path_wf, spec_capability_path,
    spec_drop_path};
use crate::shape::{participates, spec_binding, spec_participates, Field, ItemShape, Variant};
use crate::text::string_eq_lit;

verus! {

/// The outcome of parsing a wipe option list.
pub enum WipeParse {
    Done(WipeConfigV),
    Fail(ErrorV),
}

/// The result of scanning the wipe option entries from position `i` on,
/// having already accumulated `crate_path` and `deferred`.
///
/// Scanning stops at the first offending entry: a duplicate `drop` or
/// `crate`, an unrecognized option, a `crate` value that is not a string or
/// does not parse as a path, or an entry of no recognized shape.
pub open spec fn parse_wipe_from(
    entries: Seq<OptionEntry>,
    crate_path: Option<Seq<char>>,
    deferred: bool,
    i: int,
) -> WipeParse
    decreases entries.len() - i
        when 0 <= i
{
    if i >= entries.len() {
        WipeParse::Done(WipeConfigV { crate_path, deferred })
    } else {
        let e = entries[i];
        match e.value@ {
            OptionValueV::Flag => {
                if e.name@ == "drop"@ {
                    if deferred {
                        WipeParse::Fail(ErrorV::DuplicateOption { span: e.span, name: "drop"@ })
                    } else {
                        parse_wipe_from(entries, crate_path, true, i + 1)
                    }
                } else {
                    WipeParse::Fail(
                        ErrorV::UnsupportedOption { span: e.span, behavior: "Zeroize"@ },
                    )
                }
            },
            OptionValueV::Str(s) => {
                if e.name@ == "crate"@ {
                    if crate_path is Some {
                        WipeParse::Fail(ErrorV::DuplicateOption { span: e.span, name: "crate"@ })
                    } else if path_wf(s) {
                        parse_wipe_from(entries, Some(s), deferred, i + 1)
                    } else {
                        WipeParse::Fail(ErrorV::Path { span: e.span })
                    }
                } else {
                    WipeParse::Fail(
                        ErrorV::UnsupportedOption { span: e.span, behavior: "Zeroize"@ },
                    )
                }
            },
            OptionValueV::OtherLit => {
                if e.name@ == "crate"@ {
                    WipeParse::Fail(ErrorV::Syntax { span: e.span })
                } else {
                    WipeParse::Fail(
                        ErrorV::UnsupportedOption { span: e.span, behavior: "Zeroize"@ },
                    )
                }
            },
            OptionValueV::Malformed => WipeParse::Fail(ErrorV::Syntax { span: e.span }),
        }
    }
}

/// What parsing a wipe option list yields.
pub open spec fn spec_parse_wipe(entries: Seq<OptionEntry>) -> WipeParse {
    parse_wipe_from(entries, None, false, 0)
}

/// The wipe operations of the fields from position `i` on: one call per
/// participating field, fully qualified through the wipe trait where the
/// field asks for it.
pub open spec fn wipe_ops_from(fields: Seq<Field>, trait_path: Seq<char>, i: int) -> Seq<FieldOpV>
    decreases fields.len() - i
        when 0 <= i
{
    if i >= fields.len() {
        Seq::empty()
    } else {
        let rest = wipe_ops_from(fields, trait_path, i + 1);
        if spec_participates(fields[i], BehaviorKind::Wipe) {
            let op = if fields[i].wipe_fqs {
                FieldOpV::WipeQualified { trait_path, binding: spec_binding(fields[i], i) }
            } else {
                FieldOpV::WipeMethod { binding: spec_binding(fields[i], i) }
            };
            seq![op] + rest
        } else {
            rest
        }
    }
}

/// The wipe body of a product shape: one arm destructuring every field,
/// wiping the participating ones; a shape with no participating field
/// degenerates to the no-op body.
pub open spec fn spec_wipe_product_body(
    name: Seq<char>,
    named: bool,
    fields: Seq<Field>,
    trait_path: Seq<char>,
) -> BodyV {
    let ops = wipe_ops_from(fields, trait_path, 0);
    if ops.len() == 0 {
        BodyV::Empty
    } else {
        BodyV::Match(
            seq![
                BodyArmV {
                    pattern: spec_pattern(name, named, fields),
                    rhs_pattern: None,
                    ops,
                    result: None,
                },
            ],
        )
    }
}

/// The wipe arms of a sum shape's variants from position `i` on.
pub open spec fn wipe_arms_from(
    item_name: Seq<char>,
    variants: Seq<Variant>,
    trait_path: Seq<char>,
    i: int,
) -> Seq<BodyArmV>
    decreases variants.len() - i
        when 0 <= i
{
    if i >= variants.len() {
        Seq::empty()
    } else {
        let v = variants[i];
        seq![
            BodyArmV {
                pattern: spec_pattern(item_name + "::"@ + v.name@, v.named, v.fields@),
                rhs_pattern: None,
                ops: wipe_ops_from(v.fields@, trait_path, 0),
                result: None,
            },
        ] + wipe_arms_from(item_name, variants, trait_path, i + 1)
    }
}

/// Whether every variant from position `i` on has no field participating in
/// the wipe behavior.
pub open spec fn wipe_arms_all_empty(variants: Seq<Variant>, i: int) -> bool
    decreases variants.len() - i
        when 0 <= i
{
    if i >= variants.len() {
        true
    } else {
        crate::shape::spec_participating(variants[i].fields@, BehaviorKind::Wipe).len() == 0
            && wipe_arms_all_empty(variants, i + 1)
    }
}

/// The wipe body of an item: a match wiping every participating field of
/// every variant, or the no-op body for shapes structurally empty for the
/// behavior. Defined for every shape but the untagged union, on which the
/// wipe behavior is a configuration error.
pub open spec fn spec_wipe_body(name: Seq<char>, shape: ItemShape, trait_path: Seq<char>) -> BodyV {
    match shape {
        ItemShape::Struct(fields) => spec_wipe_product_body(name, true, fields@, trait_path),
        ItemShape::Tuple(fields) => spec_wipe_product_body(name, false, fields@, trait_path),
        ItemShape::Unit => BodyV::Empty,
        ItemShape::Enum(variants) => if variants@.len() == 0 || wipe_arms_all_empty(variants@, 0) {
            BodyV::Empty
        } else {
            BodyV::Match(wipe_arms_from(name, variants@, trait_path, 0))
        },
        ItemShape::Union(fields) => BodyV::Empty,
    }
}

/// The declared signature of the generated wipe method.
pub open spec fn spec_wipe_signature() -> SignatureV {
    SignatureV {
        method: "zeroize"@,
        receiver: Receiver::MutRef,
        params: Seq::empty(),
        ret: None,
    }
}

/// The catalog entry of the secure-wipe behaviors. The generated blocks
/// implement the wipe crate's `Zeroize` trait, which gives the entry its
/// name.
pub struct Zeroize;

impl Zeroize {
    /// The name of the capability the generated implementation provides.
    pub fn as_str(&self) -> (r: &'static str)
        ensures
            r@ == "Zeroize"@,
    {
        "Zeroize"
    }

    /// The configuration the wipe behavior has when it is requested with no
    /// options: the well-known namespace, eager wiping only.
    pub fn default_derive_trait(&self) -> (r: WipeConfig)
        ensures
            r@ == (WipeConfigV { crate_path: None, deferred: false }),
    {
        WipeConfig { crate_path: None, deferred: false }
    }

    /// Parses the wipe behavior's option list: a `crate = "<path>"`
    /// namespace override and a `drop` flag deferring the wipe to teardown.
    ///
    /// Unknown options, duplicate options, a non-string `crate` value and a
    /// `crate` value that does not parse as a path are each reported as a
    /// distinct configuration error at the offending entry, never silently
    /// ignored.
    pub fn parse_derive_trait(&self, options: &Vec<OptionEntry>) -> (r: Result<
        WipeConfig,
        ConfigError,
    >)
        ensures
            match r {
                Ok(c) => spec_parse_wipe(options@) == WipeParse::Done(c@),
                Err(e) => spec_parse_wipe(options@) == WipeParse::Fail(e@),
            },
    {
        let mut crate_path: Option<String> = None;
        let mut deferred = false;
        let mut i: usize = 0;
        while i < options.len()
            invariant
                i <= options@.len(),
                spec_parse_wipe(options@) == parse_wipe_from(
                    options@,
                    match crate_path {
                        Some(s) => Some(s@),
                        None => None,
                    },
                    deferred,
                    i as int,
                ),
            decreases options@.len() - i,
        {
            let e = &options[i];
            match &e.value {
                OptionValue::Flag => {
                    if string_eq_lit(&e.name, "drop") {
                        if deferred {
                            return Err(
                                ConfigError::DuplicateOption {
                                    span: e.span,
                                    name: String::from_str("drop"),
                                },
                            );
                        } else {
                            deferred = true;
                        }
                    } else {
                        return Err(
                            ConfigError::UnsupportedOption {
                                span: e.span,
                                behavior: String::from_str("Zeroize"),
                            },
                        );
                    }
                },
                OptionValue::Str(s) => {
                    if string_eq_lit(&e.name, "crate") {
                        if crate_path.is_some() {
                            return Err(
                                ConfigError::DuplicateOption {
                                    span: e.span,
                                    name: String::from_str("crate"),
                                },
                            );
                        } else if path_is_valid(s.as_str()) {
                            crate_path = Some(s.clone());
                        } else {
                            return Err(ConfigError::Path { span: e.span });
                        }
                    } else {
                        return Err(
                            ConfigError::UnsupportedOption {
                                span: e.span,
                                behavior: String::from_str("Zeroize"),
                            },
                        );
                    }
                },
                OptionValue::OtherLit => {
                    if string_eq_lit(&e.name, "crate") {
                        return Err(ConfigError::Syntax { span: e.span });
                    } else {
                        return Err(
                            ConfigError::UnsupportedOption {
                                span: e.span,
                                behavior: String::from_str("Zeroize"),
                            },
                        );
                    }
                },
                OptionValue::Malformed => {
                    return Err(ConfigError::Syntax { span: e.span });
                },
            }
            i = i + 1;
        }
        Ok(WipeConfig { crate_path, deferred })
    }

    /// Whether the wipe behavior accepts per-field skip markers.
    pub fn supports_skip(&self) -> (r: bool)
        ensures
            r == true,
    {
        true
    }

    /// The auxiliary teardown implementation accompanying the deferred wipe:
    /// a destructor whose body wipes the whole receiver through the wipe
    /// trait. An eager configuration has none.
    pub fn additional_impl(&self, config: &WipeConfig) -> (r: Option<(String, Body)>)
        ensures
            match r {
                Some(p) => config.deferred && p.0@ == spec_drop_path() && p.1@
                    == (BodyV::WipeSelf {
                    trait_path: spec_capability_path(BehaviorKind::Wipe, config@.crate_path),
                }),
                None => !config.deferred,
            },
    {
        if config.deferred {
            Some(
                (
                    drop_path(),
                    Body::WipeSelf { trait_path: capability_path(BehaviorKind::Wipe, &config.crate_path) },
                ),
            )
        } else {
            None
        }
    }

    /// The declared signature of the generated wipe method, independent of
    /// field data.
    pub fn build_signature(&self) -> (r: Signature)
        ensures
            r@ == spec_wipe_signature(),
    {
        let r = Signature {
            method: String::from_str("zeroize"),
            receiver: Receiver::MutRef,
            params: Vec::new(),
            ret: None,
        };
        proof {
            assert(r@.params =~= spec_wipe_signature().params);
        }
        r
    }

    /// Builds the wipe method's body from the item's shape: one match arm
    /// per product shape or variant, one wipe call per participating field,
    /// fully qualified where the field asks for it.
    pub fn build_body(&self, name: &String, shape: &ItemShape, config: &WipeConfig) -> (r: Body)
        requires
            !(shape is Union),
        ensures
            r@ == spec_wipe_body(
                name@,
                *shape,
                spec_capability_path(BehaviorKind::Wipe, config@.crate_path),
            ),
    {
        let trait_path = capability_path(BehaviorKind::Wipe, &config.crate_path);
        match shape {
            ItemShape::Struct(fields) => wipe_product_body(name, true, fields, &trait_path),
            ItemShape::Tuple(fields) => wipe_product_body(name, false, fields, &trait_path),
            ItemShape::Unit => Body::Empty,
            ItemShape::Enum(variants) => wipe_enum_body(name, variants, &trait_path),
            ItemShape::Union(fields) => Body::Empty,
        }
    }
}

/// Builds the wipe calls of one field list.
fn wipe_ops(fields: &Vec<Field>, trait_path: &String) -> (r: Vec<FieldOp>)
    ensures
        r@.map_values(|o: FieldOp| o@) == wipe_ops_from(fields@, trait_path@, 0),
{
    let mut r: Vec<FieldOp> = Vec::new();
    let mut i: usize = 0;
    while i < fields.len()
        invariant
            i <= fields@.len(),
            wipe_ops_from(fields@, trait_path@, 0) == r@.map_values(|o: FieldOp| o@)
                + wipe_ops_from(fields@, trait_path@, i as int),
        decreases fields@.len() - i,
    {
        let f = &fields[i];
        if participates(f, BehaviorKind::Wipe) {
            let ghost prev = r@;
            let binding = crate::shape::binding_name(f, i);
            if f.wipe_fqs {
                r.push(FieldOp::WipeQualified { trait_path: trait_path.clone(), binding });
            } else {
                r.push(FieldOp::WipeMethod { binding });
            }
            proof {
                assert(r@.map_values(|o: FieldOp| o@) =~= prev.map_values(|o: FieldOp| o@).push(
                    r@.last()@,
                ));
                assert(prev.map_values(|o: FieldOp| o@) + (seq![r@.last()@] + wipe_ops_from(
                    fields@,
                    trait_path@,
                    i + 1,
                )) =~= r@.map_values(|o: FieldOp| o@) + wipe_ops_from(fields@, trait_path@, i + 1));
            }
        }
        i = i + 1;
    }
    proof {
        assert(wipe_ops_from(fields@, trait_path@, 0) =~= r@.map_values(|o: FieldOp| o@));
    }
    r
}

/// Builds the wipe body of a product shape.
fn wipe_product_body(name: &String, named: bool, fields: &Vec<Field>, trait_path: &String) -> (r:
    Body)
    ensures
        r@ == spec_wipe_product_body(name@, named, fields@, trait_path@),
{
    let ops = wipe_ops(fields, trait_path);
    if ops.len() == 0 {
        Body::Empty
    } else {
        let pattern = make_pattern(name.clone(), named, fields);
        let arm = BodyArm { pattern, rhs_pattern: None, ops, result: None };
        let r = Body::Match(vec![arm]);
        proof {
            assert(r@->Match_0 =~= spec_wipe_product_body(
                name@,
                named,
                fields@,
                trait_path@,
            )->Match_0);
        }
        r
    }
}

/// Builds the wipe body of a sum shape.
fn wipe_enum_body(name: &String, variants: &Vec<Variant>, trait_path: &String) -> (r: Body)
    ensures
        r@ == spec_wipe_body(name@, ItemShape::Enum(*variants), trait_path@),
{
    let mut all_empty = true;
    let mut i: usize = 0;
    while i < variants.len()
        invariant
            i <= variants@.len(),
            all_empty ==> wipe_arms_all_empty(variants@, 0) == wipe_arms_all_empty(
                variants@,
                i as int,
            ),
            !all_empty ==> !wipe_arms_all_empty(variants@, 0),
        decreases variants@.len() - i,
    {
        if !crate::shape::is_empty_for(&variants[i].fields, BehaviorKind::Wipe) {
            all_empty = false;
        }
        i = i + 1;
    }
    if variants.len() == 0 || all_empty {
        Body::Empty
    } else {
        let mut arms: Vec<BodyArm> = Vec::new();
        let mut j: usize = 0;
        while j < variants.len()
            invariant
                j <= variants@.len(),
                wipe_arms_from(name@, variants@, trait_path@, 0) == arms@.map_values(
                    |a: BodyArm| a@,
                ) + wipe_arms_from(name@, variants@, trait_path@, j as int),
            decreases variants@.len() - j,
        {
            let v = &variants[j];
            let ghost prev = arms@;
            let pattern = make_pattern(variant_path(name, &v.name), v.named, &v.fields);
            let ops = wipe_ops(&v.fields, trait_path);
            arms.push(BodyArm { pattern, rhs_pattern: None, ops, result: None });
            proof {
                assert(arms@.map_values(|a: BodyArm| a@) =~= prev.map_values(|a: BodyArm| a@).push(
                    arms@.last()@,
                ));
                assert(prev.map_values(|a: BodyArm| a@) + (seq![arms@.last()@] + wipe_arms_from(
                    name@,
                    variants@,
                    trait_path@,
                    j + 1,
                )) =~= arms@.map_values(|a: BodyArm| a@) + wipe_arms_from(
                    name@,
                    variants@,
                    trait_path@,
                    j + 1,
                ));
            }
            j = j + 1;
        }
        proof {
            assert(wipe_arms_from(name@, variants@, trait_path@, 0) =~= arms@.map_values(
                |a: BodyArm| a@,
            ));
        }
        Body::Match(arms)
    }
}

} // verus!

