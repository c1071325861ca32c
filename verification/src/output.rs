//! The output model: the structured implementation blocks the synthesizer
//! hands to the external emitter, and their spec-level views.

use vstd::prelude::*;
use vstd::string::StringExecFns;

use crate::shape::{
    binding_name, binding_name_rhs, spec_binding, spec_binding_rhs, Bound, BoundV, Field,
};

verus! {

/// One field binding of a pattern: the field it binds (by name, or by
/// position for unnamed fields) and the local name it binds it to.
#[derive(Clone, Debug, PartialEq, Eq)]
pub struct FieldBinding {
    pub field_name: Option<String>,
    pub local: String,
}

/// The view of a field binding.
pub struct FieldBindingV {
    pub field_name: Option<Seq<char>>,
    pub local: Seq<char>,
}

impl View for FieldBinding {
    type V = FieldBindingV;

    open spec fn view(&self) -> FieldBindingV {
        FieldBindingV {
            field_name: match &self.field_name {
                Some(n) => Some(n@),
                None => None,
            },
            local: self.local@,
        }
    }
}

/// A match pattern destructuring one shape or variant.
#[derive(Clone, Debug, PartialEq, Eq)]
pub struct Pattern {
    /// The constructor path: the item's name, or `Item::Variant` for a sum
    /// shape.
    pub path: String,
    /// Brace layout (named fields) rather than parenthesis layout.
    pub named: bool,
    /// One binding per declared field, in declaration order.
    pub bindings: Vec<FieldBinding>,
}

/// The view of a pattern.
pub struct PatternV {
    pub path: Seq<char>,
    pub named: bool,
    pub bindings: Seq<FieldBindingV>,
}

impl View for Pattern {
    type V = PatternV;

    open spec fn view(&self) -> PatternV {
        PatternV {
            path: self.path@,
            named: self.named,
            bindings: self.bindings@.map_values(|b: FieldBinding| b@),
        }
    }
}

/// Where a constructed field's value comes from.
#[derive(Clone, Debug, PartialEq, Eq)]
pub enum CtorSource {
    /// Cloning the bound local.
    Cloned(String),
    /// Default construction, for fields a behavior reconstructs without
    /// reading the source value.
    Defaulted,
}

/// The view of a constructor source.
pub enum CtorSourceV {
    Cloned(Seq<char>),
    Defaulted,
}

impl View for CtorSource {
    type V = CtorSourceV;

    open spec fn view(&self) -> CtorSourceV {
        match self {
            CtorSource::Cloned(s) => CtorSourceV::Cloned(s@),
            CtorSource::Defaulted => CtorSourceV::Defaulted,
        }
    }
}

/// One field of a constructor expression.
#[derive(Clone, Debug, PartialEq, Eq)]
pub struct CtorField {
    pub field_name: Option<String>,
    pub source: CtorSource,
}

/// The view of a constructor field.
pub struct CtorFieldV {
    pub field_name: Option<Seq<char>>,
    pub source: CtorSourceV,
}

impl View for CtorField {
    type V = CtorFieldV;

    open spec fn view(&self) -> CtorFieldV {
        CtorFieldV {
            field_name: match &self.field_name {
                Some(n) => Some(n@),
                None => None,
            },
            source: self.source@,
        }
    }
}

/// A constructor expression rebuilding one shape or variant.
#[derive(Clone, Debug, PartialEq, Eq)]
pub struct Ctor {
    pub path: String,
    pub named: bool,
    pub fields: Vec<CtorField>,
}

/// The view of a constructor expression.
pub struct CtorV {
    pub path: Seq<char>,
    pub named: bool,
    pub fields: Seq<CtorFieldV>,
}

impl View for Ctor {
    type V = CtorV;

    open spec fn view(&self) -> CtorV {
        CtorV {
            path: self.path@,
            named: self.named,
            fields: self.fields@.map_values(|f: CtorField| f@),
        }
    }
}

/// One generated per-field statement or sub-expression of a method body.
#[derive(Clone, Debug, PartialEq, Eq)]
pub enum FieldOp {
    /// The standard wipe call on the bound field.
    WipeMethod { binding: String },
    /// The fully-qualified wipe call, disambiguating from an inherent
    /// same-named method on the field's type.
    WipeQualified { trait_path: String, binding: String },
    /// The teardown call that wipes the field or recursively tears it down.
    WipeOrTeardown { binding: String },
    /// One lexicographic comparison step between the two bound locals.
    Compare { left: String, right: String },
    /// Feeding the bound field into the hash state.
    Feed { binding: String },
    /// Feeding a sum variant's discriminant into the hash state, before any
    /// field.
    FeedDiscriminant { ordinal: u64 },
    /// Rendering the bound field, behind its label for named layouts.
    DebugField { label: Option<String>, binding: String },
}

/// The view of a per-field operation.
pub enum FieldOpV {
    WipeMethod { binding: Seq<char> },
    WipeQualified { trait_path: Seq<char>, binding: Seq<char> },
    WipeOrTeardown { binding: Seq<char> },
    Compare { left: Seq<char>, right: Seq<char> },
    Feed { binding: Seq<char> },
    FeedDiscriminant { ordinal: u64 },
    DebugField { label: Option<Seq<char>>, binding: Seq<char> },
}

impl View for FieldOp {
    type V = FieldOpV;

    open spec fn view(&self) -> FieldOpV {
        match self {
            FieldOp::WipeMethod { binding } => FieldOpV::WipeMethod { binding: binding@ },
            FieldOp::WipeQualified { trait_path, binding } => FieldOpV::WipeQualified {
                trait_path: trait_path@,
                binding: binding@,
            },
            FieldOp::WipeOrTeardown { binding } => FieldOpV::WipeOrTeardown { binding: binding@ },
            FieldOp::Compare { left, right } => FieldOpV::Compare { left: left@, right: right@ },
            FieldOp::Feed { binding } => FieldOpV::Feed { binding: binding@ },
            FieldOp::FeedDiscriminant { ordinal } => FieldOpV::FeedDiscriminant {
                ordinal: *ordinal,
            },
            FieldOp::DebugField { label, binding } => FieldOpV::DebugField {
                label: match label {
                    Some(l) => Some(l@),
                    None => None,
                },
                binding: binding@,
            },
        }
    }
}

/// One arm of a generated match body.
#[derive(Clone, Debug, PartialEq, Eq)]
pub struct BodyArm {
    /// The pattern destructuring the receiver.
    pub pattern: Pattern,
    /// The pattern destructuring the right-hand value, for binary behaviors.
    pub rhs_pattern: Option<Pattern>,
    /// The per-field operations, in declaration order of the participating
    /// fields.
    pub ops: Vec<FieldOp>,
    /// The constructed result, for value-producing behaviors.
    pub result: Option<Ctor>,
}

/// The view of a body arm.
pub struct BodyArmV {
    pub pattern: PatternV,
    pub rhs_pattern: Option<PatternV>,
    pub ops: Seq<FieldOpV>,
    pub result: Option<CtorV>,
}

impl View for BodyArm {
    type V = BodyArmV;

    open spec fn view(&self) -> BodyArmV {
        BodyArmV {
            pattern: self.pattern@,
            rhs_pattern: match &self.rhs_pattern {
                Some(p) => Some(p@),
                None => None,
            },
            ops: self.ops@.map_values(|o: FieldOp| o@),
            result: match &self.result {
                Some(c) => Some(c@),
                None => None,
            },
        }
    }
}

/// A generated method body.
///
/// Sum-shaped match bodies carry one arm per variant; for the comparison
/// behaviors, values of two different variants are ordered by variant
/// declaration order without inspecting any field.
#[derive(Clone, Debug, PartialEq, Eq)]
pub enum Body {
    /// The no-op body: marker implementations, and shapes structurally empty
    /// for the behavior.
    Empty,
    /// A match over the shape's variants.
    Match(Vec<BodyArm>),
    /// A single fully-qualified wipe call on the whole receiver, used by the
    /// auxiliary teardown block of the deferred wipe behavior.
    WipeSelf { trait_path: String },
    /// A constructor expression, used by default construction.
    Construct(Ctor),
    /// A bitwise copy of the receiver, used when cloning an untagged union.
    CopySelf,
}

/// The view of a body.
pub enum BodyV {
    Empty,
    Match(Seq<BodyArmV>),
    WipeSelf { trait_path: Seq<char> },
    Construct(CtorV),
    CopySelf,
}

impl View for Body {
    type V = BodyV;

    open spec fn view(&self) -> BodyV {
        match self {
            Body::Empty => BodyV::Empty,
            Body::Match(arms) => BodyV::Match(arms@.map_values(|a: BodyArm| a@)),
            Body::WipeSelf { trait_path } => BodyV::WipeSelf { trait_path: trait_path@ },
            Body::Construct(c) => BodyV::Construct(c@),
            Body::CopySelf => BodyV::CopySelf,
        }
    }
}

/// The receiver of a generated method.
#[derive(Clone, Copy, Debug, PartialEq, Eq, Structural)]
pub enum Receiver {
    /// No receiver: an associated function.
    Static,
    /// A shared reference.
    Ref,
    /// An exclusive reference.
    MutRef,
}

/// The declared signature of a generated method, independent of field data.
#[derive(Clone, Debug, PartialEq, Eq)]
pub struct Signature {
    pub method: String,
    pub receiver: Receiver,
    /// The declared types of the non-receiver parameters.
    pub params: Vec<String>,
    /// The declared return type, if any.
    pub ret: Option<String>,
}

/// The view of a signature.
pub struct SignatureV {
    pub method: Seq<char>,
    pub receiver: Receiver,
    pub params: Seq<Seq<char>>,
    pub ret: Option<Seq<char>>,
}

impl View for Signature {
    type V = SignatureV;

    open spec fn view(&self) -> SignatureV {
        SignatureV {
            method: self.method@,
            receiver: self.receiver,
            params: self.params@.map_values(|p: String| p@),
            ret: match &self.ret {
                Some(r) => Some(r@),
                None => None,
            },
        }
    }
}

/// One complete implementation block: the capability implemented, the target
/// type, the resolved bound set, and the method's signature and body. Marker
/// implementations carry no signature.
#[derive(Clone, Debug, PartialEq, Eq)]
pub struct ImplBlock {
    pub trait_path: String,
    pub target: String,
    pub generics: Vec<String>,
    pub bounds: Vec<Bound>,
    pub signature: Option<Signature>,
    pub body: Body,
}

/// The view of an implementation block.
pub struct ImplBlockV {
    pub trait_path: Seq<char>,
    pub target: Seq<char>,
    pub generics: Seq<Seq<char>>,
    pub bounds: Seq<BoundV>,
    pub signature: Option<SignatureV>,
    pub body: BodyV,
}

impl View for ImplBlock {
    type V = ImplBlockV;

    open spec fn view(&self) -> ImplBlockV {
        ImplBlockV {
            trait_path: self.trait_path@,
            target: self.target@,
            generics: self.generics@.map_values(|g: String| g@),
            bounds: self.bounds@.map_values(|b: Bound| b@),
            signature: match &self.signature {
                Some(s) => Some(s@),
                None => None,
            },
            body: self.body@,
        }
    }
}

/// The view of a field's name.
pub open spec fn spec_field_name(f: Field) -> Option<Seq<char>> {
    match f.name {
        Some(n) => Some(n@),
        None => None,
    }
}

/// The pattern bindings of the fields from position `i` on: every declared
/// field is bound to its stable binding name.
pub open spec fn bindings_from(fields: Seq<Field>, i: int) -> Seq<FieldBindingV>
    decreases fields.len() - i
        when 0 <= i
{
    if i >= fields.len() {
        Seq::empty()
    } else {
        seq![
            FieldBindingV {
                field_name: spec_field_name(fields[i]),
                local: spec_binding(fields[i], i),
            },
        ] + bindings_from(fields, i + 1)
    }
}

/// The right-hand pattern bindings of the fields from position `i` on.
pub open spec fn rhs_bindings_from(fields: Seq<Field>, i: int) -> Seq<FieldBindingV>
    decreases fields.len() - i
        when 0 <= i
{
    if i >= fields.len() {
        Seq::empty()
    } else {
        seq![
            FieldBindingV {
                field_name: spec_field_name(fields[i]),
                local: spec_binding_rhs(fields[i], i),
            },
        ] + rhs_bindings_from(fields, i + 1)
    }
}

/// The pattern destructuring a shape or variant at `path`.
pub open spec fn spec_pattern(path: Seq<char>, named: bool, fields: Seq<Field>) -> PatternV {
    PatternV { path, named, bindings: bindings_from(fields, 0) }
}

/// The right-hand pattern destructuring the same shape with distinct locals.
pub open spec fn spec_rhs_pattern(path: Seq<char>, named: bool, fields: Seq<Field>) -> PatternV {
    PatternV { path, named, bindings: rhs_bindings_from(fields, 0) }
}

/// Builds the pattern destructuring a shape or variant at `path`, binding
/// every declared field to its stable binding name.
pub fn make_pattern(path: String, named: bool, fields: &Vec<Field>) -> (r: Pattern)
    ensures
        r@ == spec_pattern(path@, named, fields@),
{
    let mut bindings: Vec<FieldBinding> = Vec::new();
    let mut i: usize = 0;
    while i < fields.len()
        invariant
            i <= fields@.len(),
            bindings_from(fields@, 0) == bindings@.map_values(|b: FieldBinding| b@)
                + bindings_from(fields@, i as int),
        decreases fields@.len() - i,
    {
        let f = &fields[i];
        let ghost prev = bindings@;
        let field_name = match &f.name {
            Some(n) => Some(n.clone()),
            None => None,
        };
        bindings.push(FieldBinding { field_name, local: binding_name(f, i) });
        proof {
            assert(bindings@.map_values(|b: FieldBinding| b@) =~= prev.map_values(
                |b: FieldBinding| b@,
            ).push(bindings@.last()@));
            assert(prev.map_values(|b: FieldBinding| b@) + (seq![bindings@.last()@]
                + bindings_from(fields@, i + 1)) =~= bindings@.map_values(|b: FieldBinding| b@)
                + bindings_from(fields@, i + 1));
        }
        i = i + 1;
    }
    proof {
        assert(bindings_from(fields@, 0) =~= bindings@.map_values(|b: FieldBinding| b@));
    }
    Pattern { path, named, bindings }
}

/// Builds the right-hand pattern of the same shape with distinct locals.
pub fn make_rhs_pattern(path: String, named: bool, fields: &Vec<Field>) -> (r: Pattern)
    ensures
        r@ == spec_rhs_pattern(path@, named, fields@),
{
    let mut bindings: Vec<FieldBinding> = Vec::new();
    let mut i: usize = 0;
    while i < fields.len()
        invariant
            i <= fields@.len(),
            rhs_bindings_from(fields@, 0) == bindings@.map_values(|b: FieldBinding| b@)
                + rhs_bindings_from(fields@, i as int),
        decreases fields@.len() - i,
    {
        let f = &fields[i];
        let ghost prev = bindings@;
        let field_name = match &f.name {
            Some(n) => Some(n.clone()),
            None => None,
        };
        bindings.push(FieldBinding { field_name, local: binding_name_rhs(f, i) });
        proof {
            assert(bindings@.map_values(|b: FieldBinding| b@) =~= prev.map_values(
                |b: FieldBinding| b@,
            ).push(bindings@.last()@));
            assert(prev.map_values(|b: FieldBinding| b@) + (seq![bindings@.last()@]
                + rhs_bindings_from(fields@, i + 1)) =~= bindings@.map_values(
                |b: FieldBinding| b@,
            ) + rhs_bindings_from(fields@, i + 1));
        }
        i = i + 1;
    }
    proof {
        assert(rhs_bindings_from(fields@, 0) =~= bindings@.map_values(|b: FieldBinding| b@));
    }
    Pattern { path, named, bindings }
}

/// Builds the constructor path of a variant: `Item::Variant`.
pub fn variant_path(item_name: &String, variant_name: &String) -> (r: String)
    ensures
        r@ == item_name@ + "::"@ + variant_name@,
{
    let mut r = item_name.clone();
    r.append("::");
    r.append(variant_name.as_str());
    r
}

} // verus!
