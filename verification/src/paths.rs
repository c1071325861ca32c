//! Capability paths: the namespace-qualified trait references the generated
//! implementation blocks name, and the validation of caller-supplied
//! namespace overrides.

use vstd::prelude::*;
use vstd::string::StringExecFns;

use crate::behavior::BehaviorKind;

verus! {

/// Whether a string parses as a well-formed reference path.
pub uninterp spec fn path_wf(s: Seq<char>) -> bool;

/// Relies on `syn::parse_str::<syn::Path>`: whether the whole input parses
/// as a path is a deterministic function of the input characters alone.
#[verifier::external_body]
pub fn path_is_valid(s: &str) -> (r: bool)
    ensures
        r == path_wf(s@),
{
    syn::parse_str::<syn::Path>(s).is_ok()
}

/// The namespace the wipe behaviors refer to: the caller's override when one
/// was given, the well-known wipe crate otherwise.
pub open spec fn spec_wipe_root(crate_path: Option<Seq<char>>) -> Seq<char> {
    match crate_path {
        Some(p) => p,
        None => "::zeroize"@,
    }
}

/// The capability path of each behavior: the trait reference a generated
/// implementation block names, and the constraint attached to inferred
/// bounds. The wipe behaviors resolve their namespace through the caller's
/// `crate` override.
pub open spec fn spec_capability_path(kind: BehaviorKind, crate_path: Option<Seq<char>>) -> Seq<
    char,
> {
    match kind {
        BehaviorKind::Clone => "::core::clone::Clone"@,
        BehaviorKind::Copy => "::core::marker::Copy"@,
        BehaviorKind::Debug => "::core::fmt::Debug"@,
        BehaviorKind::Default => "::core::default::Default"@,
        BehaviorKind::Eq => "::core::cmp::Eq"@,
        BehaviorKind::Hash => "::core::hash::Hash"@,
        BehaviorKind::Ord => "::core::cmp::Ord"@,
        BehaviorKind::PartialEq => "::core::cmp::PartialEq"@,
        BehaviorKind::PartialOrd => "::core::cmp::PartialOrd"@,
        BehaviorKind::Wipe => spec_wipe_root(crate_path) + "::Zeroize"@,
        BehaviorKind::WipeOnTeardown => spec_wipe_root(crate_path) + "::ZeroizeOnDrop"@,
    }
}

/// The path of the destructor trait named by auxiliary teardown blocks.
pub open spec fn spec_drop_path() -> Seq<char> {
    "::core::ops::Drop"@
}

/// Builds the capability path of a behavior; `crate_path` is the caller's
/// namespace override, read only by the wipe behaviors.
pub fn capability_path(kind: BehaviorKind, crate_path: &Option<String>) -> (r: String)
    ensures
        r@ == spec_capability_path(
            kind,
            match crate_path {
                Some(s) => Some(s@),
                None => None,
            },
        ),
{
    match kind {
        BehaviorKind::Clone => String::from_str("::core::clone::Clone"),
        BehaviorKind::Copy => String::from_str("::core::marker::Copy"),
        BehaviorKind::Debug => String::from_str("::core::fmt::Debug"),
        BehaviorKind::Default => String::from_str("::core::default::Default"),
        BehaviorKind::Eq => String::from_str("::core::cmp::Eq"),
        BehaviorKind::Hash => String::from_str("::core::hash::Hash"),
        BehaviorKind::Ord => String::from_str("::core::cmp::Ord"),
        BehaviorKind::PartialEq => String::from_str("::core::cmp::PartialEq"),
        BehaviorKind::PartialOrd => String::from_str("::core::cmp::PartialOrd"),
        BehaviorKind::Wipe => {
            let mut r = wipe_root(crate_path);
            r.append("::Zeroize");
            r
        },
        BehaviorKind::WipeOnTeardown => {
            let mut r = wipe_root(crate_path);
            r.append("::ZeroizeOnDrop");
            r
        },
    }
}

/// Builds the wipe namespace root.
pub fn wipe_root(crate_path: &Option<String>) -> (r: String)
    ensures
        r@ == spec_wipe_root(
            match crate_path {
                Some(s) => Some(s@),
                None => None,
            },
        ),
{
    match crate_path {
        Some(p) => p.clone(),
        None => String::from_str("::zeroize"),
    }
}

/// Builds the destructor trait path.
pub fn drop_path() -> (r: String)
    ensures
        r@ == spec_drop_path(),
{
    String::from_str("::core::ops::Drop")
}

} // verus!
