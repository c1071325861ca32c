//! The option model: typed per-behavior configuration entries, and the
//! configuration-error taxonomy.
//!
//! The external attribute parser hands the library option entries already
//! split into a name and a value shape; the library validates their content
//! and combination. Every error carries the source location (a span token)
//! of the offending entry, so the caller can render a precise diagnostic.

use vstd::prelude::*;

verus! {

/// The value shape of one configuration entry.
#[derive(Clone, Debug, PartialEq, Eq)]
pub enum OptionValue {
    /// A bare flag, such as `drop`.
    Flag,
    /// A `name = "<string>"` entry.
    Str(String),
    /// A `name = <literal>` entry whose literal is not a string.
    OtherLit,
    /// An entry that matches no recognized entry shape at all.
    Malformed,
}

/// The view of an option value.
pub enum OptionValueV {
    Flag,
    Str(Seq<char>),
    OtherLit,
    Malformed,
}

impl View for OptionValue {
    type V = OptionValueV;

    open spec fn view(&self) -> OptionValueV {
        match self {
            OptionValue::Flag => OptionValueV::Flag,
            OptionValue::Str(s) => OptionValueV::Str(s@),
            OptionValue::OtherLit => OptionValueV::OtherLit,
            OptionValue::Malformed => OptionValueV::Malformed,
        }
    }
}

/// One raw configuration entry attached to a requested behavior.
#[derive(Clone, Debug, PartialEq, Eq)]
pub struct OptionEntry {
    /// The source location of the entry.
    pub span: u64,
    /// The entry's name (empty for a malformed entry).
    pub name: String,
    /// The entry's value shape.
    pub value: OptionValue,
}

/// The view of an option entry.
pub struct OptionEntryV {
    pub span: u64,
    pub name: Seq<char>,
    pub value: OptionValueV,
}

impl View for OptionEntry {
    type V = OptionEntryV;

    open spec fn view(&self) -> OptionEntryV {
        OptionEntryV { span: self.span, name: self.name@, value: self.value@ }
    }
}

/// A configuration error, detected before any code is emitted.
///
/// Every variant carries the source location of the offending token. A
/// detected error aborts emission for the whole item.
#[derive(Clone, Debug, PartialEq, Eq)]
pub enum ConfigError {
    /// An entry does not match any recognized entry shape.
    Syntax { span: u64 },
    /// The same option appears twice on one behavior.
    DuplicateOption { span: u64, name: String },
    /// The same behavior is requested twice on one item.
    DuplicateBehavior { span: u64, name: String },
    /// A recognized-looking option that this behavior does not accept.
    UnsupportedOption { span: u64, behavior: String },
    /// A behavior was requested on an item shape it cannot support.
    ShapeMismatch { span: u64, behavior: String },
    /// Default construction was requested on a sum shape that does not mark
    /// exactly one variant as the default; `marked` counts the markers found.
    MissingDefaultVariant { span: u64, marked: u64 },
    /// A namespace-override value that does not parse as a valid reference.
    Path { span: u64 },
}

/// The view of a configuration error.
pub enum ErrorV {
    Syntax { span: u64 },
    DuplicateOption { span: u64, name: Seq<char> },
    DuplicateBehavior { span: u64, name: Seq<char> },
    UnsupportedOption { span: u64, behavior: Seq<char> },
    ShapeMismatch { span: u64, behavior: Seq<char> },
    MissingDefaultVariant { span: u64, marked: u64 },
    Path { span: u64 },
}

impl View for ConfigError {
    type V = ErrorV;

    open spec fn view(&self) -> ErrorV {
        match self {
            ConfigError::Syntax { span } => ErrorV::Syntax { span: *span },
            ConfigError::DuplicateOption { span, name } => ErrorV::DuplicateOption {
                span: *span,
                name: name@,
            },
            ConfigError::DuplicateBehavior { span, name } => ErrorV::DuplicateBehavior {
                span: *span,
                name: name@,
            },
            ConfigError::UnsupportedOption { span, behavior } => ErrorV::UnsupportedOption {
                span: *span,
                behavior: behavior@,
            },
            ConfigError::ShapeMismatch { span, behavior } => ErrorV::ShapeMismatch {
                span: *span,
                behavior: behavior@,
            },
            ConfigError::MissingDefaultVariant { span, marked } => ErrorV::MissingDefaultVariant {
                span: *span,
                marked: *marked,
            },
            ConfigError::Path { span } => ErrorV::Path { span: *span },
        }
    }
}

/// The resolved configuration of the wipe behaviors.
#[derive(Clone, Debug, PartialEq, Eq)]
pub struct WipeConfig {
    /// The namespace the generated code refers to, when the caller renamed
    /// the wipe crate; `None` means the well-known default namespace.
    pub crate_path: Option<String>,
    /// The `drop` option: wiping is deferred to the type's teardown, and an
    /// auxiliary destructor implementation is emitted.
    pub deferred: bool,
}

/// The view of a wipe configuration.
pub struct WipeConfigV {
    pub crate_path: Option<Seq<char>>,
    pub deferred: bool,
}

impl View for WipeConfig {
    type V = WipeConfigV;

    open spec fn view(&self) -> WipeConfigV {
        WipeConfigV {
            crate_path: match &self.crate_path {
                Some(s) => Some(s@),
                None => None,
            },
            deferred: self.deferred,
        }
    }
}

} // verus!
