//! The behavior catalog: one entry per supported implementation kind.

use vstd::prelude::*;

verus! {

/// One supported category of generated implementation.
///
/// The catalog is closed: every behavior a caller may request is a variant
/// here. `Wipe` is the secure-zeroing behavior, `WipeOnTeardown` attaches the
/// wipe to the type's destructor.
#[derive(Clone, Copy, Debug, PartialEq, Eq, Structural)]
pub enum BehaviorKind {
    Clone,
    Copy,
    Debug,
    Default,
    Eq,
    Hash,
    Ord,
    PartialEq,
    PartialOrd,
    Wipe,
    WipeOnTeardown,
}

impl BehaviorKind {
    /// The stable configuration name under which a caller requests this
    /// behavior.
    pub fn name(&self) -> (r: &'static str)
        ensures
            r@ == self.spec_name(),
    {
        match self {
            BehaviorKind::Clone => "Clone",
            BehaviorKind::Copy => "Copy",
            BehaviorKind::Debug => "Debug",
            BehaviorKind::Default => "Default",
            BehaviorKind::Eq => "Eq",
            BehaviorKind::Hash => "Hash",
            BehaviorKind::Ord => "Ord",
            BehaviorKind::PartialEq => "PartialEq",
            BehaviorKind::PartialOrd => "PartialOrd",
            BehaviorKind::Wipe => "Wipe",
            BehaviorKind::WipeOnTeardown => "WipeOnTeardown",
        }
    }

    /// The configuration name of each behavior, as a sequence of characters.
    pub open spec fn spec_name(self) -> Seq<char> {
        match self {
            BehaviorKind::Clone => "Clone"@,
            BehaviorKind::Copy => "Copy"@,
            BehaviorKind::Debug => "Debug"@,
            BehaviorKind::Default => "Default"@,
            BehaviorKind::Eq => "Eq"@,
            BehaviorKind::Hash => "Hash"@,
            BehaviorKind::Ord => "Ord"@,
            BehaviorKind::PartialEq => "PartialEq"@,
            BehaviorKind::PartialOrd => "PartialOrd"@,
            BehaviorKind::Wipe => "Wipe"@,
            BehaviorKind::WipeOnTeardown => "WipeOnTeardown"@,
        }
    }

    /// Maps a stable configuration name back to its behavior: the catalog
    /// is closed, and a name outside it belongs to no behavior.
    pub fn from_name(s: &String) -> (r: Option<BehaviorKind>)
        ensures
            match r {
                Some(k) => k.spec_name() == s@,
                None => forall|k: BehaviorKind| k.spec_name() != s@,
            },
    {
        let kinds = [
            BehaviorKind::Clone,
            BehaviorKind::Copy,
            BehaviorKind::Debug,
            BehaviorKind::Default,
            BehaviorKind::Eq,
            BehaviorKind::Hash,
            BehaviorKind::Ord,
            BehaviorKind::PartialEq,
            BehaviorKind::PartialOrd,
            BehaviorKind::Wipe,
            BehaviorKind::WipeOnTeardown,
        ];
        let mut i: usize = 0;
        while i < 11
            invariant
                i <= 11,
                kinds@.len() == 11,
                kinds@[0] == BehaviorKind::Clone,
                kinds@[1] == BehaviorKind::Copy,
                kinds@[2] == BehaviorKind::Debug,
                kinds@[3] == BehaviorKind::Default,
                kinds@[4] == BehaviorKind::Eq,
                kinds@[5] == BehaviorKind::Hash,
                kinds@[6] == BehaviorKind::Ord,
                kinds@[7] == BehaviorKind::PartialEq,
                kinds@[8] == BehaviorKind::PartialOrd,
                kinds@[9] == BehaviorKind::Wipe,
                kinds@[10] == BehaviorKind::WipeOnTeardown,
                forall|l: int| 0 <= l < i ==> #[trigger] kinds@[l].spec_name() != s@,
            decreases 11 - i,
    {
            let k = kinds[i];
            if crate::text::string_eq_lit(s, k.name()) {
                return Some(k);
            }
            i = i + 1;
        }
        proof {
            assert forall|k: BehaviorKind| k.spec_name() != s@ by {
                match k {
                    BehaviorKind::Clone => assert(k == kinds@[0]),
                    BehaviorKind::Copy => assert(k == kinds@[1]),
                    BehaviorKind::Debug => assert(k == kinds@[2]),
                    BehaviorKind::Default => assert(k == kinds@[3]),
                    BehaviorKind::Eq => assert(k == kinds@[4]),
                    BehaviorKind::Hash => assert(k == kinds@[5]),
                    BehaviorKind::Ord => assert(k == kinds@[6]),
                    BehaviorKind::PartialEq => assert(k == kinds@[7]),
                    BehaviorKind::PartialOrd => assert(k == kinds@[8]),
                    BehaviorKind::Wipe => assert(k == kinds@[9]),
                    BehaviorKind::WipeOnTeardown => assert(k == kinds@[10]),
                }
            }
        }
        None
    }

    /// Whether the generated implementation must read field values.
    ///
    /// A union shape may only request behaviors for which this is false:
    /// nothing can safely inspect the fields of an untagged union.
    pub fn inspects_values(&self) -> (r: bool)
        ensures
            r == self.spec_inspects_values(),
    {
        !(matches!(self, BehaviorKind::Clone) || matches!(self, BehaviorKind::Copy))
    }

    /// Which behaviors read field values: all but `Clone` and `Copy` (a
    /// union's `Clone` is a bitwise copy, `Copy` is a marker).
    pub open spec fn spec_inspects_values(self) -> bool {
        !(self is Clone || self is Copy)
    }

    /// Whether a field may be excluded from this behavior by a skip marker.
    ///
    /// Behaviors that must visit every field to satisfy a language-level
    /// contract refuse per-field skips.
    pub fn supports_skip(&self) -> (r: bool)
        ensures
            r == self.spec_supports_skip(),
    {
        match self {
            BehaviorKind::Clone => true,
            BehaviorKind::Debug => true,
            BehaviorKind::Eq => true,
            BehaviorKind::Hash => true,
            BehaviorKind::Ord => true,
            BehaviorKind::PartialEq => true,
            BehaviorKind::PartialOrd => true,
            BehaviorKind::Wipe => true,
            BehaviorKind::WipeOnTeardown => true,
            _ => false,
        }
    }

    /// Which behaviors accept per-field skip markers. A skipped field of a
    /// clonable behavior is reconstructed by default construction.
    pub open spec fn spec_supports_skip(self) -> bool {
        match self {
            BehaviorKind::Clone => true,
            BehaviorKind::Debug => true,
            BehaviorKind::Eq => true,
            BehaviorKind::Hash => true,
            BehaviorKind::Ord => true,
            BehaviorKind::PartialEq => true,
            BehaviorKind::PartialOrd => true,
            BehaviorKind::Wipe => true,
            BehaviorKind::WipeOnTeardown => true,
            _ => false,
        }
    }
}

} // verus!
