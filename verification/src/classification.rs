use vstd::prelude::*;

verus! {

/// The build-time facts that decide which capability modules apply:
/// the target device class and the build profile.
#[derive(Clone, Copy, PartialEq, Eq, Structural, Debug)]
pub struct Classification {
    /// The build targets a mobile device.
    pub mobile: bool,
    /// The build uses the debug profile.
    pub debug: bool,
}

/// Under which classifications a capability module is included in the
/// bootstrap sequence.
#[derive(Clone, Copy, PartialEq, Eq, Structural, Debug)]
pub enum Inclusion {
    /// Included only on mobile targets.
    IfMobile,
    /// Included on every target and profile.
    Always,
    /// Included only in debug builds.
    IfDebug,
}

/// Whether a module with inclusion predicate `inc` applies under `c`.
pub open spec fn spec_included(inc: Inclusion, c: Classification) -> bool {
    match inc {
        Inclusion::IfMobile => c.mobile,
        Inclusion::Always => true,
        Inclusion::IfDebug => c.debug,
    }
}

/// Evaluate an inclusion predicate against the classification.
pub fn included(inc: Inclusion, c: Classification) -> (r: bool)
    ensures
        r == spec_included(inc, c),
{
    match inc {
        Inclusion::IfMobile => c.mobile,
        Inclusion::Always => true,
        Inclusion::IfDebug => c.debug,
    }
}

} // verus!
