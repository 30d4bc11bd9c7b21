use vstd::prelude::*;

verus! {

/// A driver/API version triple, ordered lexicographically by
/// (major, minor, patch).
#[derive(Clone, Copy, Debug, PartialEq, Eq, Structural)]
pub struct Version {
    pub major: u32,
    pub minor: u32,
    pub patch: u32,
}

/// The driver version at or above which, on the portability platform,
/// the portability extensions and instance flag become mandatory.
pub open spec fn spec_portability_threshold() -> Version {
    Version { major: 1, minor: 3, patch: 216 }
}

impl Version {
    /// Lexicographic order on (major, minor, patch): `self` is at least
    /// `other`.
    pub open spec fn spec_at_least(self, other: Version) -> bool {
        ||| self.major > other.major
        ||| (self.major == other.major && self.minor > other.minor)
        ||| (self.major == other.major && self.minor == other.minor && self.patch >= other.patch)
    }

    /// Compares two versions lexicographically by (major, minor, patch).
    pub fn at_least(&self, other: &Version) -> (r: bool)
        ensures
            r == self.spec_at_least(*other),
    {
        if self.major != other.major {
            self.major > other.major
        } else if self.minor != other.minor {
            self.minor > other.minor
        } else {
            self.patch >= other.patch
        }
    }
}

/// The threshold version from which the portability path is taken.
pub fn portability_threshold() -> (v: Version)
    ensures
        v == spec_portability_threshold(),
{
    Version { major: 1, minor: 3, patch: 216 }
}

/// Whether the portability extensions and the portability-enumeration
/// instance flag are required: exactly when running on the portability
/// platform with a driver version at or above the threshold.
pub fn portability_required(portability_platform: bool, driver_version: &Version) -> (r: bool)
    ensures
        r == (portability_platform && driver_version.spec_at_least(spec_portability_threshold())),
{
    portability_platform && driver_version.at_least(&portability_threshold())
}

} // verus!
