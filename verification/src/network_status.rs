use vstd::prelude::*;

verus! {

/// Whether the host currently has a usable network.
#[derive(Clone, Copy, Debug, PartialEq, Eq, Structural, Hash)]
pub enum NetworkStatus {
    /// A default route exists and at least one IP protocol has an address.
    Available,
    /// No usable network.
    Unavailable,
}

impl NetworkStatus {
    /// The stable text name of the status, used in diagnostic records.
    pub open spec fn spec_name(self) -> Seq<char> {
        match self {
            NetworkStatus::Available => "Available"@,
            NetworkStatus::Unavailable => "Unavailable"@,
        }
    }

    /// Returns the stable text name of the status.
    pub fn name(&self) -> (r: &'static str)
        ensures
            r@ == self.spec_name(),
    {
        match self {
            NetworkStatus::Available => "Available",
            NetworkStatus::Unavailable => "Unavailable",
        }
    }
}

impl Default for NetworkStatus {
    /// A monitor that has not observed anything reports `Unavailable`.
    fn default() -> (r: Self)
        ensures
            r == NetworkStatus::Unavailable,
    {
        NetworkStatus::Unavailable
    }
}

} // verus!
