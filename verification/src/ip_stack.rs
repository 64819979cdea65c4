use vstd::prelude::*;

verus! {

/// Which IP protocol versions the host can currently use.
#[derive(Clone, Copy, Debug, PartialEq, Eq, Structural, Hash)]
pub enum IpStack {
    /// Neither IPv4 nor IPv6 is usable.
    NoStack,
    /// Only IPv4 is usable.
    V4Only,
    /// Only IPv6 is usable.
    V6Only,
    /// Both IPv4 and IPv6 are usable.
    DualStack,
}

impl IpStack {
    /// The stack described by the two availability flags.
    pub open spec fn spec_from_flags(have_v4: bool, have_v6: bool) -> IpStack {
        if have_v4 && have_v6 {
            IpStack::DualStack
        } else if have_v4 {
            IpStack::V4Only
        } else if have_v6 {
            IpStack::V6Only
        } else {
            IpStack::NoStack
        }
    }

    /// Whether the stack includes IPv4.
    pub open spec fn spec_has_ipv4(self) -> bool {
        self is V4Only || self is DualStack
    }

    /// Whether the stack includes IPv6.
    pub open spec fn spec_has_ipv6(self) -> bool {
        self is V6Only || self is DualStack
    }

    /// Builds the stack from the `have_v4` / `have_v6` availability flags.
    pub fn from_flags(have_v4: bool, have_v6: bool) -> (r: IpStack)
        ensures
            r == Self::spec_from_flags(have_v4, have_v6),
    {
        if have_v4 && have_v6 {
            IpStack::DualStack
        } else if have_v4 {
            IpStack::V4Only
        } else if have_v6 {
            IpStack::V6Only
        } else {
            IpStack::NoStack
        }
    }

    /// Whether IPv4 is usable.
    pub fn has_ipv4(&self) -> (r: bool)
        ensures
            r == self.spec_has_ipv4(),
    {
        match self {
            IpStack::V4Only | IpStack::DualStack => true,
            _ => false,
        }
    }

    /// Whether IPv6 is usable.
    pub fn has_ipv6(&self) -> (r: bool)
        ensures
            r == self.spec_has_ipv6(),
    {
        match self {
            IpStack::V6Only | IpStack::DualStack => true,
            _ => false,
        }
    }
}

impl Default for IpStack {
    /// Nothing observed yet: no protocol is usable.
    fn default() -> (r: Self)
        ensures
            r == IpStack::NoStack,
    {
        IpStack::NoStack
    }
}

/// The flags a stack is built from are exactly the flags it reports back.
pub proof fn lemma_from_flags_reports_flags(have_v4: bool, have_v6: bool)
    ensures
        IpStack::spec_from_flags(have_v4, have_v6).spec_has_ipv4() == have_v4,
        IpStack::spec_from_flags(have_v4, have_v6).spec_has_ipv6() == have_v6,
{
}

/// Every stack is rebuilt by the flags it reports.
pub proof fn lemma_flags_rebuild_stack(s: IpStack)
    ensures
        IpStack::spec_from_flags(s.spec_has_ipv4(), s.spec_has_ipv6()) == s,
{
}

/// A stack reports no protocol exactly when it is `NoStack`.
pub proof fn lemma_none_iff_no_protocol(s: IpStack)
    ensures
        (s == IpStack::NoStack) <==> (!s.spec_has_ipv4() && !s.spec_has_ipv6()),
{
}

/// Each stack, written out: which flags build it and which protocols it
/// reports.
pub proof fn lemma_stack_table()
    ensures
        IpStack::spec_from_flags(false, false) == IpStack::NoStack,
        IpStack::spec_from_flags(true, false) == IpStack::V4Only,
        IpStack::spec_from_flags(false, true) == IpStack::V6Only,
        IpStack::spec_from_flags(true, true) == IpStack::DualStack,
        !IpStack::NoStack.spec_has_ipv4() && !IpStack::NoStack.spec_has_ipv6(),
        IpStack::V4Only.spec_has_ipv4() && !IpStack::V4Only.spec_has_ipv6(),
        !IpStack::V6Only.spec_has_ipv4() && IpStack::V6Only.spec_has_ipv6(),
        IpStack::DualStack.spec_has_ipv4() && IpStack::DualStack.spec_has_ipv6(),
{
}

} // verus!
