//! The three decisions the filter can reach, and the codes by which the
//! receive path knows them.

use vstd::prelude::*;

verus! {

/// What happens to a frame.
#[derive(Clone, Copy, Debug, PartialEq, Eq)]
pub enum Decision {
    /// Forward the frame unchanged.
    Pass,
    /// Discard the frame because policy says so.
    Drop,
    /// Discard the frame because it could not be parsed.
    Abort,
}

impl Decision {
    /// The code of a decision.
    pub open spec fn spec_code(self) -> u32 {
        match self {
            Decision::Abort => 0,
            Decision::Drop => 1,
            Decision::Pass => 2,
        }
    }

    /// The code under which the receive path knows this decision.
    #[verifier::when_used_as_spec(spec_code)]
    pub fn code(self) -> (code: u32)
        ensures
            code == self.spec_code(),
    {
        match self {
            Decision::Abort => xdp_aborted(),
            Decision::Drop => xdp_drop(),
            Decision::Pass => xdp_pass(),
        }
    }

    /// The decision that `code` stands for, if it stands for one.
    pub fn from_code(code: u32) -> (decision: Option<Decision>)
        ensures
            decision matches Some(d) ==> d.code() == code,
            decision is None ==> forall|d: Decision| d.code() != code,
    {
        if code == xdp_pass() {
            Some(Decision::Pass)
        } else if code == xdp_drop() {
            Some(Decision::Drop)
        } else if code == xdp_aborted() {
            Some(Decision::Abort)
        } else {
            None
        }
    }
}

/// Reads `aya_ebpf::bindings::xdp_action::XDP_ABORTED`, which the bindings
/// define as 0.
#[verifier::external_body]
fn xdp_aborted() -> (code: u32)
    ensures
        code == Decision::Abort.code(),
{
    aya_ebpf::bindings::xdp_action::XDP_ABORTED
}

/// Reads `aya_ebpf::bindings::xdp_action::XDP_DROP`, which the bindings
/// define as 1.
#[verifier::external_body]
fn xdp_drop() -> (code: u32)
    ensures
        code == Decision::Drop.code(),
{
    aya_ebpf::bindings::xdp_action::XDP_DROP
}

/// Reads `aya_ebpf::bindings::xdp_action::XDP_PASS`, which the bindings
/// define as 2.
#[verifier::external_body]
fn xdp_pass() -> (code: u32)
    ensures
        code == Decision::Pass.code(),
{
    aya_ebpf::bindings::xdp_action::XDP_PASS
}

} // verus!
