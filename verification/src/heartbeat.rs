use vstd::prelude::*;

use crate::opcode::GatewayOpcode;

verus! {

/// An outbound keep-alive frame: the last observed sequence number under `d`,
/// and the fixed heartbeat opcode under `op`.
#[derive(Clone, Copy, Debug, Hash, PartialEq, Eq, Structural)]
pub struct Heartbeat {
    pub d: Option<u64>,
    pub op: GatewayOpcode,
}

impl Heartbeat {
    /// Build a fresh keep-alive frame from the caller's last observed
    /// sequence number, `None` before the first dispatch frame arrived.
    pub fn new(seq: Option<u64>) -> (r: Self)
        ensures
            r.d == seq,
            r.op == GatewayOpcode::Heartbeat,
    {
        Heartbeat { d: seq, op: GatewayOpcode::Heartbeat }
    }
}

} // verus!
