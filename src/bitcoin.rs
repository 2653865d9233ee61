//! Status names and fee estimates of a full node.
use vstd::prelude::*;

verus! {

/// Status of the connection to a full node.
#[derive(Clone, Copy, Debug, PartialEq, Eq, Structural)]
pub enum BitcoinCoreStatus {
    Offline,
    Connecting,
    Online,
    Synchronizing,
}

/// Status of a full node's push feed.
#[derive(Clone, Copy, Debug, PartialEq, Eq, Structural)]
pub enum ZmqStatus {
    Offline,
    Connecting,
    Online,
}

/// A fee estimate for confirmation within `target` blocks; the node may
/// answer for another target, `received_target`.
#[derive(Clone, Copy, Debug, PartialEq, Eq, Structural)]
pub struct EstimatedFee {
    /// Fee rate in satoshis per kilo-virtual-byte.
    pub fee: u64,
    pub target: u8,
    pub received_target: u8,
}

impl EstimatedFee {
    /// An estimate not yet received: zero, for the target asked.
    pub fn new(target: u8) -> (r: EstimatedFee)
        ensures
            r == (EstimatedFee { fee: 0, target, received_target: target }),
    {
        EstimatedFee { fee: 0, target, received_target: target }
    }

    /// The estimate after the node answered with `fee` for `blocks`: the
    /// received target is the node's when it fits in a byte, else one.
    pub fn with_answer(self, fee: u64, blocks: i64) -> (r: EstimatedFee)
        ensures
            r.fee == fee,
            r.target == self.target,
            r.received_target == (if 0 <= blocks <= 255 {
                blocks as u8
            } else {
                1u8
            }),
    {
        let received_target: u8 = if 0 <= blocks && blocks <= 255 {
            blocks as u8
        } else {
            1
        };
        EstimatedFee { fee, target: self.target, received_target }
    }
}

} // verus!
