//! Figures behind the balance gauge of a Lightning node.
use vstd::prelude::*;

verus! {

/// Local balance against total capacity.
#[derive(Clone, Copy, Debug, PartialEq, Eq, Structural)]
pub struct BalanceGauge {
    pub local_balance: u64,
    pub total_capacity: u64,
}

impl BalanceGauge {
    pub fn new(local_balance: u64, total_capacity: u64) -> (r: BalanceGauge)
        ensures
            r == (BalanceGauge { local_balance, total_capacity }),
    {
        BalanceGauge { local_balance, total_capacity }
    }

    /// The remote side's share: capacity less the local balance, zero when
    /// the local balance exceeds the capacity.
    pub fn remote_balance(&self) -> (r: u64)
        ensures
            r == (if self.total_capacity >= self.local_balance {
                (self.total_capacity - self.local_balance) as u64
            } else {
                0
            }),
    {
        if self.total_capacity >= self.local_balance {
            self.total_capacity - self.local_balance
        } else {
            0
        }
    }

    /// The local share in thousandths, zero for an empty channel set and at
    /// most a thousand.
    pub fn ratio_permille(&self) -> (r: u64)
        ensures
            self.total_capacity == 0 ==> r == 0,
            self.total_capacity > 0 && self.local_balance >= self.total_capacity ==> r == 1000,
            self.total_capacity > 0 && self.local_balance < self.total_capacity ==> r as int
                == self.local_balance as int * 1000 / self.total_capacity as int,
    {
        if self.total_capacity == 0 {
            0
        } else if self.local_balance >= self.total_capacity {
            1000
        } else {
            let l = self.local_balance as u128;
            let t = self.total_capacity as u128;
            proof {
                let li = l as int;
                let ti = t as int;
                assert(li * 1000 <= u64::MAX * 1000) by (nonlinear_arith)
                    requires
                        li <= u64::MAX,
                ;
                assert(li * 1000 / ti <= 1000) by (nonlinear_arith)
                    requires
                        li < ti,
                        ti > 0,
                ;
            }
            ((l * 1000) / t) as u64
        }
    }
}

} // verus!
