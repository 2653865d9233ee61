//! Which configured node is displayed: rotation on a timer, and manual
//! navigation that restarts the timer.
use vstd::prelude::*;

use crate::text::parse_u64;

verus! {

/// Switch interval used when none is configured, in seconds.
pub const DEFAULT_SWITCH_INTERVAL: u64 = 5;

/// The switch interval a configuration text gives: its number of seconds,
/// at least one, or the default when it is no number.
pub open spec fn configured_interval(text: Seq<char>) -> u64 {
    match crate::text::decimal_value(text) {
        Some(v) => if v >= 1 {
            v
        } else {
            1
        },
        None => DEFAULT_SWITCH_INTERVAL,
    }
}

/// The rotation state. Times are milliseconds on the caller's monotonic
/// clock; the interval is in whole seconds.
#[derive(Clone, Copy, Debug, PartialEq, Eq, Structural)]
pub struct NodeRotator {
    pub current_node_index: usize,
    pub node_count: usize,
    pub last_node_switch: Option<u64>,
    pub node_switch_interval: u64,
    pub seconds_until_rotation: u64,
}

/// Milliseconds from `then` to `now`, zero if the clock reads earlier.
pub open spec fn elapsed_ms(now: u64, then: u64) -> u64 {
    if now >= then {
        (now - then) as u64
    } else {
        0
    }
}

impl NodeRotator {
    pub open spec fn wf(self) -> bool {
        &&& self.node_switch_interval >= 1
        &&& (self.node_count > 0 ==> self.current_node_index < self.node_count)
    }

    /// Whether the tick at `now` switches to the next node.
    pub open spec fn switches_at(self, now: u64) -> bool {
        self.node_count > 1 && match self.last_node_switch {
            Some(t) => elapsed_ms(now, t) / 1000 >= self.node_switch_interval,
            None => false,
        }
    }

    /// The index after the current one, wrapping at the node count.
    pub open spec fn next_index(self) -> usize {
        ((self.current_node_index as int + 1) % self.node_count as int) as usize
    }

    /// The state after a timer tick at `now`.
    pub open spec fn ticked(self, now: u64) -> NodeRotator {
        if self.node_count <= 1 {
            self
        } else {
            match self.last_node_switch {
                None => NodeRotator { last_node_switch: Some(now), ..self },
                Some(t) => if self.switches_at(now) {
                    NodeRotator {
                        current_node_index: self.next_index(),
                        last_node_switch: Some(now),
                        seconds_until_rotation: self.node_switch_interval,
                        ..self
                    }
                } else {
                    NodeRotator {
                        seconds_until_rotation: if self.node_switch_interval >= elapsed_ms(now, t)
                            / 1000 {
                            (self.node_switch_interval - elapsed_ms(now, t) / 1000) as u64
                        } else {
                            0
                        },
                        ..self
                    }
                },
            }
        }
    }

    /// The state after `manual` navigation at `now` to `index`: the timer
    /// restarts at the full interval.
    pub open spec fn navigated(self, index: usize, now: u64) -> NodeRotator {
        NodeRotator {
            current_node_index: index,
            last_node_switch: Some(now),
            seconds_until_rotation: self.node_switch_interval,
            ..self
        }
    }

    /// The state after "next": with more than one node, the following node
    /// is shown at once.
    pub open spec fn after_next(self, now: u64) -> NodeRotator {
        if self.node_count > 1 {
            self.navigated(self.next_index(), now)
        } else {
            self
        }
    }

    /// The state after "previous": with more than one node, the preceding
    /// node is shown at once, wrapping to the last.
    pub open spec fn after_previous(self, now: u64) -> NodeRotator {
        if self.node_count > 1 {
            self.navigated(
                if self.current_node_index == 0 {
                    (self.node_count - 1) as usize
                } else {
                    (self.current_node_index - 1) as usize
                },
                now,
            )
        } else {
            self
        }
    }

    /// The state after the interval is set to `interval` at `now`.
    pub open spec fn with_interval(self, interval: u64, now: u64) -> NodeRotator {
        if self.node_count > 1 {
            NodeRotator {
                node_switch_interval: interval,
                seconds_until_rotation: interval,
                last_node_switch: Some(now),
                ..self
            }
        } else {
            self
        }
    }

    /// The state after the interval is lengthened by a second.
    pub open spec fn after_longer(self, now: u64) -> NodeRotator {
        self.with_interval(
            if self.node_switch_interval < u64::MAX {
                (self.node_switch_interval + 1) as u64
            } else {
                u64::MAX
            },
            now,
        )
    }

    /// The state after the interval is shortened by a second, never below one.
    pub open spec fn after_shorter(self, now: u64) -> NodeRotator {
        self.with_interval(
            if self.node_switch_interval > 1 {
                (self.node_switch_interval - 1) as u64
            } else {
                1
            },
            now,
        )
    }

    /// A rotator over `node_count` nodes, showing the first, whose interval
    /// is the configured number of seconds: the default when the text is no
    /// number, and at least one second.
    pub fn new(node_count: usize, interval_text: &str) -> (r: NodeRotator)
        ensures
            r.wf(),
            r.current_node_index == 0,
            r.node_count == node_count,
            r.last_node_switch is None,
            r.node_switch_interval == configured_interval(interval_text@),
            r.seconds_until_rotation == r.node_switch_interval,
    {
        let interval = match parse_u64(interval_text) {
            Some(v) => if v >= 1 {
                v
            } else {
                1
            },
            None => DEFAULT_SWITCH_INTERVAL,
        };
        NodeRotator {
            current_node_index: 0,
            node_count,
            last_node_switch: None,
            node_switch_interval: interval,
            seconds_until_rotation: interval,
        }
    }

    /// A timer tick at `now`: with more than one node, once the interval
    /// has elapsed since the last switch the next node is shown and the
    /// timer restarts; otherwise the remaining seconds are recomputed,
    /// never below zero. The first tick starts the timer.
    pub fn tick(&mut self, now: u64)
        requires
            old(self).wf(),
        ensures
            *final(self) == old(self).ticked(now),
            final(self).wf(),
    {
        if self.node_count <= 1 {
            return;
        }
        match self.last_node_switch {
            None => {
                self.last_node_switch = Some(now);
            },
            Some(t) => {
                let elapsed = if now >= t {
                    now - t
                } else {
                    0
                };
                let secs = elapsed / 1000;
                if secs >= self.node_switch_interval {
                    self.current_node_index = (self.current_node_index + 1) % self.node_count;
                    self.last_node_switch = Some(now);
                    self.seconds_until_rotation = self.node_switch_interval;
                } else {
                    self.seconds_until_rotation = self.node_switch_interval - secs;
                }
            },
        }
    }

    /// Shows the next node now and restarts the timer.
    pub fn next(&mut self, now: u64)
        requires
            old(self).wf(),
        ensures
            *final(self) == old(self).after_next(now),
            final(self).wf(),
    {
        if self.node_count > 1 {
            self.current_node_index = (self.current_node_index + 1) % self.node_count;
            self.last_node_switch = Some(now);
            self.seconds_until_rotation = self.node_switch_interval;
        }
    }

    /// Shows the previous node now and restarts the timer.
    pub fn previous(&mut self, now: u64)
        requires
            old(self).wf(),
        ensures
            *final(self) == old(self).after_previous(now),
            final(self).wf(),
    {
        if self.node_count > 1 {
            self.current_node_index = if self.current_node_index == 0 {
                self.node_count - 1
            } else {
                self.current_node_index - 1
            };
            self.last_node_switch = Some(now);
            self.seconds_until_rotation = self.node_switch_interval;
        }
    }

    /// Lengthens the interval by a second and restarts the timer.
    pub fn increase_interval(&mut self, now: u64)
        requires
            old(self).wf(),
        ensures
            *final(self) == old(self).after_longer(now),
            final(self).wf(),
    {
        if self.node_count > 1 {
            let interval = self.node_switch_interval.saturating_add(1);
            self.node_switch_interval = interval;
            self.seconds_until_rotation = interval;
            self.last_node_switch = Some(now);
        }
    }

    /// Shortens the interval by a second, never below one, and restarts
    /// the timer.
    pub fn decrease_interval(&mut self, now: u64)
        requires
            old(self).wf(),
        ensures
            *final(self) == old(self).after_shorter(now),
            final(self).wf(),
    {
        if self.node_count > 1 {
            let interval = if self.node_switch_interval > 1 {
                self.node_switch_interval - 1
            } else {
                1
            };
            self.node_switch_interval = interval;
            self.seconds_until_rotation = interval;
            self.last_node_switch = Some(now);
        }
    }
}

/// The rotator after ticks at each time of `times`, in order.
pub open spec fn ticks(r: NodeRotator, times: Seq<u64>) -> NodeRotator
    decreases times.len(),
{
    if times.len() == 0 {
        r
    } else {
        ticks(r, times.drop_last()).ticked(times.last())
    }
}

/// How many of those ticks switched node.
pub open spec fn switch_count(r: NodeRotator, times: Seq<u64>) -> nat
    decreases times.len(),
{
    if times.len() == 0 {
        0
    } else {
        switch_count(r, times.drop_last()) + if ticks(r, times.drop_last()).switches_at(
            times.last(),
        ) {
            1nat
        } else {
            0nat
        }
    }
}

/// With at least two nodes and no manual input, ticks in time order that
/// all fall before twice the interval after the last switch, and of which
/// the last comes at least one interval after it, switch node exactly once,
/// to the next index modulo the node count.
pub proof fn lemma_rotates_once(r: NodeRotator, t0: u64, times: Seq<u64>)
    requires
        r.wf(),
        r.node_count >= 2,
        r.last_node_switch == Some(t0),
        times.len() > 0,
        forall|i: int, j: int| 0 <= i <= j < times.len() ==> times[i] <= times[j],
        forall|i: int|
            0 <= i < times.len() ==> t0 <= #[trigger] times[i] && times[i] - t0 < 2000
                * r.node_switch_interval,
        times.last() - t0 >= 1000 * r.node_switch_interval,
    ensures
        ticks(r, times).current_node_index == r.next_index(),
        switch_count(r, times) == 1,
{
    lemma_rotation_prefix(r, t0, times);
}

proof fn lemma_rotation_prefix(r: NodeRotator, t0: u64, times: Seq<u64>)
    requires
        r.wf(),
        r.node_count >= 2,
        r.last_node_switch == Some(t0),
        forall|i: int, j: int| 0 <= i <= j < times.len() ==> times[i] <= times[j],
        forall|i: int|
            0 <= i < times.len() ==> t0 <= #[trigger] times[i] && times[i] - t0 < 2000
                * r.node_switch_interval,
    ensures
        ticks(r, times).node_count == r.node_count,
        ticks(r, times).node_switch_interval == r.node_switch_interval,
        times.len() == 0 || times.last() - t0 < 1000 * r.node_switch_interval ==> {
            &&& ticks(r, times).current_node_index == r.current_node_index
            &&& ticks(r, times).last_node_switch == Some(t0)
            &&& switch_count(r, times) == 0
        },
        times.len() > 0 && times.last() - t0 >= 1000 * r.node_switch_interval ==> {
            &&& ticks(r, times).current_node_index == r.next_index()
            &&& ticks(r, times).last_node_switch matches Some(ta) && ta - t0 >= 1000
                * r.node_switch_interval && ta <= times.last()
            &&& switch_count(r, times) == 1
        },
    decreases times.len(),
{
    if times.len() > 0 {
        let init = times.drop_last();
        assert forall|i: int, j: int| 0 <= i <= j < init.len() implies init[i] <= init[j] by {
            assert(init[i] == times[i] && init[j] == times[j]);
        }
        assert forall|i: int| 0 <= i < init.len() implies t0 <= #[trigger] init[i] && init[i] - t0
            < 2000 * r.node_switch_interval by {
            assert(init[i] == times[i]);
        }
        lemma_rotation_prefix(r, t0, init);
        let p = ticks(r, init);
        let t = times.last();
        let iv = r.node_switch_interval as int;
        if init.len() > 0 {
            assert(init.last() == times[init.len() - 1]);
            assert(init.last() <= t);
        }
        if init.len() == 0 || init.last() - t0 < 1000 * iv {
            // not yet switched
            assert(elapsed_ms(t, t0) == t - t0);
            if t - t0 < 1000 * iv {
                assert((t - t0) / 1000 < iv) by (nonlinear_arith)
                    requires
                        t - t0 < 1000 * iv,
                        t - t0 >= 0,
                ;
                assert(!p.switches_at(t));
            } else {
                assert((t - t0) / 1000 >= iv) by (nonlinear_arith)
                    requires
                        t - t0 >= 1000 * iv,
                ;
                assert(p.switches_at(t));
            }
        } else {
            let ta = p.last_node_switch->0;
            assert(t >= ta);
            assert(elapsed_ms(t, ta) == t - ta);
            assert(t - ta < 1000 * iv);
            assert((t - ta) / 1000 < iv) by (nonlinear_arith)
                requires
                    t - ta < 1000 * iv,
                    t - ta >= 0,
            ;
            assert(!p.switches_at(t));
        }
    }
}

} // verus!
