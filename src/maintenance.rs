//! Decisions of the providers' maintenance loops. The loops themselves wait,
//! call the node and subscribe; at each step they ask these state machines
//! what to do next and report back what happened.
use vstd::prelude::*;

use crate::node::NodeStatus;
use crate::update::{NodeUpdate, NodeUpdateView};

verus! {

/// Period of a maintenance tick, in milliseconds.
pub const POLL_INTERVAL_MS: u64 = 15000;

/// Longest wait between two subscribe attempts, in milliseconds.
pub const BACKOFF_CAP_MS: u64 = 120000;

/// How long the push feed's handshake may take, in milliseconds.
pub const HANDSHAKE_TIMEOUT_MS: u64 = 5000;

/// The wait after `failures` consecutive failed attempts: one tick after
/// the first, doubling with each further failure, up to the cap.
pub open spec fn backoff_delay(failures: nat) -> nat
    decreases failures,
{
    if failures == 0 {
        0
    } else if failures == 1 {
        POLL_INTERVAL_MS as nat
    } else {
        let d = 2 * backoff_delay((failures - 1) as nat);
        if d > BACKOFF_CAP_MS {
            BACKOFF_CAP_MS as nat
        } else {
            d
        }
    }
}

pub proof fn lemma_backoff_bounded(failures: nat)
    ensures
        backoff_delay(failures) <= BACKOFF_CAP_MS,
        failures > 0 ==> backoff_delay(failures) >= POLL_INTERVAL_MS,
    decreases failures,
{
    if failures > 1 {
        lemma_backoff_bounded((failures - 1) as nat);
    }
}

/// The wait never shrinks as failures accumulate, and never exceeds the cap.
pub proof fn lemma_backoff_monotone(a: nat, b: nat)
    requires
        a <= b,
    ensures
        backoff_delay(a) <= backoff_delay(b),
        backoff_delay(b) <= BACKOFF_CAP_MS,
    decreases b - a,
{
    lemma_backoff_bounded(b);
    if a < b {
        lemma_backoff_monotone(a, (b - 1) as nat);
        lemma_backoff_bounded((b - 1) as nat);
        if b >= 2 {
            lemma_backoff_bounded((b - 2) as nat);
            if b - 1 >= 1 {
                lemma_backoff_step((b - 1) as nat);
            }
        }
    }
}

proof fn lemma_backoff_step(f: nat)
    requires
        f >= 1,
    ensures
        backoff_delay(f) <= backoff_delay(f + 1),
    decreases f,
{
    lemma_backoff_bounded(f);
    if f > 1 {
        lemma_backoff_step((f - 1) as nat);
    }
}

/// The wait before the next attempt after `failures` consecutive failures.
pub fn backoff_delay_ms(failures: u32) -> (r: u64)
    ensures
        r == backoff_delay(failures as nat),
        r <= BACKOFF_CAP_MS,
{
    proof {
        lemma_backoff_bounded(failures as nat);
    }
    if failures == 0 {
        return 0;
    }
    let mut d: u64 = POLL_INTERVAL_MS;
    let mut k: u32 = 1;
    while k < failures && d < BACKOFF_CAP_MS
        invariant
            1 <= k <= failures,
            d == backoff_delay(k as nat),
            d <= BACKOFF_CAP_MS,
        decreases failures - k,
    {
        d = if 2 * d > BACKOFF_CAP_MS {
            BACKOFF_CAP_MS
        } else {
            2 * d
        };
        k = k + 1;
    }
    proof {
        if k < failures {
            lemma_backoff_saturated(k as nat, failures as nat);
        }
    }
    d
}

proof fn lemma_backoff_saturated(k: nat, f: nat)
    requires
        1 <= k <= f,
        backoff_delay(k) == BACKOFF_CAP_MS,
    ensures
        backoff_delay(f) == BACKOFF_CAP_MS,
    decreases f - k,
{
    if k < f {
        lemma_backoff_saturated(k, (f - 1) as nat);
        lemma_backoff_bounded(f);
    }
}

/// State of a full node's push feed, as its maintenance loop sees it.
#[derive(Clone, Copy, Debug, PartialEq, Eq, Structural)]
pub enum FeedLink {
    /// No push feed is configured.
    Unconfigured,
    /// Configured, with no live listener.
    Down,
    /// A listener is running.
    Listening,
}

/// What a maintenance tick should do.
#[derive(Clone, Copy, Debug, PartialEq, Eq, Structural)]
pub struct TickPlan {
    /// Leave the loop: cancellation was raised.
    pub stop: bool,
    /// Attempt to subscribe to the push feed, once.
    pub subscribe: bool,
    /// Poll the node.
    pub poll: bool,
}

/// The full-node maintenance loop's state: the push feed's link, the count
/// of consecutive failed subscribe attempts, and when the next attempt is
/// allowed (milliseconds on the loop's monotonic clock).
#[derive(Clone, Copy, Debug, PartialEq, Eq, Structural)]
pub struct FullNodeMaintenance {
    pub feed: FeedLink,
    pub subscribe_failures: u32,
    pub next_subscribe_at: u64,
    pub stopped: bool,
}

impl FullNodeMaintenance {
    /// A loop about to start: a configured feed is tried on the first tick.
    pub fn new(feed_configured: bool) -> (r: FullNodeMaintenance)
        ensures
            r.feed == (if feed_configured {
                FeedLink::Down
            } else {
                FeedLink::Unconfigured
            }),
            r.subscribe_failures == 0,
            r.next_subscribe_at == 0,
            !r.stopped,
    {
        FullNodeMaintenance {
            feed: if feed_configured {
                FeedLink::Down
            } else {
                FeedLink::Unconfigured
            },
            subscribe_failures: 0,
            next_subscribe_at: 0,
            stopped: false,
        }
    }

    /// Plans the tick at time `now`. Once cancellation is seen the loop
    /// stops and does no more work; otherwise it polls the node, and makes
    /// one subscribe attempt when the feed is down and its backoff has run out.
    pub fn on_tick(&mut self, now: u64, cancelled: bool) -> (r: TickPlan)
        ensures
            final(self).stopped == (old(self).stopped || cancelled),
            final(self).feed == old(self).feed,
            final(self).subscribe_failures == old(self).subscribe_failures,
            final(self).next_subscribe_at == old(self).next_subscribe_at,
            r.stop == final(self).stopped,
            r.poll == !final(self).stopped,
            r.subscribe == (!final(self).stopped && old(self).feed == FeedLink::Down && now
                >= old(self).next_subscribe_at),
    {
        if cancelled {
            self.stopped = true;
        }
        if self.stopped {
            return TickPlan { stop: true, subscribe: false, poll: false };
        }
        TickPlan {
            stop: false,
            subscribe: self.feed == FeedLink::Down && now >= self.next_subscribe_at,
            poll: true,
        }
    }

    /// Records the outcome of a subscribe attempt made at `now` and returns
    /// the feed's new service status. A failure pushes the next attempt back
    /// by the backoff for the failures so far; a success clears them.
    pub fn on_subscribe_result(&mut self, subscribed: bool, now: u64) -> (r: NodeUpdate)
        requires
            old(self).feed != FeedLink::Unconfigured,
        ensures
            subscribed ==> final(self).feed == FeedLink::Listening
                && final(self).subscribe_failures == 0
                && r@ == NodeUpdateView::FeedStatus(NodeStatus::Online),
            !subscribed ==> final(self).feed == FeedLink::Down
                && final(self).subscribe_failures == (if old(self).subscribe_failures < u32::MAX {
                old(self).subscribe_failures + 1
            } else {
                old(self).subscribe_failures as int
            })
                && final(self).next_subscribe_at == (if now as int + backoff_delay(
                final(self).subscribe_failures as nat,
            ) <= u64::MAX {
                now as int + backoff_delay(final(self).subscribe_failures as nat)
            } else {
                u64::MAX as int
            })
                && r@ == NodeUpdateView::FeedStatus(NodeStatus::Offline),
            final(self).stopped == old(self).stopped,
    {
        if subscribed {
            self.feed = FeedLink::Listening;
            self.subscribe_failures = 0;
            NodeUpdate::FeedStatus(NodeStatus::Online)
        } else {
            self.feed = FeedLink::Down;
            if self.subscribe_failures < u32::MAX {
                self.subscribe_failures = self.subscribe_failures + 1;
            }
            let delay = backoff_delay_ms(self.subscribe_failures);
            self.next_subscribe_at = if now > u64::MAX - delay {
                u64::MAX
            } else {
                now + delay
            };
            NodeUpdate::FeedStatus(NodeStatus::Offline)
        }
    }

    /// Records that the feed's listener ended; the next tick may subscribe
    /// again. Returns the feed's new service status.
    pub fn on_listener_ended(&mut self) -> (r: NodeUpdate)
        ensures
            final(self).feed == (if old(self).feed == FeedLink::Unconfigured {
                FeedLink::Unconfigured
            } else {
                FeedLink::Down
            }),
            final(self).subscribe_failures == old(self).subscribe_failures,
            final(self).next_subscribe_at == old(self).next_subscribe_at,
            final(self).stopped == old(self).stopped,
            r@ == NodeUpdateView::FeedStatus(NodeStatus::Offline),
    {
        if self.feed != FeedLink::Unconfigured {
            self.feed = FeedLink::Down;
        }
        NodeUpdate::FeedStatus(NodeStatus::Offline)
    }

    /// Records the outcome of an RPC poll. A failed poll means the node is
    /// unreachable, so a running listener is no longer trusted: the result
    /// is true when the caller must tear it down, which also marks the feed
    /// down.
    pub fn on_poll_result(&mut self, polled: bool) -> (teardown: bool)
        ensures
            teardown == (!polled && old(self).feed == FeedLink::Listening),
            final(self).feed == (if teardown {
                FeedLink::Down
            } else {
                old(self).feed
            }),
            final(self).subscribe_failures == old(self).subscribe_failures,
            final(self).next_subscribe_at == old(self).next_subscribe_at,
            final(self).stopped == old(self).stopped,
    {
        if !polled && self.feed == FeedLink::Listening {
            self.feed = FeedLink::Down;
            true
        } else {
            false
        }
    }
}

/// The REST maintenance loop polls at a fixed interval, with no backoff: each
/// tick polls unless cancellation was raised.
pub fn rest_tick(cancelled: bool) -> (r: TickPlan)
    ensures
        r == (TickPlan { stop: cancelled, subscribe: false, poll: !cancelled }),
{
    TickPlan { stop: cancelled, subscribe: false, poll: !cancelled }
}

} // verus!
