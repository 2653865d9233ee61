//! The Core Lightning REST provider: its metrics payload and the reduction
//! of its responses to one node update.
use vstd::prelude::*;

verus! {

/// Metrics shown for a Core Lightning node.
#[derive(Clone, Debug, Default)]
pub struct CoreLightningWidgetState {
    pub title: String,
    pub alias: String,
    pub num_peers: u32,
    pub num_pending_channels: u32,
    pub num_active_channels: u32,
    pub num_inactive_channels: u32,
    pub total_capacity: u64,
    pub local_balance: u64,
    pub num_pending_htlcs: u32,
}

pub struct CoreLightningView {
    pub title: Seq<char>,
    pub alias: Seq<char>,
    pub num_peers: u32,
    pub num_pending_channels: u32,
    pub num_active_channels: u32,
    pub num_inactive_channels: u32,
    pub total_capacity: u64,
    pub local_balance: u64,
    pub num_pending_htlcs: u32,
}

impl View for CoreLightningWidgetState {
    type V = CoreLightningView;

    open spec fn view(&self) -> CoreLightningView {
        CoreLightningView {
            title: self.title@,
            alias: self.alias@,
            num_peers: self.num_peers,
            num_pending_channels: self.num_pending_channels,
            num_active_channels: self.num_active_channels,
            num_inactive_channels: self.num_inactive_channels,
            total_capacity: self.total_capacity,
            local_balance: self.local_balance,
            num_pending_htlcs: self.num_pending_htlcs,
        }
    }
}

} // verus!

use crate::config::CoreLightningSettings;
use crate::node::{WidgetState, WidgetView};
use crate::text::{add_capped, capped, lemma_capped_add, lemma_sum_by_step, str_eq, sum_by};
use crate::update::{NodeUpdate, NodeUpdateView};
use vstd::string::StringExecFns;

verus! {

/// What the daemon's info request reports.
#[derive(Clone, Debug)]
pub struct ClnInfo {
    pub alias: String,
    pub blockheight: u64,
    pub num_peers: u32,
    pub num_pending_channels: u32,
    pub num_active_channels: u32,
    pub num_inactive_channels: u32,
}

/// One channel as the daemon's peer-channel list reports it.
#[derive(Clone, Debug)]
pub struct ClnChannel {
    pub state: String,
    pub total_msat: u64,
    pub to_us_msat: u64,
    pub num_htlcs: u64,
}

/// The state of a channel in normal operation.
pub open spec fn normal_state() -> Seq<char> {
    seq![
        'C', 'H', 'A', 'N', 'N', 'E', 'L', 'D', '_', 'N', 'O', 'R', 'M', 'A', 'L',
    ]
}

pub open spec fn normal_capacity(c: ClnChannel) -> nat {
    if c.state@ == normal_state() {
        (c.total_msat / 1000) as nat
    } else {
        0
    }
}

pub open spec fn normal_balance(c: ClnChannel) -> nat {
    if c.state@ == normal_state() {
        (c.to_us_msat / 1000) as nat
    } else {
        0
    }
}

pub open spec fn channel_htlcs(c: ClnChannel) -> nat {
    c.num_htlcs as nat
}

/// Totals over a channel list.
#[derive(Clone, Copy, Debug, PartialEq, Eq, Structural)]
pub struct ClnChannelTotals {
    /// Capacity of the channels in normal operation, in satoshis.
    pub total_capacity: u64,
    /// Our balance in the channels in normal operation, in satoshis.
    pub local_balance: u64,
    /// HTLCs on any channel.
    pub num_pending_htlcs: u32,
}

pub open spec fn capped32(x: int) -> u32 {
    if x > u32::MAX {
        u32::MAX
    } else {
        x as u32
    }
}

pub open spec fn cln_totals(chs: Seq<ClnChannel>) -> ClnChannelTotals {
    ClnChannelTotals {
        total_capacity: capped(sum_by(chs, |c: ClnChannel| normal_capacity(c)) as int),
        local_balance: capped(sum_by(chs, |c: ClnChannel| normal_balance(c)) as int),
        num_pending_htlcs: capped32(sum_by(chs, |c: ClnChannel| channel_htlcs(c)) as int),
    }
}

/// Sums, in whole satoshis, the capacity and our balance of the channels in
/// normal operation, and counts the HTLCs of all channels; totals that do not
/// fit stay at the largest value.
pub fn channel_totals(channels: &Vec<ClnChannel>) -> (r: ClnChannelTotals)
    ensures
        r == cln_totals(channels@),
{
    let ghost fc = |c: ClnChannel| normal_capacity(c);
    let ghost fb = |c: ClnChannel| normal_balance(c);
    let ghost fh = |c: ClnChannel| channel_htlcs(c);
    proof {
        reveal_strlit("CHANNELD_NORMAL");
        assert("CHANNELD_NORMAL"@ =~= normal_state());
    }
    let mut capacity: u64 = 0;
    let mut balance: u64 = 0;
    let mut htlcs: u64 = 0;
    let mut i: usize = 0;
    while i < channels.len()
        invariant
            0 <= i <= channels@.len(),
            "CHANNELD_NORMAL"@ == normal_state(),
            fc == (|c: ClnChannel| normal_capacity(c)),
            fb == (|c: ClnChannel| normal_balance(c)),
            fh == (|c: ClnChannel| channel_htlcs(c)),
            capacity == capped(sum_by(channels@.take(i as int), fc) as int),
            balance == capped(sum_by(channels@.take(i as int), fb) as int),
            htlcs == capped(sum_by(channels@.take(i as int), fh) as int),
        decreases channels@.len() - i,
    {
        let c = &channels[i];
        proof {
            let s = channels@;
            lemma_sum_by_step(s, fc, i as int);
            lemma_sum_by_step(s, fb, i as int);
            lemma_sum_by_step(s, fh, i as int);
            lemma_capped_add(sum_by(s.take(i as int), fc) as int, fc(s[i as int]) as int);
            lemma_capped_add(sum_by(s.take(i as int), fb) as int, fb(s[i as int]) as int);
            lemma_capped_add(sum_by(s.take(i as int), fh) as int, fh(s[i as int]) as int);
        }
        if str_eq(c.state.as_str(), "CHANNELD_NORMAL") {
            capacity = add_capped(capacity, c.total_msat / 1000);
            balance = add_capped(balance, c.to_us_msat / 1000);
        } else {
            capacity = add_capped(capacity, 0);
            balance = add_capped(balance, 0);
        }
        htlcs = add_capped(htlcs, c.num_htlcs);
        i = i + 1;
    }
    proof {
        assert(channels@.take(channels@.len() as int) =~= channels@);
    }
    let num_pending_htlcs: u32 = if htlcs > u32::MAX as u64 {
        u32::MAX
    } else {
        htlcs as u32
    };
    ClnChannelTotals { total_capacity: capacity, local_balance: balance, num_pending_htlcs }
}

/// A Core Lightning node reached over REST.
#[derive(Clone, Debug)]
pub struct CoreLightning {
    pub rest_address: String,
    pub rune: String,
}

pub open spec fn cln_title(address: Seq<char>) -> Seq<char> {
    seq!['C', 'o', 'r', 'e', ' ', 'L', 'i', 'g', 'h', 't', 'n', 'i', 'n', 'g', ' ', '(']
        + address + seq![')']
}

pub open spec fn cln_init_message() -> Seq<char> {
    seq![
        'I', 'n', 'i', 't', 'i', 'a', 'l', 'i', 'z', 'i', 'n', 'g', ' ', 'C', 'L', 'N', ' ', 'R',
        'E', 'S', 'T', '.', '.', '.',
    ]
}

/// The metrics a Core Lightning poll reports, before the node's title is kept.
pub open spec fn cln_metrics(info: ClnInfo, chs: Seq<ClnChannel>) -> CoreLightningView {
    let t = cln_totals(chs);
    CoreLightningView {
        title: seq![],
        alias: info.alias@,
        num_peers: info.num_peers,
        num_pending_channels: info.num_pending_channels,
        num_active_channels: info.num_active_channels,
        num_inactive_channels: info.num_inactive_channels,
        total_capacity: t.total_capacity,
        local_balance: t.local_balance,
        num_pending_htlcs: t.num_pending_htlcs,
    }
}

impl CoreLightning {
    pub fn new(settings: &CoreLightningSettings) -> (r: CoreLightning)
        ensures
            r.rest_address@ == settings.rest_address@,
            r.rune@ == settings.rest_rune@,
    {
        CoreLightning {
            rest_address: settings.rest_address.clone(),
            rune: settings.rest_rune.clone(),
        }
    }

    /// The update sent when the provider starts: the node is named after its
    /// address, its REST service is offline and its metrics are zero.
    pub fn init_update(&self) -> (r: NodeUpdate)
        ensures
            r@ == (NodeUpdateView::Init {
                host: self.rest_address@,
                message: cln_init_message(),
                widget: WidgetView::CoreLightning(
                    CoreLightningView {
                        title: cln_title(self.rest_address@),
                        alias: seq![],
                        num_peers: 0,
                        num_pending_channels: 0,
                        num_active_channels: 0,
                        num_inactive_channels: 0,
                        total_capacity: 0,
                        local_balance: 0,
                        num_pending_htlcs: 0,
                    },
                ),
            }),
    {
        proof {
            reveal_strlit("Core Lightning (");
            reveal_strlit(")");
            reveal_strlit("Initializing CLN REST...");
        }
        let mut title = "Core Lightning (".to_owned();
        title.append(self.rest_address.as_str());
        title.append(")");
        let message = "Initializing CLN REST...".to_owned();
        proof {
            assert(title@ =~= cln_title(self.rest_address@));
            assert(message@ =~= cln_init_message());
        }
        NodeUpdate::Init {
            host: self.rest_address.clone(),
            message,
            widget: WidgetState::CoreLightning(
                CoreLightningWidgetState {
                    title,
                    alias: String::new(),
                    num_peers: 0,
                    num_pending_channels: 0,
                    num_active_channels: 0,
                    num_inactive_channels: 0,
                    total_capacity: 0,
                    local_balance: 0,
                    num_pending_htlcs: 0,
                },
            ),
        }
    }

    /// Reduces the outcome of one poll, the info request and the channel
    /// list, to an update: any failed request reports the node offline and
    /// keeps its last metrics; otherwise the info and the channel totals are
    /// reported together.
    pub fn get_node_info(
        info: Result<ClnInfo, String>,
        channels: Result<Vec<ClnChannel>, String>,
        now: u64,
    ) -> (r: NodeUpdate)
        ensures
            r@ == match (info, channels) {
                (Err(m), _) => NodeUpdateView::RestFailed { message: m@ },
                (Ok(_), Err(m)) => NodeUpdateView::RestFailed { message: m@ },
                (Ok(i), Ok(chs)) => NodeUpdateView::ClnPolled {
                    height: i.blockheight,
                    metrics: cln_metrics(i, chs@),
                    now,
                },
            },
    {
        match info {
            Err(m) => NodeUpdate::RestFailed { message: m },
            Ok(i) => match channels {
                Err(m) => NodeUpdate::RestFailed { message: m },
                Ok(chs) => {
                    let t = channel_totals(&chs);
                    let metrics = CoreLightningWidgetState {
                        title: String::new(),
                        alias: i.alias,
                        num_peers: i.num_peers,
                        num_pending_channels: i.num_pending_channels,
                        num_active_channels: i.num_active_channels,
                        num_inactive_channels: i.num_inactive_channels,
                        total_capacity: t.total_capacity,
                        local_balance: t.local_balance,
                        num_pending_htlcs: t.num_pending_htlcs,
                    };
                    proof {
                        assert(metrics@ =~= cln_metrics(i, chs@));
                    }
                    NodeUpdate::ClnPolled { height: i.blockheight, metrics, now }
                },
            },
        }
    }
}

} // verus!
