//! The LND REST provider: its metrics payload and the reduction of its
//! responses to one node update.
use vstd::prelude::*;

verus! {

/// Metrics shown for an LND node.
#[derive(Clone, Debug, Default)]
pub struct LndWidgetState {
    pub title: String,
    pub alias: String,
    pub num_peers: u32,
    pub num_pending_channels: u64,
    pub num_active_channels: u64,
    pub num_inactive_channels: u64,
    pub capacity: u64,
    pub local_balance: u64,
    pub remote_balance: u64,
    pub synced_to_chain: bool,
    pub synced_to_graph: bool,
    pub num_pending_htlcs: u64,
}

pub struct LndView {
    pub title: Seq<char>,
    pub alias: Seq<char>,
    pub num_peers: u32,
    pub num_pending_channels: u64,
    pub num_active_channels: u64,
    pub num_inactive_channels: u64,
    pub capacity: u64,
    pub local_balance: u64,
    pub remote_balance: u64,
    pub synced_to_chain: bool,
    pub synced_to_graph: bool,
    pub num_pending_htlcs: u64,
}

impl View for LndWidgetState {
    type V = LndView;

    open spec fn view(&self) -> LndView {
        LndView {
            title: self.title@,
            alias: self.alias@,
            num_peers: self.num_peers,
            num_pending_channels: self.num_pending_channels,
            num_active_channels: self.num_active_channels,
            num_inactive_channels: self.num_inactive_channels,
            capacity: self.capacity,
            local_balance: self.local_balance,
            remote_balance: self.remote_balance,
            synced_to_chain: self.synced_to_chain,
            synced_to_graph: self.synced_to_graph,
            num_pending_htlcs: self.num_pending_htlcs,
        }
    }
}

} // verus!

use crate::config::LndSettings;
use crate::node::{WidgetState, WidgetView};
use crate::text::{
    add_capped, amount_value, capped, lemma_capped_add, lemma_sum_by_step, parse_u64, sum_by,
};
use crate::update::{NodeUpdate, NodeUpdateView};
use vstd::string::StringExecFns;

verus! {

/// What the daemon's info request reports.
#[derive(Clone, Debug)]
pub struct LndInfo {
    pub block_height: u64,
    pub alias: String,
    pub num_active_channels: u64,
    pub num_pending_channels: u64,
    pub num_inactive_channels: u64,
    pub num_peers: u32,
    pub synced_to_chain: bool,
    pub synced_to_graph: bool,
}

/// One channel as the daemon's channel list reports it; amounts are
/// decimal strings.
#[derive(Clone, Debug)]
pub struct LndChannel {
    pub active: bool,
    pub capacity: String,
    pub local_balance: String,
    pub remote_balance: String,
    pub num_pending_htlcs: u64,
}

pub open spec fn active_capacity(c: LndChannel) -> nat {
    if c.active {
        amount_value(c.capacity@) as nat
    } else {
        0
    }
}

pub open spec fn active_local(c: LndChannel) -> nat {
    if c.active {
        amount_value(c.local_balance@) as nat
    } else {
        0
    }
}

pub open spec fn active_remote(c: LndChannel) -> nat {
    if c.active {
        amount_value(c.remote_balance@) as nat
    } else {
        0
    }
}

pub open spec fn pending_htlcs(c: LndChannel) -> nat {
    c.num_pending_htlcs as nat
}

/// Totals over a channel list.
#[derive(Clone, Copy, Debug, PartialEq, Eq, Structural)]
pub struct LndChannelTotals {
    /// Capacity of the active channels.
    pub capacity: u64,
    /// Local balance of the active channels.
    pub local_balance: u64,
    /// Remote balance of the active channels.
    pub remote_balance: u64,
    /// HTLCs pending on any channel.
    pub num_pending_htlcs: u64,
}

pub open spec fn lnd_totals(chs: Seq<LndChannel>) -> LndChannelTotals {
    LndChannelTotals {
        capacity: capped(sum_by(chs, |c: LndChannel| active_capacity(c)) as int),
        local_balance: capped(sum_by(chs, |c: LndChannel| active_local(c)) as int),
        remote_balance: capped(sum_by(chs, |c: LndChannel| active_remote(c)) as int),
        num_pending_htlcs: capped(sum_by(chs, |c: LndChannel| pending_htlcs(c)) as int),
    }
}

/// Sums the amounts of the active channels and the HTLCs of all channels;
/// an amount that is no decimal numeral counts as zero, and a total that
/// does not fit in 64 bits stays at the largest value.
pub fn channel_totals(channels: &Vec<LndChannel>) -> (r: LndChannelTotals)
    ensures
        r == lnd_totals(channels@),
{
    let ghost fc = |c: LndChannel| active_capacity(c);
    let ghost fl = |c: LndChannel| active_local(c);
    let ghost fr = |c: LndChannel| active_remote(c);
    let ghost fh = |c: LndChannel| pending_htlcs(c);
    let mut t = LndChannelTotals {
        capacity: 0,
        local_balance: 0,
        remote_balance: 0,
        num_pending_htlcs: 0,
    };
    let mut i: usize = 0;
    while i < channels.len()
        invariant
            0 <= i <= channels@.len(),
            fc == (|c: LndChannel| active_capacity(c)),
            fl == (|c: LndChannel| active_local(c)),
            fr == (|c: LndChannel| active_remote(c)),
            fh == (|c: LndChannel| pending_htlcs(c)),
            t.capacity == capped(sum_by(channels@.take(i as int), fc) as int),
            t.local_balance == capped(sum_by(channels@.take(i as int), fl) as int),
            t.remote_balance == capped(sum_by(channels@.take(i as int), fr) as int),
            t.num_pending_htlcs == capped(sum_by(channels@.take(i as int), fh) as int),
        decreases channels@.len() - i,
    {
        let c = &channels[i];
        proof {
            let s = channels@;
            lemma_sum_by_step(s, fc, i as int);
            lemma_sum_by_step(s, fl, i as int);
            lemma_sum_by_step(s, fr, i as int);
            lemma_sum_by_step(s, fh, i as int);
            lemma_capped_add(sum_by(s.take(i as int), fc) as int, fc(s[i as int]) as int);
            lemma_capped_add(sum_by(s.take(i as int), fl) as int, fl(s[i as int]) as int);
            lemma_capped_add(sum_by(s.take(i as int), fr) as int, fr(s[i as int]) as int);
            lemma_capped_add(sum_by(s.take(i as int), fh) as int, fh(s[i as int]) as int);
        }
        if c.active {
            let cap = match parse_u64(c.capacity.as_str()) {
                Some(v) => v,
                None => 0,
            };
            let local = match parse_u64(c.local_balance.as_str()) {
                Some(v) => v,
                None => 0,
            };
            let remote = match parse_u64(c.remote_balance.as_str()) {
                Some(v) => v,
                None => 0,
            };
            assert(cap == amount_value(c.capacity@));
            assert(*c == channels@[i as int]);
            assert(fc(channels@[i as int]) == active_capacity(channels@[i as int]));
            assert(active_capacity(channels@[i as int]) == amount_value(c.capacity@));
            assert(cap == fc(channels@[i as int]));
            assert(local == fl(channels@[i as int]));
            assert(remote == fr(channels@[i as int]));
            t.capacity = add_capped(t.capacity, cap);
            t.local_balance = add_capped(t.local_balance, local);
            t.remote_balance = add_capped(t.remote_balance, remote);
        } else {
            t.capacity = add_capped(t.capacity, 0);
            t.local_balance = add_capped(t.local_balance, 0);
            t.remote_balance = add_capped(t.remote_balance, 0);
        }
        t.num_pending_htlcs = add_capped(t.num_pending_htlcs, c.num_pending_htlcs);
        i = i + 1;
    }
    proof {
        assert(channels@.take(channels@.len() as int) =~= channels@);
    }
    t
}

/// An LND node reached over REST.
#[derive(Clone, Debug)]
pub struct LndNode {
    pub address: String,
    pub macaroon: String,
}

pub open spec fn lnd_title(address: Seq<char>) -> Seq<char> {
    seq!['L', 'N', 'D', ' ', '('] + address + seq![')']
}

pub open spec fn lnd_init_message() -> Seq<char> {
    seq![
        'I', 'n', 'i', 't', 'i', 'a', 'l', 'i', 'z', 'i', 'n', 'g', ' ', 'L', 'N', 'D', ' ', 'R',
        'E', 'S', 'T', '.', '.', '.',
    ]
}

/// The metrics an LND poll reports, before the node's title is kept.
pub open spec fn lnd_metrics(info: LndInfo, chs: Seq<LndChannel>) -> LndView {
    let t = lnd_totals(chs);
    LndView {
        title: seq![],
        alias: info.alias@,
        num_peers: info.num_peers,
        num_pending_channels: info.num_pending_channels,
        num_active_channels: info.num_active_channels,
        num_inactive_channels: info.num_inactive_channels,
        capacity: t.capacity,
        local_balance: t.local_balance,
        remote_balance: t.remote_balance,
        synced_to_chain: info.synced_to_chain,
        synced_to_graph: info.synced_to_graph,
        num_pending_htlcs: t.num_pending_htlcs,
    }
}

impl LndNode {
    pub fn new(settings: &LndSettings) -> (r: LndNode)
        ensures
            r.address@ == settings.rest_address@,
            r.macaroon@ == settings.macaroon_hex@,
    {
        LndNode { address: settings.rest_address.clone(), macaroon: settings.macaroon_hex.clone() }
    }

    /// The update sent when the provider starts: the node is named after its
    /// address, its REST service is offline and its metrics are zero.
    pub fn init_update(&self) -> (r: NodeUpdate)
        ensures
            r@ == (NodeUpdateView::Init {
                host: self.address@,
                message: lnd_init_message(),
                widget: WidgetView::Lnd(
                    LndView {
                        title: lnd_title(self.address@),
                        alias: seq![],
                        num_peers: 0,
                        num_pending_channels: 0,
                        num_active_channels: 0,
                        num_inactive_channels: 0,
                        capacity: 0,
                        local_balance: 0,
                        remote_balance: 0,
                        synced_to_chain: false,
                        synced_to_graph: false,
                        num_pending_htlcs: 0,
                    },
                ),
            }),
    {
        proof {
            reveal_strlit("LND (");
            reveal_strlit(")");
            reveal_strlit("Initializing LND REST...");
        }
        let mut title = "LND (".to_owned();
        title.append(self.address.as_str());
        title.append(")");
        let message = "Initializing LND REST...".to_owned();
        proof {
            assert(title@ =~= lnd_title(self.address@));
            assert(message@ =~= lnd_init_message());
        }
        NodeUpdate::Init {
            host: self.address.clone(),
            message,
            widget: WidgetState::Lnd(
                LndWidgetState {
                    title,
                    alias: String::new(),
                    num_peers: 0,
                    num_pending_channels: 0,
                    num_active_channels: 0,
                    num_inactive_channels: 0,
                    capacity: 0,
                    local_balance: 0,
                    remote_balance: 0,
                    synced_to_chain: false,
                    synced_to_graph: false,
                    num_pending_htlcs: 0,
                },
            ),
        }
    }

    /// Reduces the outcome of one poll, the info request and the channel
    /// list, to an update: any failed request reports the node offline and
    /// keeps its last metrics; otherwise the info and the channel totals are
    /// reported together.
    pub fn get_node_info(
        info: Result<LndInfo, String>,
        channels: Result<Vec<LndChannel>, String>,
        now: u64,
    ) -> (r: NodeUpdate)
        ensures
            r@ == match (info, channels) {
                (Err(m), _) => NodeUpdateView::RestFailed { message: m@ },
                (Ok(_), Err(m)) => NodeUpdateView::RestFailed { message: m@ },
                (Ok(i), Ok(chs)) => NodeUpdateView::LndPolled {
                    height: i.block_height,
                    metrics: lnd_metrics(i, chs@),
                    now,
                },
            },
    {
        match info {
            Err(m) => NodeUpdate::RestFailed { message: m },
            Ok(i) => match channels {
                Err(m) => NodeUpdate::RestFailed { message: m },
                Ok(chs) => {
                    let t = channel_totals(&chs);
                    let metrics = LndWidgetState {
                        title: String::new(),
                        alias: i.alias,
                        num_peers: i.num_peers,
                        num_pending_channels: i.num_pending_channels,
                        num_active_channels: i.num_active_channels,
                        num_inactive_channels: i.num_inactive_channels,
                        capacity: t.capacity,
                        local_balance: t.local_balance,
                        remote_balance: t.remote_balance,
                        synced_to_chain: i.synced_to_chain,
                        synced_to_graph: i.synced_to_graph,
                        num_pending_htlcs: t.num_pending_htlcs,
                    };
                    proof {
                        assert(metrics@ =~= lnd_metrics(i, chs@));
                    }
                    NodeUpdate::LndPolled { height: i.block_height, metrics, now }
                },
            },
        }
    }
}

} // verus!
