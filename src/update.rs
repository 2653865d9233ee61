//! The update protocol: background producers describe a change to one node's
//! state as a `NodeUpdate`, and the single owner of the state applies it.
use vstd::prelude::*;

use crate::bitcoin_core::{BitcoinCoreView, BitcoinCoreWidgetState};
use crate::core_lightning::{CoreLightningView, CoreLightningWidgetState};
use crate::lnd::{LndView, LndWidgetState};
use crate::node::{
    get_service, lemma_with_service, service_status, services_unique, set_service, with_service,
    NodeState, NodeStateView, NodeStatus, ServiceEntry, ServiceName, WidgetState, WidgetView,
};

verus! {

/// A change to one node's state, carrying only the values it sets.
#[derive(Clone, Debug)]
pub enum NodeUpdate {
    /// A provider starts: it names the node and its metrics payload, and
    /// every service of that kind starts offline.
    Init { host: String, message: String, widget: WidgetState },
    /// An RPC poll is about to be made.
    RpcConnecting,
    /// An RPC poll answered.
    RpcPolled { blocks: u64, headers: u64, best_hash: String, now: u64 },
    /// An RPC poll failed.
    RpcFailed { message: String },
    /// The push feed's own connection changed.
    FeedStatus(NodeStatus),
    /// The push feed announced a block.
    NewBlock { hash: String, now: u64 },
    /// A Core Lightning poll answered.
    ClnPolled { height: u64, metrics: CoreLightningWidgetState, now: u64 },
    /// An LND poll answered.
    LndPolled { height: u64, metrics: LndWidgetState, now: u64 },
    /// A REST request failed.
    RestFailed { message: String },
}

pub enum NodeUpdateView {
    Init { host: Seq<char>, message: Seq<char>, widget: WidgetView },
    RpcConnecting,
    RpcPolled { blocks: u64, headers: u64, best_hash: Seq<char>, now: u64 },
    RpcFailed { message: Seq<char> },
    FeedStatus(NodeStatus),
    NewBlock { hash: Seq<char>, now: u64 },
    ClnPolled { height: u64, metrics: CoreLightningView, now: u64 },
    LndPolled { height: u64, metrics: LndView, now: u64 },
    RestFailed { message: Seq<char> },
}

impl View for NodeUpdate {
    type V = NodeUpdateView;

    open spec fn view(&self) -> NodeUpdateView {
        match self {
            NodeUpdate::Init { host, message, widget } => NodeUpdateView::Init {
                host: host@,
                message: message@,
                widget: widget@,
            },
            NodeUpdate::RpcConnecting => NodeUpdateView::RpcConnecting,
            NodeUpdate::RpcPolled { blocks, headers, best_hash, now } => NodeUpdateView::RpcPolled {
                blocks: *blocks,
                headers: *headers,
                best_hash: best_hash@,
                now: *now,
            },
            NodeUpdate::RpcFailed { message } => NodeUpdateView::RpcFailed { message: message@ },
            NodeUpdate::FeedStatus(s) => NodeUpdateView::FeedStatus(*s),
            NodeUpdate::NewBlock { hash, now } => NodeUpdateView::NewBlock {
                hash: hash@,
                now: *now,
            },
            NodeUpdate::ClnPolled { height, metrics, now } => NodeUpdateView::ClnPolled {
                height: *height,
                metrics: metrics@,
                now: *now,
            },
            NodeUpdate::LndPolled { height, metrics, now } => NodeUpdateView::LndPolled {
                height: *height,
                metrics: metrics@,
                now: *now,
            },
            NodeUpdate::RestFailed { message } => NodeUpdateView::RestFailed {
                message: message@,
            },
        }
    }
}

impl NodeUpdateView {
    /// A successful poll, and the height it reports.
    pub open spec fn poll_height(self) -> Option<u64> {
        match self {
            NodeUpdateView::RpcPolled { blocks, .. } => Some(blocks),
            NodeUpdateView::ClnPolled { height, .. } => Some(height),
            NodeUpdateView::LndPolled { height, .. } => Some(height),
            _ => None,
        }
    }
}

pub open spec fn bitcoin_core_title() -> Seq<char> {
    seq!['B', 'i', 't', 'c', 'o', 'i', 'n', ' ', 'C', 'o', 'r', 'e']
}

/// The services a node of this kind has, all offline.
pub open spec fn initial_services(w: WidgetView) -> Seq<ServiceEntry> {
    match w {
        WidgetView::Default => seq![],
        WidgetView::BitcoinCore(_) => seq![
            ServiceEntry { name: ServiceName::Rpc, status: NodeStatus::Offline },
            ServiceEntry { name: ServiceName::PushFeed, status: NodeStatus::Offline },
        ],
        _ => seq![ServiceEntry { name: ServiceName::Rest, status: NodeStatus::Offline }],
    }
}

/// A new block is flagged when a poll raises a height that was already known.
pub open spec fn block_seen_at(s: NodeStateView, height: u64, now: u64) -> Option<u64> {
    if s.height > 0 && s.height < height {
        Some(now)
    } else {
        s.last_hash_instant
    }
}

/// The state after applying `u` to `s`.
pub open spec fn applied(s: NodeStateView, u: NodeUpdateView) -> NodeStateView {
    match u {
        NodeUpdateView::Init { host, message, widget } => NodeStateView {
            host,
            message,
            status: NodeStatus::Offline,
            services: initial_services(widget),
            service_display_index: 0,
            widget,
            ..s
        },
        NodeUpdateView::RpcConnecting => if s.status == NodeStatus::Offline {
            NodeStateView {
                status: NodeStatus::Connecting,
                services: with_service(s.services, ServiceName::Rpc, NodeStatus::Connecting),
                ..s
            }
        } else {
            s
        },
        NodeUpdateView::RpcPolled { blocks, headers, best_hash, now } => if blocks < s.height {
            s
        } else {
            let status = if blocks < headers {
                NodeStatus::Synchronizing
            } else {
                NodeStatus::Online
            };
            let title = match s.widget {
                WidgetView::BitcoinCore(w) => w.title,
                _ => bitcoin_core_title(),
            };
            NodeStateView {
                last_hash_instant: if service_status(s.services, ServiceName::PushFeed) != Some(
                    NodeStatus::Online,
                ) {
                    block_seen_at(s, blocks, now)
                } else {
                    s.last_hash_instant
                },
                status,
                message: seq![],
                height: blocks,
                services: with_service(s.services, ServiceName::Rpc, status),
                widget: WidgetView::BitcoinCore(
                    BitcoinCoreView { title, headers, last_hash: best_hash },
                ),
                ..s
            }
        },
        NodeUpdateView::RpcFailed { message } => NodeStateView {
            status: NodeStatus::Offline,
            message,
            services: with_service(
                with_service(s.services, ServiceName::Rpc, NodeStatus::Offline),
                ServiceName::PushFeed,
                NodeStatus::Offline,
            ),
            ..s
        },
        NodeUpdateView::FeedStatus(st) => NodeStateView {
            services: with_service(s.services, ServiceName::PushFeed, st),
            ..s
        },
        NodeUpdateView::NewBlock { hash, now } => match s.widget {
            WidgetView::BitcoinCore(w) => if w.last_hash != hash {
                NodeStateView {
                    height: if s.height < u64::MAX {
                        (s.height + 1) as u64
                    } else {
                        s.height
                    },
                    last_hash_instant: Some(now),
                    widget: WidgetView::BitcoinCore(BitcoinCoreView { last_hash: hash, ..w }),
                    ..s
                }
            } else {
                s
            },
            _ => s,
        },
        NodeUpdateView::ClnPolled { height, metrics, now } => if height < s.height {
            s
        } else {
            let title = match s.widget {
                WidgetView::CoreLightning(w) => w.title,
                _ => metrics.title,
            };
            NodeStateView {
                last_hash_instant: block_seen_at(s, height, now),
                status: NodeStatus::Online,
                message: seq![],
                height,
                services: with_service(s.services, ServiceName::Rest, NodeStatus::Online),
                widget: WidgetView::CoreLightning(CoreLightningView { title, ..metrics }),
                ..s
            }
        },
        NodeUpdateView::LndPolled { height, metrics, now } => if height < s.height {
            s
        } else {
            let status = if metrics.synced_to_chain && metrics.synced_to_graph {
                NodeStatus::Online
            } else {
                NodeStatus::Synchronizing
            };
            let title = match s.widget {
                WidgetView::Lnd(w) => w.title,
                _ => metrics.title,
            };
            NodeStateView {
                last_hash_instant: block_seen_at(s, height, now),
                status,
                message: seq![],
                height,
                services: with_service(s.services, ServiceName::Rest, status),
                widget: WidgetView::Lnd(LndView { title, ..metrics }),
                ..s
            }
        },
        NodeUpdateView::RestFailed { message } => NodeStateView {
            status: NodeStatus::Offline,
            message,
            services: with_service(s.services, ServiceName::Rest, NodeStatus::Offline),
            ..s
        },
    }
}

/// The state after applying each update of `us` in turn.
pub open spec fn applied_all(s: NodeStateView, us: Seq<NodeUpdateView>) -> NodeStateView
    decreases us.len(),
{
    if us.len() == 0 {
        s
    } else {
        applied(applied_all(s, us.drop_last()), us.last())
    }
}

pub proof fn lemma_applied_wf(s: NodeStateView, u: NodeUpdateView)
    requires
        s.wf(),
    ensures
        applied(s, u).wf(),
{
    let r = applied(s, u);
    match u {
        NodeUpdateView::Init { widget, .. } => {
            let svcs = initial_services(widget);
            assert(services_unique(svcs));
        },
        NodeUpdateView::RpcConnecting => {
            lemma_with_service(s.services, ServiceName::Rpc, NodeStatus::Connecting);
        },
        NodeUpdateView::RpcPolled { blocks, headers, .. } => {
            let st = if blocks < headers {
                NodeStatus::Synchronizing
            } else {
                NodeStatus::Online
            };
            lemma_with_service(s.services, ServiceName::Rpc, st);
        },
        NodeUpdateView::RpcFailed { .. } => {
            let t = with_service(s.services, ServiceName::Rpc, NodeStatus::Offline);
            lemma_with_service(s.services, ServiceName::Rpc, NodeStatus::Offline);
            lemma_with_service(t, ServiceName::PushFeed, NodeStatus::Offline);
        },
        NodeUpdateView::FeedStatus(st) => {
            lemma_with_service(s.services, ServiceName::PushFeed, st);
        },
        NodeUpdateView::NewBlock { .. } => {},
        NodeUpdateView::ClnPolled { .. } => {
            lemma_with_service(s.services, ServiceName::Rest, NodeStatus::Online);
        },
        NodeUpdateView::LndPolled { metrics, .. } => {
            let st = if metrics.synced_to_chain && metrics.synced_to_graph {
                NodeStatus::Online
            } else {
                NodeStatus::Synchronizing
            };
            lemma_with_service(s.services, ServiceName::Rest, st);
        },
        NodeUpdateView::RestFailed { .. } => {
            lemma_with_service(s.services, ServiceName::Rest, NodeStatus::Offline);
        },
    }
}

/// No update lowers a node's height; in particular a successful poll that
/// reports a lower height than the one held is ignored altogether.
pub proof fn lemma_update_keeps_height(s: NodeStateView, u: NodeUpdateView)
    ensures
        applied(s, u).height >= s.height,
        u.poll_height() matches Some(h) && h < s.height ==> applied(s, u) == s,
{
}

/// Over any sequence of updates, in particular of successful polls, the
/// reported height never decreases: each prefix leaves a height no greater
/// than any longer prefix.
pub proof fn lemma_height_monotone(s: NodeStateView, us: Seq<NodeUpdateView>)
    ensures
        forall|i: int, j: int|
            0 <= i <= j <= us.len() ==> (#[trigger] applied_all(s, us.take(i))).height
                <= (#[trigger] applied_all(s, us.take(j))).height,
    decreases us.len(),
{
    if us.len() > 0 {
        let init = us.drop_last();
        lemma_height_monotone(s, init);
        assert forall|i: int| 0 <= i <= init.len() implies us.take(i) == init.take(i) by {
            assert(us.take(i) =~= init.take(i));
        }
        assert(us.take(us.len() as int) =~= us);
        assert(init.take(init.len() as int) =~= init);
        lemma_update_keeps_height(applied_all(s, init), us.last());
        assert forall|i: int, j: int| 0 <= i <= j <= us.len() implies (#[trigger] applied_all(
            s,
            us.take(i),
        )).height <= (#[trigger] applied_all(s, us.take(j))).height by {
            if j == us.len() && i < j {
                assert(applied_all(s, us.take(i)).height <= applied_all(
                    s,
                    init.take(init.len() as int),
                ).height);
            }
        }
    } else {
        assert forall|i: int, j: int| 0 <= i <= j <= us.len() implies (#[trigger] applied_all(
            s,
            us.take(i),
        )).height <= (#[trigger] applied_all(s, us.take(j))).height by {
            assert(us.take(i) =~= us.take(j));
        }
    }
}

/// Delivering the same block announcement twice has the effect of
/// delivering it once, whenever the second copy arrives: the height moves
/// at most once per distinct hash.
pub proof fn lemma_new_block_idempotent(s: NodeStateView, hash: Seq<char>, first: u64, second: u64)
    ensures
        applied(
            applied(s, NodeUpdateView::NewBlock { hash, now: first }),
            NodeUpdateView::NewBlock { hash, now: second },
        ) == applied(s, NodeUpdateView::NewBlock { hash, now: first }),
        applied(s, NodeUpdateView::NewBlock { hash, now: first }).height <= s.height + 1,
{
}

impl NodeState {
    /// Applies `update`, returning the node's new state.
    pub fn apply(self, update: NodeUpdate) -> (r: NodeState)
        requires
            self.wf(),
        ensures
            r@ == applied(self@, update@),
            r.wf(),
    {
        proof {
            lemma_applied_wf(self@, update@);
        }
        let mut s = self;
        match update {
            NodeUpdate::Init { host, message, widget } => {
                let mut services: Vec<ServiceEntry> = Vec::new();
                match &widget {
                    WidgetState::Default(_) => {},
                    WidgetState::BitcoinCore(_) => {
                        services.push(
                            ServiceEntry { name: ServiceName::Rpc, status: NodeStatus::Offline },
                        );
                        services.push(
                            ServiceEntry {
                                name: ServiceName::PushFeed,
                                status: NodeStatus::Offline,
                            },
                        );
                    },
                    _ => {
                        services.push(
                            ServiceEntry { name: ServiceName::Rest, status: NodeStatus::Offline },
                        );
                    },
                }
                proof {
                    assert(services@ =~= initial_services(widget@));
                }
                s.host = host;
                s.message = message;
                s.status = NodeStatus::Offline;
                s.services = services;
                s.service_display_index = 0;
                s.widget_state = widget;
            },
            NodeUpdate::RpcConnecting => {
                if s.status == NodeStatus::Offline {
                    s.status = NodeStatus::Connecting;
                    set_service(&mut s.services, ServiceName::Rpc, NodeStatus::Connecting);
                }
            },
            NodeUpdate::RpcPolled { blocks, headers, best_hash, now } => {
                if blocks >= s.height {
                    let status = if blocks < headers {
                        NodeStatus::Synchronizing
                    } else {
                        NodeStatus::Online
                    };
                    if get_service(&s.services, ServiceName::PushFeed) != Some(
                        NodeStatus::Online,
                    ) && s.height > 0 && s.height < blocks {
                        s.last_hash_instant = Some(now);
                    }
                    let title = match s.widget_state {
                        WidgetState::BitcoinCore(w) => w.title,
                        _ => {
                            proof {
                                reveal_strlit("Bitcoin Core");
                            }
                            let t = "Bitcoin Core".to_owned();
                            proof {
                                assert(t@ =~= bitcoin_core_title());
                            }
                            t
                        },
                    };
                    s.widget_state = WidgetState::BitcoinCore(
                        BitcoinCoreWidgetState { title, headers, last_hash: best_hash },
                    );
                    s.status = status;
                    s.message = String::new();
                    proof {
                        assert(s.message@ =~= seq![]);
                    }
                    s.height = blocks;
                    set_service(&mut s.services, ServiceName::Rpc, status);
                }
            },
            NodeUpdate::RpcFailed { message } => {
                s.status = NodeStatus::Offline;
                s.message = message;
                set_service(&mut s.services, ServiceName::Rpc, NodeStatus::Offline);
                set_service(&mut s.services, ServiceName::PushFeed, NodeStatus::Offline);
            },
            NodeUpdate::FeedStatus(status) => {
                set_service(&mut s.services, ServiceName::PushFeed, status);
            },
            NodeUpdate::NewBlock { hash, now } => {
                match s.widget_state {
                    WidgetState::BitcoinCore(w) => {
                        if w.last_hash != hash {
                            if s.height < u64::MAX {
                                s.height = s.height + 1;
                            }
                            s.last_hash_instant = Some(now);
                            s.widget_state = WidgetState::BitcoinCore(
                                BitcoinCoreWidgetState {
                                    title: w.title,
                                    headers: w.headers,
                                    last_hash: hash,
                                },
                            );
                        } else {
                            s.widget_state = WidgetState::BitcoinCore(w);
                        }
                    },
                    other => {
                        s.widget_state = other;
                    },
                }
            },
            NodeUpdate::ClnPolled { height, metrics, now } => {
                if height >= s.height {
                    if s.height > 0 && s.height < height {
                        s.last_hash_instant = Some(now);
                    }
                    let title = match s.widget_state {
                        WidgetState::CoreLightning(w) => w.title,
                        _ => metrics.title,
                    };
                    s.widget_state = WidgetState::CoreLightning(
                        CoreLightningWidgetState {
                            title,
                            alias: metrics.alias,
                            num_peers: metrics.num_peers,
                            num_pending_channels: metrics.num_pending_channels,
                            num_active_channels: metrics.num_active_channels,
                            num_inactive_channels: metrics.num_inactive_channels,
                            total_capacity: metrics.total_capacity,
                            local_balance: metrics.local_balance,
                            num_pending_htlcs: metrics.num_pending_htlcs,
                        },
                    );
                    s.status = NodeStatus::Online;
                    s.message = String::new();
                    s.height = height;
                    set_service(&mut s.services, ServiceName::Rest, NodeStatus::Online);
                }
            },
            NodeUpdate::LndPolled { height, metrics, now } => {
                if height >= s.height {
                    let status = if metrics.synced_to_chain && metrics.synced_to_graph {
                        NodeStatus::Online
                    } else {
                        NodeStatus::Synchronizing
                    };
                    if s.height > 0 && s.height < height {
                        s.last_hash_instant = Some(now);
                    }
                    let title = match s.widget_state {
                        WidgetState::Lnd(w) => w.title,
                        _ => metrics.title,
                    };
                    s.widget_state = WidgetState::Lnd(
                        LndWidgetState {
                            title,
                            alias: metrics.alias,
                            num_peers: metrics.num_peers,
                            num_pending_channels: metrics.num_pending_channels,
                            num_active_channels: metrics.num_active_channels,
                            num_inactive_channels: metrics.num_inactive_channels,
                            capacity: metrics.capacity,
                            local_balance: metrics.local_balance,
                            remote_balance: metrics.remote_balance,
                            synced_to_chain: metrics.synced_to_chain,
                            synced_to_graph: metrics.synced_to_graph,
                            num_pending_htlcs: metrics.num_pending_htlcs,
                        },
                    );
                    s.status = status;
                    s.message = String::new();
                    s.height = height;
                    set_service(&mut s.services, ServiceName::Rest, status);
                }
            },
            NodeUpdate::RestFailed { message } => {
                s.status = NodeStatus::Offline;
                s.message = message;
                set_service(&mut s.services, ServiceName::Rest, NodeStatus::Offline);
            },
        }
        s
    }
}

} // verus!
