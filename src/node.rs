//! Per-node state: overall status, chain height, the per-service status map,
//! the provider-specific metrics payload and the display rotation fields.
use vstd::prelude::*;

use crate::bitcoin_core::{BitcoinCoreView, BitcoinCoreWidgetState};
use crate::core_lightning::{CoreLightningView, CoreLightningWidgetState};
use crate::lnd::{LndView, LndWidgetState};

verus! {

/// Connection status of a node or of one of its services.
#[derive(Clone, Copy, Debug, PartialEq, Eq, Structural)]
pub enum NodeStatus {
    Online,
    Offline,
    Connecting,
    Synchronizing,
}

impl NodeStatus {
    /// The status a node starts in.
    pub fn new() -> (r: NodeStatus)
        ensures
            r == NodeStatus::Offline,
    {
        NodeStatus::Offline
    }

    /// The name shown for this status.
    pub fn as_str(&self) -> (r: &'static str)
        ensures
            r@ == status_name(*self),
    {
        proof {
            reveal_strlit("Online");
            reveal_strlit("Offline");
            reveal_strlit("Connecting");
            reveal_strlit("Synchronizing");
        }
        match self {
            NodeStatus::Online => "Online",
            NodeStatus::Offline => "Offline",
            NodeStatus::Connecting => "Connecting",
            NodeStatus::Synchronizing => "Synchronizing",
        }
    }
}

pub open spec fn status_name(s: NodeStatus) -> Seq<char> {
    match s {
        NodeStatus::Online => seq!['O', 'n', 'l', 'i', 'n', 'e'],
        NodeStatus::Offline => seq!['O', 'f', 'f', 'l', 'i', 'n', 'e'],
        NodeStatus::Connecting => seq!['C', 'o', 'n', 'n', 'e', 'c', 't', 'i', 'n', 'g'],
        NodeStatus::Synchronizing => seq![
            'S', 'y', 'n', 'c', 'h', 'r', 'o', 'n', 'i', 'z', 'i', 'n', 'g',
        ],
    }
}

/// A service of a node whose status is tracked on its own.
#[derive(Clone, Copy, Debug, PartialEq, Eq, Structural)]
pub enum ServiceName {
    /// The full node's request/response interface.
    Rpc,
    /// The full node's block-announcement feed.
    PushFeed,
    /// A Lightning daemon's REST interface.
    Rest,
}

impl ServiceName {
    /// The label shown for the service.
    pub fn as_str(&self) -> (r: &'static str)
        ensures
            r@ == service_label(*self),
    {
        proof {
            reveal_strlit("RPC");
            reveal_strlit("ZMQ");
            reveal_strlit("REST");
        }
        match self {
            ServiceName::Rpc => "RPC",
            ServiceName::PushFeed => "ZMQ",
            ServiceName::Rest => "REST",
        }
    }
}

pub open spec fn service_label(s: ServiceName) -> Seq<char> {
    match s {
        ServiceName::Rpc => seq!['R', 'P', 'C'],
        ServiceName::PushFeed => seq!['Z', 'M', 'Q'],
        ServiceName::Rest => seq!['R', 'E', 'S', 'T'],
    }
}

/// One entry of a node's service map.
#[derive(Clone, Copy, Debug, PartialEq, Eq, Structural)]
pub struct ServiceEntry {
    pub name: ServiceName,
    pub status: NodeStatus,
}

/// Position of the first entry named `name`, if any.
pub open spec fn service_position(svcs: Seq<ServiceEntry>, name: ServiceName) -> Option<int>
    decreases svcs.len(),
{
    if svcs.len() == 0 {
        None
    } else {
        match service_position(svcs.drop_last(), name) {
            Some(i) => Some(i),
            None => if svcs.last().name == name {
                Some(svcs.len() - 1)
            } else {
                None
            },
        }
    }
}

/// Status of the service `name`, if the map holds it.
pub open spec fn service_status(svcs: Seq<ServiceEntry>, name: ServiceName) -> Option<NodeStatus> {
    match service_position(svcs, name) {
        Some(i) => Some(svcs[i].status),
        None => None,
    }
}

/// The map with `name` set to `status`: updated in place when present,
/// appended otherwise, so keys keep their order once inserted.
pub open spec fn with_service(svcs: Seq<ServiceEntry>, name: ServiceName, status: NodeStatus) -> Seq<
    ServiceEntry,
> {
    match service_position(svcs, name) {
        Some(i) => svcs.update(i, ServiceEntry { name, status }),
        None => svcs.push(ServiceEntry { name, status }),
    }
}

/// No service name occurs twice.
pub open spec fn services_unique(svcs: Seq<ServiceEntry>) -> bool {
    forall|i: int, j: int|
        0 <= i < j < svcs.len() ==> #[trigger] svcs[i].name != #[trigger] svcs[j].name
}

pub proof fn lemma_service_position(svcs: Seq<ServiceEntry>, name: ServiceName)
    ensures
        match service_position(svcs, name) {
            Some(i) => 0 <= i < svcs.len() && svcs[i].name == name && forall|j: int|
                0 <= j < i ==> #[trigger] svcs[j].name != name,
            None => forall|j: int| 0 <= j < svcs.len() ==> #[trigger] svcs[j].name != name,
        },
    decreases svcs.len(),
{
    if svcs.len() > 0 {
        let init = svcs.drop_last();
        lemma_service_position(init, name);
        assert forall|j: int| 0 <= j < init.len() implies init[j] == svcs[j] by {}
        match service_position(init, name) {
            Some(i) => {
                assert(svcs[i] == init[i]);
            },
            None => {
                if svcs.last().name != name {
                    assert forall|j: int| 0 <= j < svcs.len() implies #[trigger] svcs[j].name
                        != name by {
                        if j < init.len() {
                            assert(init[j].name != name);
                        }
                    }
                }
            },
        }
    }
}

pub proof fn lemma_with_service(svcs: Seq<ServiceEntry>, name: ServiceName, status: NodeStatus)
    requires
        services_unique(svcs),
    ensures
        services_unique(with_service(svcs, name, status)),
        service_status(with_service(svcs, name, status), name) == Some(status),
        forall|other: ServiceName|
            other != name ==> service_status(with_service(svcs, name, status), other)
                == service_status(svcs, other),
        with_service(svcs, name, status).len() >= svcs.len(),
        forall|i: int|
            0 <= i < svcs.len() ==> (#[trigger] with_service(svcs, name, status)[i]).name
                == svcs[i].name,
{
    let r = with_service(svcs, name, status);
    lemma_service_position(svcs, name);
    lemma_service_position(r, name);
    match service_position(svcs, name) {
        Some(i) => {
            assert(r[i].name == name);
        },
        None => {
            assert(r[svcs.len() as int].name == name);
        },
    }
    assert forall|other: ServiceName| other != name implies service_status(r, other)
        == service_status(svcs, other) by {
        lemma_service_position(svcs, other);
        lemma_service_position(r, other);
        match service_position(svcs, other) {
            Some(i) => {
                assert(r[i].name == other);
            },
            None => {},
        }
        match service_position(r, other) {
            Some(i) => {
                assert(svcs[i].name == other);
            },
            None => {},
        }
    }
}

/// Sets the status of `name` in the map, appending the service when absent.
pub fn set_service(svcs: &mut Vec<ServiceEntry>, name: ServiceName, status: NodeStatus)
    ensures
        final(svcs)@ == with_service(old(svcs)@, name, status),
{
    let mut i: usize = 0;
    let n = svcs.len();
    while i < n
        invariant
            n == svcs@.len(),
            svcs@ == old(svcs)@,
            0 <= i <= n,
            forall|j: int| 0 <= j < i ==> #[trigger] svcs@[j].name != name,
        decreases n - i,
    {
        if svcs[i].name == name {
            proof {
                lemma_service_position(svcs@, name);
            }
            svcs.set(i, ServiceEntry { name, status });
            return;
        }
        i = i + 1;
    }
    proof {
        lemma_service_position(svcs@, name);
    }
    svcs.push(ServiceEntry { name, status });
}

/// Looks up the status of `name`.
pub fn get_service(svcs: &Vec<ServiceEntry>, name: ServiceName) -> (r: Option<NodeStatus>)
    ensures
        r == service_status(svcs@, name),
{
    let mut i: usize = 0;
    while i < svcs.len()
        invariant
            0 <= i <= svcs@.len(),
            forall|j: int| 0 <= j < i ==> #[trigger] svcs@[j].name != name,
        decreases svcs@.len() - i,
    {
        if svcs[i].name == name {
            proof {
                lemma_service_position(svcs@, name);
            }
            return Some(svcs[i].status);
        }
        i = i + 1;
    }
    proof {
        lemma_service_position(svcs@, name);
    }
    None
}

/// Metrics payload of a node that no provider has filled yet.
#[derive(Clone, Copy, Debug, PartialEq, Eq, Structural)]
pub struct DefaultWidgetState;

/// Provider-specific metrics payload of a node, one variant per backend kind.
#[derive(Clone, Debug)]
pub enum WidgetState {
    Default(DefaultWidgetState),
    BitcoinCore(BitcoinCoreWidgetState),
    CoreLightning(CoreLightningWidgetState),
    Lnd(LndWidgetState),
}

pub enum WidgetView {
    Default,
    BitcoinCore(BitcoinCoreView),
    CoreLightning(CoreLightningView),
    Lnd(LndView),
}

impl View for WidgetState {
    type V = WidgetView;

    open spec fn view(&self) -> WidgetView {
        match self {
            WidgetState::Default(_) => WidgetView::Default,
            WidgetState::BitcoinCore(w) => WidgetView::BitcoinCore(w@),
            WidgetState::CoreLightning(w) => WidgetView::CoreLightning(w@),
            WidgetState::Lnd(w) => WidgetView::Lnd(w@),
        }
    }
}

/// How long each service stays in a node's status line, in milliseconds.
pub const SERVICE_SWITCH_MS: u64 = 3000;

/// Everything known of one configured node. Timestamps are milliseconds on
/// the caller's monotonic clock.
#[derive(Clone, Debug)]
pub struct NodeState {
    pub host: String,
    pub message: String,
    pub status: NodeStatus,
    pub height: u64,
    /// When a new block was last seen.
    pub last_hash_instant: Option<u64>,
    pub services: Vec<ServiceEntry>,
    /// Which service the status line shows.
    pub service_display_index: usize,
    pub last_service_switch: Option<u64>,
    pub widget_state: WidgetState,
    /// Copies of the rotator's fields, for display.
    pub current_node_index: usize,
    pub total_nodes: usize,
    pub seconds_until_rotation: u64,
}

pub struct NodeStateView {
    pub host: Seq<char>,
    pub message: Seq<char>,
    pub status: NodeStatus,
    pub height: u64,
    pub last_hash_instant: Option<u64>,
    pub services: Seq<ServiceEntry>,
    pub service_display_index: usize,
    pub last_service_switch: Option<u64>,
    pub widget: WidgetView,
    pub current_node_index: usize,
    pub total_nodes: usize,
    pub seconds_until_rotation: u64,
}

impl View for NodeState {
    type V = NodeStateView;

    open spec fn view(&self) -> NodeStateView {
        NodeStateView {
            host: self.host@,
            message: self.message@,
            status: self.status,
            height: self.height,
            last_hash_instant: self.last_hash_instant,
            services: self.services@,
            service_display_index: self.service_display_index,
            last_service_switch: self.last_service_switch,
            widget: self.widget_state@,
            current_node_index: self.current_node_index,
            total_nodes: self.total_nodes,
            seconds_until_rotation: self.seconds_until_rotation,
        }
    }
}

/// The service whose status decides a node's overall status.
pub open spec fn deciding_service(w: WidgetView) -> Option<ServiceName> {
    match w {
        WidgetView::Default => None,
        WidgetView::BitcoinCore(_) => Some(ServiceName::Rpc),
        WidgetView::CoreLightning(_) => Some(ServiceName::Rest),
        WidgetView::Lnd(_) => Some(ServiceName::Rest),
    }
}

impl NodeStateView {
    /// The overall status agrees with the deciding service: `Online` or
    /// `Synchronizing` only when that service reports the same, and `Online`
    /// for a full node only when no header lag is known.
    pub open spec fn status_consistent(self) -> bool {
        (self.status == NodeStatus::Online || self.status == NodeStatus::Synchronizing) ==> {
            &&& deciding_service(self.widget) is Some
            &&& service_status(self.services, deciding_service(self.widget)->0) == Some(
                self.status,
            )
            &&& (self.status == NodeStatus::Online && self.widget is BitcoinCore)
                ==> self.widget->BitcoinCore_0.headers <= self.height
        }
    }

    pub open spec fn wf(self) -> bool {
        &&& services_unique(self.services)
        &&& self.status_consistent()
    }

    /// The service shown in the status line.
    pub open spec fn displayed_service(self) -> Option<ServiceEntry> {
        if self.services.len() == 0 {
            None
        } else {
            Some(self.services[self.service_display_index as int % self.services.len() as int])
        }
    }

    /// The status line moves on to the next service once the current one
    /// has been shown for the full switch period.
    pub open spec fn ticked(self, now: u64) -> NodeStateView {
        if self.services.len() == 0 {
            self
        } else {
            match self.last_service_switch {
                None => NodeStateView { last_service_switch: Some(now), ..self },
                Some(t) => if now >= t && now - t >= SERVICE_SWITCH_MS {
                    NodeStateView {
                        service_display_index: ((self.service_display_index as int
                            % self.services.len() as int + 1) % self.services.len() as int) as usize,
                        last_service_switch: Some(now),
                        ..self
                    }
                } else {
                    self
                },
            }
        }
    }
}

impl NodeState {
    /// A node no provider has reported on yet: offline, height zero, no
    /// services.
    pub fn new() -> (r: NodeState)
        ensures
            r.wf(),
            r@.host.len() == 0,
            r@.message.len() == 0,
            r.status == NodeStatus::Offline,
            r.height == 0,
            r.last_hash_instant is None,
            r@.services.len() == 0,
            r.service_display_index == 0,
            r.last_service_switch is None,
            r@.widget is Default,
            r.current_node_index == 0,
            r.total_nodes == 0,
            r.seconds_until_rotation == 0,
    {
        NodeState {
            host: String::new(),
            message: String::new(),
            status: NodeStatus::Offline,
            height: 0,
            last_hash_instant: None,
            services: Vec::new(),
            service_display_index: 0,
            last_service_switch: None,
            widget_state: WidgetState::Default(DefaultWidgetState),
            current_node_index: 0,
            total_nodes: 0,
            seconds_until_rotation: 0,
        }
    }

    pub open spec fn wf(&self) -> bool {
        self@.wf()
    }

    /// Records a switch of the displayed service.
    pub fn set_last_service_switch(&mut self, instant: Option<u64>, service_display_index: usize)
        ensures
            final(self)@ == (NodeStateView {
                last_service_switch: instant,
                service_display_index,
                ..old(self)@
            }),
    {
        self.last_service_switch = instant;
        self.service_display_index = service_display_index;
    }

    /// Advances the status line's service rotation at time `now`.
    pub fn tick(&mut self, now: u64)
        ensures
            final(self)@ == old(self)@.ticked(now),
    {
        let n = self.services.len();
        if n == 0 {
            return;
        }
        match self.last_service_switch {
            None => {
                self.last_service_switch = Some(now);
            },
            Some(t) => {
                if now >= t && now - t >= SERVICE_SWITCH_MS {
                    let next = (self.service_display_index % n + 1) % n;
                    self.set_last_service_switch(Some(now), next);
                }
            },
        }
    }

    /// The service shown in the status line, if the node has any.
    pub fn displayed_service(&self) -> (r: Option<ServiceEntry>)
        ensures
            r == self@.displayed_service(),
    {
        let n = self.services.len();
        if n == 0 {
            None
        } else {
            Some(self.services[self.service_display_index % n])
        }
    }
}

} // verus!
