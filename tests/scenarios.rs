use btcmon::app::{App, Event, Key, KeyPress, MouseInput};
use btcmon::bitcoin_core::{block_announcement, BitcoinCore, BlockchainInfo};
use btcmon::config::{
    AppConfig, BitcoinCoreSettings, CoreLightningSettings, FeesSettings, LndSettings,
    PriceSettings,
};
use btcmon::core_lightning::{ClnChannel, ClnInfo, CoreLightning};
use btcmon::lnd::{LndChannel, LndInfo, LndNode};
use btcmon::node::{NodeState, NodeStatus, ServiceName, WidgetState};
use btcmon::rotator::NodeRotator;
use btcmon::supervisor::TaskSupervisor;
use btcmon::update::NodeUpdate;

fn config(interval: &str) -> AppConfig {
    AppConfig {
        tick_rate: "250".to_string(),
        node_switch_interval: interval.to_string(),
        streamer_mode: false,
        price: PriceSettings { enabled: true, currency: "USD".to_string(), big_text: true },
        fees: FeesSettings { enabled: true },
        bitcoin_core: BitcoinCoreSettings::default(),
        core_lightning: CoreLightningSettings::default(),
        lnd: LndSettings::default(),
        nodes: vec![],
    }
}

fn full_node() -> NodeState {
    let core = BitcoinCore::new(&BitcoinCoreSettings {
        host: "node.local".to_string(),
        rpc_port: "8332".to_string(),
        rpc_user: "user".to_string(),
        rpc_password: "pass".to_string(),
        zmq_port: "28332".to_string(),
    });
    NodeState::new().apply(core.init_update())
}

fn lnd_node() -> NodeState {
    let lnd = LndNode::new(&LndSettings {
        rest_address: "https://lnd.local:8080".to_string(),
        macaroon_hex: "00".to_string(),
    });
    NodeState::new().apply(lnd.init_update())
}

fn lnd_info(height: u64, synced: bool) -> LndInfo {
    LndInfo {
        block_height: height,
        alias: "alice".to_string(),
        num_active_channels: 2,
        num_pending_channels: 0,
        num_inactive_channels: 1,
        num_peers: 3,
        synced_to_chain: synced,
        synced_to_graph: synced,
    }
}

fn lnd_channel(active: bool, capacity: &str, local: &str, remote: &str, htlcs: u64) -> LndChannel {
    LndChannel {
        active,
        capacity: capacity.to_string(),
        local_balance: local.to_string(),
        remote_balance: remote.to_string(),
        num_pending_htlcs: htlcs,
    }
}

fn polled(blocks: u64, headers: u64, hash: &str, now: u64) -> NodeUpdate {
    BitcoinCore::get_blockchain_info(
        Ok(BlockchainInfo { blocks, headers, best_block_hash: hash.to_string() }),
        now,
    )
}

fn feed_status(s: &NodeState) -> Option<NodeStatus> {
    s.services.iter().find(|e| e.name == ServiceName::PushFeed).map(|e| e.status)
}

fn service(s: &NodeState, name: ServiceName) -> Option<NodeStatus> {
    s.services.iter().find(|e| e.name == name).map(|e| e.status)
}

#[test]
fn full_node_poll_then_failure_forces_feed_offline() {
    let s = full_node();
    let s = s.apply(NodeUpdate::FeedStatus(NodeStatus::Online));
    let s = s.apply(polled(100, 100, "00aa", 1));
    assert_eq!(s.status, NodeStatus::Online);
    assert_eq!(s.height, 100);
    assert_eq!(feed_status(&s), Some(NodeStatus::Online));
    let s = s.apply(BitcoinCore::get_blockchain_info(Err("connection refused".to_string()), 2));
    assert_eq!(s.status, NodeStatus::Offline);
    assert_eq!(service(&s, ServiceName::Rpc), Some(NodeStatus::Offline));
    assert_eq!(feed_status(&s), Some(NodeStatus::Offline));
    assert_eq!(s.height, 100);
    assert_eq!(s.message, "connection refused");
}

#[test]
fn full_node_header_lag_is_synchronizing() {
    let s = full_node().apply(polled(90, 100, "00aa", 1));
    assert_eq!(s.status, NodeStatus::Synchronizing);
    assert_eq!(service(&s, ServiceName::Rpc), Some(NodeStatus::Synchronizing));
    match &s.widget_state {
        WidgetState::BitcoinCore(w) => {
            assert_eq!(w.headers, 100);
            assert_eq!(w.last_hash, "00aa");
            assert_eq!(w.title, "Bitcoin Core");
        }
        _ => panic!("full node metrics expected"),
    }
}

#[test]
fn lightning_not_synced_is_synchronizing() {
    let s = lnd_node();
    let u = LndNode::get_node_info(Ok(lnd_info(800000, false)), Ok(vec![]), 1);
    let s = s.apply(u);
    assert_eq!(s.status, NodeStatus::Synchronizing);
    assert_eq!(s.height, 800000);
    assert_eq!(service(&s, ServiceName::Rest), Some(NodeStatus::Synchronizing));
    let u = LndNode::get_node_info(Ok(lnd_info(800001, true)), Ok(vec![]), 2);
    let s = s.apply(u);
    assert_eq!(s.status, NodeStatus::Online);
}

#[test]
fn rest_failure_keeps_last_capacity_and_balance() {
    let s = lnd_node();
    let chans = vec![lnd_channel(true, "500000", "250000", "250000", 0)];
    let s = s.apply(LndNode::get_node_info(Ok(lnd_info(100, true)), Ok(chans), 1));
    let s = s.apply(LndNode::get_node_info(Err("timeout".to_string()), Ok(vec![]), 2));
    assert_eq!(s.status, NodeStatus::Offline);
    assert_eq!(service(&s, ServiceName::Rest), Some(NodeStatus::Offline));
    match &s.widget_state {
        WidgetState::Lnd(w) => {
            assert_eq!(w.capacity, 500000);
            assert_eq!(w.local_balance, 250000);
            assert_eq!(w.title, "LND (https://lnd.local:8080)");
        }
        _ => panic!("lnd metrics expected"),
    }
}

#[test]
fn channel_list_failure_also_reports_offline() {
    let s = lnd_node();
    let chans = vec![lnd_channel(true, "500000", "250000", "250000", 0)];
    let s = s.apply(LndNode::get_node_info(Ok(lnd_info(100, true)), Ok(chans), 1));
    let s = s.apply(LndNode::get_node_info(Ok(lnd_info(101, true)), Err("500".to_string()), 2));
    assert_eq!(s.status, NodeStatus::Offline);
    assert_eq!(s.height, 100);
}

#[test]
fn manual_next_resets_timer_to_full_interval() {
    let mut r = NodeRotator::new(2, "5");
    r.tick(0);
    r.tick(1000);
    assert_eq!(r.seconds_until_rotation, 4);
    r.next(1000);
    assert_eq!(r.current_node_index, 1);
    assert_eq!(r.seconds_until_rotation, 5);
    r.tick(1500);
    assert_eq!(r.current_node_index, 1);
    assert_eq!(r.seconds_until_rotation, 5);
}

#[test]
fn rotation_advances_once_after_interval() {
    let mut r = NodeRotator::new(2, "5");
    let mut switches = 0;
    let mut t: u64 = 0;
    while t <= 5100 {
        let before = r.current_node_index;
        r.tick(t);
        if r.current_node_index != before {
            switches += 1;
        }
        t += 100;
    }
    assert_eq!(switches, 1);
    assert_eq!(r.current_node_index, 1);
}

#[test]
fn rotation_wraps_at_node_count() {
    let mut r = NodeRotator::new(3, "1");
    r.tick(0);
    r.tick(1000);
    r.tick(2000);
    assert_eq!(r.current_node_index, 2);
    r.tick(3000);
    assert_eq!(r.current_node_index, 0);
}

#[test]
fn rotator_interval_text() {
    assert_eq!(NodeRotator::new(2, "x").node_switch_interval, 5);
    assert_eq!(NodeRotator::new(2, "0").node_switch_interval, 1);
    assert_eq!(NodeRotator::new(2, "12").node_switch_interval, 12);
    let mut r = NodeRotator::new(2, "1");
    r.decrease_interval(0);
    assert_eq!(r.node_switch_interval, 1);
    r.increase_interval(0);
    assert_eq!(r.node_switch_interval, 2);
    assert_eq!(r.seconds_until_rotation, 2);
}

#[test]
fn single_node_never_rotates() {
    let mut r = NodeRotator::new(1, "1");
    r.tick(0);
    r.tick(10_000);
    r.next(10_000);
    assert_eq!(r.current_node_index, 0);
    assert_eq!(r.last_node_switch, None);
}

#[test]
fn lower_poll_height_is_ignored() {
    let s = full_node().apply(polled(100, 100, "aa", 1));
    let s = s.apply(polled(90, 100, "bb", 2));
    assert_eq!(s.height, 100);
    match &s.widget_state {
        WidgetState::BitcoinCore(w) => assert_eq!(w.last_hash, "aa"),
        _ => panic!("full node metrics expected"),
    }
}

#[test]
fn repeated_block_announcement_counts_once() {
    let s = full_node().apply(polled(100, 100, "aa", 1));
    let s = s.apply(NodeUpdate::NewBlock { hash: "bb".to_string(), now: 5 });
    assert_eq!(s.height, 101);
    assert_eq!(s.last_hash_instant, Some(5));
    let s = s.apply(NodeUpdate::NewBlock { hash: "bb".to_string(), now: 6 });
    assert_eq!(s.height, 101);
    assert_eq!(s.last_hash_instant, Some(5));
    let s = s.apply(NodeUpdate::NewBlock { hash: "cc".to_string(), now: 7 });
    assert_eq!(s.height, 102);
}

#[test]
fn feed_events_leave_overall_status() {
    let s = full_node().apply(polled(100, 100, "aa", 1));
    let s = s.apply(NodeUpdate::FeedStatus(NodeStatus::Offline));
    assert_eq!(s.status, NodeStatus::Online);
    assert_eq!(feed_status(&s), Some(NodeStatus::Offline));
}

#[test]
fn block_announcement_decodes_hash_in_hex() {
    let frames = vec![b"hashblock".to_vec(), vec![0xab, 0x01, 0xff], vec![0, 0, 0, 0]];
    match block_announcement(&frames, 9) {
        Some(NodeUpdate::NewBlock { hash, now }) => {
            assert_eq!(hash, "ab01ff");
            assert_eq!(now, 9);
        }
        _ => panic!("block announcement expected"),
    }
    let other = vec![b"hashtx".to_vec(), vec![0xab]];
    assert!(block_announcement(&other, 9).is_none());
    let short = vec![b"hashblock".to_vec()];
    assert!(block_announcement(&short, 9).is_none());
}

#[test]
fn task_supervisor_shutdown_drains() {
    let mut sup = TaskSupervisor::new();
    let a = sup.spawn().unwrap();
    let b = sup.spawn().unwrap();
    sup.begin_shutdown();
    assert!(sup.is_cancelled());
    assert!(sup.spawn().is_none());
    assert!(!sup.is_drained());
    sup.task_finished(a);
    assert!(sup.is_terminated(a));
    assert!(!sup.is_terminated(b));
    sup.task_finished(b);
    assert!(sup.is_shut_down());
    assert!(sup.is_terminated(a) && sup.is_terminated(b));
}

#[test]
fn core_lightning_totals_count_normal_channels() {
    let cln = CoreLightning::new(&CoreLightningSettings {
        rest_address: "https://cln:9835".to_string(),
        rest_rune: "r".to_string(),
    });
    let s = NodeState::new().apply(cln.init_update());
    let info = ClnInfo {
        alias: "bob".to_string(),
        blockheight: 700,
        num_peers: 2,
        num_pending_channels: 1,
        num_active_channels: 2,
        num_inactive_channels: 0,
    };
    let chans = vec![
        ClnChannel { state: "CHANNELD_NORMAL".to_string(), total_msat: 1_000_999, to_us_msat: 400_000, num_htlcs: 1 },
        ClnChannel { state: "CHANNELD_AWAITING_LOCKIN".to_string(), total_msat: 5_000_000, to_us_msat: 5_000_000, num_htlcs: 2 },
        ClnChannel { state: "CHANNELD_NORMAL".to_string(), total_msat: 2_000_000, to_us_msat: 1_000_000, num_htlcs: 0 },
    ];
    let s = s.apply(CoreLightning::get_node_info(Ok(info), Ok(chans), 3));
    assert_eq!(s.status, NodeStatus::Online);
    assert_eq!(s.height, 700);
    match &s.widget_state {
        WidgetState::CoreLightning(w) => {
            assert_eq!(w.total_capacity, 3000);
            assert_eq!(w.local_balance, 1400);
            assert_eq!(w.num_pending_htlcs, 3);
            assert_eq!(w.alias, "bob");
            assert_eq!(w.title, "Core Lightning (https://cln:9835)");
        }
        _ => panic!("core lightning metrics expected"),
    }
}

#[test]
fn lnd_totals_skip_inactive_and_bad_amounts() {
    let chans = vec![
        lnd_channel(true, "1000", "600", "400", 2),
        lnd_channel(false, "5000", "5000", "0", 1),
        lnd_channel(true, "abc", "+10", "18446744073709551615", 0),
    ];
    let t = btcmon::lnd::channel_totals(&chans);
    assert_eq!(t.capacity, 1000);
    assert_eq!(t.local_balance, 610);
    assert_eq!(t.remote_balance, u64::MAX);
    assert_eq!(t.num_pending_htlcs, 3);
}

#[test]
fn app_applies_events_in_order() {
    let widgets = vec![full_node().widget_state, lnd_node().widget_state];
    let mut app = App::new(widgets, &config("5"), 80, 24);
    assert_eq!(app.state.node_states.len(), 2);
    app.handle_event(Event::NodeUpdate(0, polled(100, 100, "aa", 1)), 1);
    assert_eq!(app.state.node_states[0].height, 100);
    app.handle_event(Event::NodeUpdate(7, polled(200, 200, "bb", 1)), 1);
    assert_eq!(app.state.node_states[1].height, 0);
    app.handle_event(Event::Tick, 0);
    app.handle_event(Event::Tick, 5000);
    assert_eq!(app.rotator.current_node_index, 1);
    assert_eq!(app.state.node_states[0].current_node_index, 1);
    assert_eq!(app.state.node_states[1].total_nodes, 2);
    app.handle_event(Event::Key(KeyPress { key: Key::Left, ctrl: false }), 6000);
    assert_eq!(app.rotator.current_node_index, 0);
    app.handle_event(Event::Mouse(MouseInput { pressed: true, column: 70, row: 23 }), 6100);
    assert_eq!(app.rotator.current_node_index, 1);
    app.handle_event(Event::Mouse(MouseInput { pressed: true, column: 10, row: 23 }), 6200);
    assert_eq!(app.rotator.current_node_index, 1);
    app.handle_event(Event::Key(KeyPress { key: Key::Char('c'), ctrl: false }), 6300);
    assert!(app.running);
    app.handle_event(Event::Key(KeyPress { key: Key::Char('c'), ctrl: true }), 6400);
    assert!(!app.running);
}

#[test]
fn app_quits_on_q_and_esc() {
    let mut app = App::new(vec![], &config("5"), 80, 24);
    app.handle_event(Event::Key(KeyPress { key: Key::Char('q'), ctrl: false }), 0);
    assert!(!app.running);
    let mut app = App::new(vec![], &config("5"), 80, 24);
    app.handle_event(Event::Key(KeyPress { key: Key::Esc, ctrl: false }), 0);
    assert!(!app.running);
}

#[test]
fn app_counter_saturates() {
    let mut app = App::new(vec![], &config("5"), 80, 24);
    app.decrement_counter();
    assert_eq!(app.state.counter, 0);
    for _ in 0..300 {
        app.increment_counter();
    }
    assert_eq!(app.state.counter, 255);
}

#[test]
fn service_line_rotates_every_three_seconds() {
    let mut s = full_node();
    assert_eq!(s.displayed_service().unwrap().name, ServiceName::Rpc);
    s.tick(0);
    s.tick(2999);
    assert_eq!(s.displayed_service().unwrap().name, ServiceName::Rpc);
    s.tick(3000);
    assert_eq!(s.displayed_service().unwrap().name, ServiceName::PushFeed);
    s.tick(6000);
    assert_eq!(s.displayed_service().unwrap().name, ServiceName::Rpc);
    assert!(NodeState::new().displayed_service().is_none());
}
