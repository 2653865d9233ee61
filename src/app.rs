//! The single consumer of the event channel. It owns every node's state and
//! is the only place where state changes: timer ticks, user input, price and
//! fee results and node updates are all applied here, one at a time.
use vstd::prelude::*;

use crate::config::AppConfig;
use crate::fees::FeesState;
use crate::node::{NodeState, NodeStateView, NodeStatus, WidgetState};
use crate::price::PriceState;
use crate::rotator::{configured_interval, NodeRotator};
use crate::update::{applied, NodeUpdate};

verus! {

/// A key, as far as the monitor tells keys apart.
#[derive(Clone, Copy, Debug, PartialEq, Eq, Structural)]
pub enum Key {
    Esc,
    Char(char),
    Left,
    Right,
    Up,
    Down,
    Other,
}

/// A key press, with whether Control was held.
#[derive(Clone, Copy, Debug, PartialEq, Eq, Structural)]
pub struct KeyPress {
    pub key: Key,
    pub ctrl: bool,
}

/// A mouse event: whether a button went down, and where.
#[derive(Clone, Copy, Debug, PartialEq, Eq, Structural)]
pub struct MouseInput {
    pub pressed: bool,
    pub column: u16,
    pub row: u16,
}

/// What a key press asks for.
#[derive(Clone, Copy, Debug, PartialEq, Eq, Structural)]
pub enum KeyAction {
    Quit,
    NextNode,
    PreviousNode,
    LongerInterval,
    ShorterInterval,
    Nothing,
}

pub open spec fn key_action(k: KeyPress) -> KeyAction {
    match k.key {
        Key::Esc => KeyAction::Quit,
        Key::Char(c) => if c == 'q' {
            KeyAction::Quit
        } else if (c == 'c' || c == 'C') && k.ctrl {
            KeyAction::Quit
        } else if c == 'n' {
            KeyAction::NextNode
        } else {
            KeyAction::Nothing
        },
        Key::Right => KeyAction::NextNode,
        Key::Left => KeyAction::PreviousNode,
        Key::Up => KeyAction::LongerInterval,
        Key::Down => KeyAction::ShorterInterval,
        Key::Other => KeyAction::Nothing,
    }
}

impl KeyPress {
    /// Esc, `q` and Control-C quit; Right and `n` show the next node, Left
    /// the previous one; Up and Down lengthen and shorten the interval.
    pub fn action(&self) -> (r: KeyAction)
        ensures
            r == key_action(*self),
    {
        match self.key {
            Key::Esc => KeyAction::Quit,
            Key::Char(c) => if c == 'q' {
                KeyAction::Quit
            } else if (c == 'c' || c == 'C') && self.ctrl {
                KeyAction::Quit
            } else if c == 'n' {
                KeyAction::NextNode
            } else {
                KeyAction::Nothing
            },
            Key::Right => KeyAction::NextNode,
            Key::Left => KeyAction::PreviousNode,
            Key::Up => KeyAction::LongerInterval,
            Key::Down => KeyAction::ShorterInterval,
            Key::Other => KeyAction::Nothing,
        }
    }
}

/// Width of the node indicator at the right end of the status line.
pub const INDICATOR_WIDTH: u16 = 25;

/// A press on the node indicator: the right end of the bottom line.
pub open spec fn in_status_region(m: MouseInput, width: u16, height: u16) -> bool {
    m.pressed && m.row + 1 >= height && m.column + INDICATOR_WIDTH >= width
}

/// Everything that reaches the consumer, in arrival order.
#[derive(Clone, Debug)]
pub enum Event {
    Tick,
    Key(KeyPress),
    Mouse(MouseInput),
    Resize(u16, u16),
    PriceUpdate(PriceState),
    FeeUpdate(FeesState),
    NodeUpdate(usize, NodeUpdate),
}

/// The state the renderer reads.
#[derive(Clone, Debug)]
pub struct AppState {
    pub counter: u8,
    pub price: PriceState,
    pub fees: FeesState,
    /// One slot per configured node, in configuration order.
    pub node_states: Vec<NodeState>,
}

/// The consumer: the application's state and the node rotation.
#[derive(Clone, Debug)]
pub struct App {
    pub running: bool,
    pub rotator: NodeRotator,
    pub state: AppState,
    /// Size of the terminal, in cells.
    pub width: u16,
    pub height: u16,
}

pub open spec fn views(v: Seq<NodeState>) -> Seq<NodeStateView> {
    v.map_values(|s: NodeState| s@)
}

/// A node's state as shown after a tick at `now`: its service rotation
/// advanced, and the rotator's position copied in.
pub open spec fn shown(s: NodeStateView, r: NodeRotator, now: u64) -> NodeStateView {
    NodeStateView {
        current_node_index: r.current_node_index,
        total_nodes: r.node_count,
        seconds_until_rotation: r.seconds_until_rotation,
        ..s.ticked(now)
    }
}

/// A node no provider has reported on, with the given metrics payload.
pub open spec fn fresh(w: WidgetState, total_nodes: usize, seconds: u64) -> NodeStateView {
    NodeStateView {
        host: seq![],
        message: seq![],
        status: NodeStatus::Offline,
        height: 0,
        last_hash_instant: None,
        services: seq![],
        service_display_index: 0,
        last_service_switch: None,
        widget: w@,
        current_node_index: 0,
        total_nodes,
        seconds_until_rotation: seconds,
    }
}

impl App {
    pub open spec fn wf(&self) -> bool {
        &&& self.rotator.wf()
        &&& self.rotator.node_count == self.state.node_states@.len()
        &&& forall|i: int|
            0 <= i < self.state.node_states@.len() ==> (#[trigger] self.state.node_states@[i]).wf()
    }

    /// An application with one node per metrics payload, in that order,
    /// none reported on yet, showing the first.
    pub fn new(widget_states: Vec<WidgetState>, config: &AppConfig, width: u16, height: u16) -> (r: App)
        ensures
            r.wf(),
            r.running,
            r.rotator.current_node_index == 0,
            r.rotator.node_count == widget_states@.len(),
            r.rotator.last_node_switch is None,
            r.rotator.node_switch_interval == configured_interval(config.node_switch_interval@),
            r.rotator.seconds_until_rotation == r.rotator.node_switch_interval,
            r.state.counter == 0,
            r.state.price.last_price_in_currency is None,
            views(r.state.node_states@) == widget_states@.map_values(
                |w: WidgetState| fresh(w, widget_states@.len() as usize, r.rotator.node_switch_interval),
            ),
            r.width == width,
            r.height == height,
    {
        let n = widget_states.len();
        let rotator = NodeRotator::new(n, config.node_switch_interval.as_str());
        let mut rest = widget_states;
        let ghost all = rest@;
        let mut node_states: Vec<NodeState> = Vec::new();
        while rest.len() > 0
            invariant
                n == all.len(),
                node_states@.len() + rest@.len() == n,
                rest@ == all.subrange(node_states@.len() as int, n as int),
                forall|i: int|
                    0 <= i < node_states@.len() ==> (#[trigger] node_states@[i])@ == fresh(
                        all[i],
                        n,
                        rotator.node_switch_interval,
                    ) && node_states@[i].wf(),
            decreases rest@.len(),
        {
            let w = rest.remove(0);
            let mut s = NodeState::new();
            s.widget_state = w;
            s.total_nodes = n;
            s.seconds_until_rotation = rotator.node_switch_interval;
            proof {
                assert(s@.host =~= seq![]);
                assert(s@.message =~= seq![]);
                assert(s@.services =~= seq![]);
            }
            node_states.push(s);
        }
        proof {
            assert(views(node_states@) =~= all.map_values(
                |w: WidgetState| fresh(w, n, rotator.node_switch_interval),
            ));
        }
        App {
            running: true,
            rotator,
            state: AppState {
                counter: 0,
                price: PriceState::new(),
                fees: FeesState::new(),
                node_states,
            },
            width,
            height,
        }
    }

    /// A timer tick at `now`: the rotation advances when due, and every
    /// node's status line moves on and shows the rotator's position.
    pub fn tick(&mut self, now: u64)
        requires
            old(self).wf(),
        ensures
            final(self).wf(),
            final(self).rotator == old(self).rotator.ticked(now),
            views(final(self).state.node_states@) == views(old(self).state.node_states@).map_values(
                |s: NodeStateView| shown(s, final(self).rotator, now),
            ),
            final(self).running == old(self).running,
            final(self).state.counter == old(self).state.counter,
            final(self).state.price == old(self).state.price,
            final(self).width == old(self).width,
            final(self).height == old(self).height,
    {
        self.rotator.tick(now);
        let r = self.rotator;
        let mut rest: Vec<NodeState> = Vec::new();
        std::mem::swap(&mut rest, &mut self.state.node_states);
        let ghost all = rest@;
        let n = rest.len();
        let mut done: Vec<NodeState> = Vec::new();
        while rest.len() > 0
            invariant
                n == all.len(),
                done@.len() + rest@.len() == n,
                rest@ == all.subrange(done@.len() as int, n as int),
                forall|i: int| 0 <= i < n ==> (#[trigger] all[i]).wf(),
                forall|i: int|
                    0 <= i < done@.len() ==> (#[trigger] done@[i])@ == shown(all[i]@, r, now)
                        && done@[i].wf(),
            decreases rest@.len(),
        {
            let ghost k = done@.len() as int;
            let mut s = rest.remove(0);
            proof {
                assert(s == all[k]);
            }
            s.tick(now);
            s.current_node_index = r.current_node_index;
            s.total_nodes = r.node_count;
            s.seconds_until_rotation = r.seconds_until_rotation;
            done.push(s);
        }
        proof {
            assert(views(done@) =~= views(all).map_values(|s: NodeStateView| shown(s, r, now)));
        }
        self.state.node_states = done;
    }

    pub fn quit(&mut self)
        ensures
            !final(self).running,
            final(self).rotator == old(self).rotator,
            final(self).state == old(self).state,
            final(self).width == old(self).width,
            final(self).height == old(self).height,
    {
        self.running = false;
    }

    /// Adds one to the counter unless it is at its largest.
    pub fn increment_counter(&mut self)
        ensures
            final(self).state.counter == (if old(self).state.counter < 255 {
                (old(self).state.counter + 1) as u8
            } else {
                255u8
            }),
            final(self).running == old(self).running,
            final(self).rotator == old(self).rotator,
            final(self).state.node_states == old(self).state.node_states,
    {
        if self.state.counter < 255 {
            self.state.counter = self.state.counter + 1;
        }
    }

    /// Takes one from the counter unless it is zero.
    pub fn decrement_counter(&mut self)
        ensures
            final(self).state.counter == (if old(self).state.counter > 0 {
                (old(self).state.counter - 1) as u8
            } else {
                0u8
            }),
            final(self).running == old(self).running,
            final(self).rotator == old(self).rotator,
            final(self).state.node_states == old(self).state.node_states,
    {
        if self.state.counter > 0 {
            self.state.counter = self.state.counter - 1;
        }
    }

    pub fn handle_price_update(&mut self, state: PriceState)
        ensures
            final(self).state.price == state,
            final(self).state.node_states == old(self).state.node_states,
            final(self).rotator == old(self).rotator,
            final(self).running == old(self).running,
    {
        self.state.price = state;
    }

    pub fn handle_fee_update(&mut self, state: FeesState)
        ensures
            final(self).state.fees == state,
            final(self).state.node_states == old(self).state.node_states,
            final(self).rotator == old(self).rotator,
            final(self).running == old(self).running,
    {
        self.state.fees = state;
    }

    /// Applies `update` to the node in slot `index`, replacing that slot by
    /// value; an update for a slot that does not exist is dropped.
    pub fn handle_node_update(&mut self, index: usize, update: NodeUpdate)
        requires
            old(self).wf(),
        ensures
            final(self).wf(),
            index < old(self).state.node_states@.len() ==> views(final(self).state.node_states@)
                == views(old(self).state.node_states@).update(
                index as int,
                applied(old(self).state.node_states@[index as int]@, update@),
            ),
            index >= old(self).state.node_states@.len() ==> final(self).state.node_states@ == old(
                self,
            ).state.node_states@,
            final(self).rotator == old(self).rotator,
            final(self).running == old(self).running,
            final(self).state.counter == old(self).state.counter,
            final(self).state.price == old(self).state.price,
    {
        if index < self.state.node_states.len() {
            let ghost before = self.state.node_states@;
            let s = self.state.node_states.remove(index);
            proof {
                assert(s == before[index as int]);
            }
            let updated = s.apply(update);
            self.state.node_states.insert(index, updated);
            proof {
                assert(self.state.node_states@ =~= before.update(index as int, updated));
                assert(views(self.state.node_states@) =~= views(before).update(
                    index as int,
                    updated@,
                ));
                assert forall|i: int|
                    0 <= i < self.state.node_states@.len() implies (
                    #[trigger] self.state.node_states@[i]).wf() by {
                    if i != index {
                        assert(self.state.node_states@[i] == before[i]);
                    }
                }
            }
        }
    }

    /// Key input at time `now`.
    pub fn handle_key_events(&mut self, key: KeyPress, now: u64)
        requires
            old(self).wf(),
        ensures
            final(self).wf(),
            final(self).running == (old(self).running && key_action(key) != KeyAction::Quit),
            final(self).rotator == match key_action(key) {
                KeyAction::NextNode => old(self).rotator.after_next(now),
                KeyAction::PreviousNode => old(self).rotator.after_previous(now),
                KeyAction::LongerInterval => old(self).rotator.after_longer(now),
                KeyAction::ShorterInterval => old(self).rotator.after_shorter(now),
                _ => old(self).rotator,
            },
            final(self).state == old(self).state,
            final(self).width == old(self).width,
            final(self).height == old(self).height,
    {
        match key.action() {
            KeyAction::Quit => self.quit(),
            KeyAction::NextNode => self.rotator.next(now),
            KeyAction::PreviousNode => self.rotator.previous(now),
            KeyAction::LongerInterval => self.rotator.increase_interval(now),
            KeyAction::ShorterInterval => self.rotator.decrease_interval(now),
            KeyAction::Nothing => {},
        }
    }

    /// Mouse input at time `now`: a press on the node indicator shows the
    /// next node.
    pub fn handle_mouse_events(&mut self, mouse: MouseInput, now: u64)
        requires
            old(self).wf(),
        ensures
            final(self).wf(),
            final(self).rotator == (if in_status_region(mouse, old(self).width, old(self).height) {
                old(self).rotator.after_next(now)
            } else {
                old(self).rotator
            }),
            final(self).running == old(self).running,
            final(self).state == old(self).state,
            final(self).width == old(self).width,
            final(self).height == old(self).height,
    {
        if mouse.pressed && mouse.row as u32 + 1 >= self.height as u32 && mouse.column as u32
            + INDICATOR_WIDTH as u32 >= self.width as u32 {
            self.rotator.next(now);
        }
    }

    /// Applies one event received at time `now`.
    pub fn handle_event(&mut self, event: Event, now: u64)
        requires
            old(self).wf(),
        ensures
            final(self).wf(),
            match event {
                Event::Tick => final(self).rotator == old(self).rotator.ticked(now) && views(
                    final(self).state.node_states@,
                ) == views(old(self).state.node_states@).map_values(
                    |s: NodeStateView| shown(s, final(self).rotator, now),
                ),
                Event::Key(k) => final(self).running == (old(self).running && key_action(k)
                    != KeyAction::Quit) && final(self).state == old(self).state,
                Event::Mouse(m) => final(self).rotator == (if in_status_region(
                    m,
                    old(self).width,
                    old(self).height,
                ) {
                    old(self).rotator.after_next(now)
                } else {
                    old(self).rotator
                }),
                Event::Resize(w, h) => final(self).width == w && final(self).height == h
                    && final(self).state == old(self).state && final(self).rotator == old(
                    self,
                ).rotator,
                Event::PriceUpdate(p) => final(self).state.price == p,
                Event::FeeUpdate(f) => final(self).state.fees == f,
                Event::NodeUpdate(i, u) => i < old(self).state.node_states@.len() ==> views(
                    final(self).state.node_states@,
                ) == views(old(self).state.node_states@).update(
                    i as int,
                    applied(old(self).state.node_states@[i as int]@, u@),
                ),
            },
    {
        match event {
            Event::Tick => self.tick(now),
            Event::Key(k) => self.handle_key_events(k, now),
            Event::Mouse(m) => self.handle_mouse_events(m, now),
            Event::Resize(w, h) => {
                self.width = w;
                self.height = h;
            },
            Event::PriceUpdate(p) => self.handle_price_update(p),
            Event::FeeUpdate(f) => self.handle_fee_update(f),
            Event::NodeUpdate(i, u) => self.handle_node_update(i, u),
        }
    }
}

} // verus!
