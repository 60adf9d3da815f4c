//! The application shell seen by the platform layer: it owns the screen
//! stack and the per-contact gesture map, and turns raw platform events
//! (touch samples, the back button, frame ticks) into classified gestures
//! routed to the topmost screen.
//!
//! Every event handler takes the current time in milliseconds as an
//! argument; the platform layer reads the clock, normalises touch
//! positions into the logical coordinate space, and executes the draw
//! plans this shell hands back.

use vstd::prelude::*;
use std::collections::BTreeMap;
use crate::geom::{Delta, Pos};
use crate::gesture::{
    spec_touch_cancel, spec_touch_down, spec_touch_move, spec_touch_up, GestureEvent, TouchPhase,
    TouchState, TAP_THRESHOLD_MS,
};
use crate::screens::{DrawOp, Screen};
use crate::stack::{
    spec_dispatch_back, spec_dispatch_press, spec_dispatch_scroll, spec_frame_tick, AppState,
};
use crate::transition::elapsed_ms;

verus! {

broadcast use vstd::std_specs::btree::group_btree_axioms;

/// A platform input event, after the platform layer has normalised
/// coordinates and identifiers.
#[derive(Clone, Copy, Debug, PartialEq, Eq, Structural)]
pub enum MyInputEvent {
    Back,
    TouchEvent(u64, Pos, TouchPhase),
}

/// The application: the navigation stack and the gesture classifier's
/// map of active contacts.
pub struct App {
    pub app_state: AppState,
    pub touch_state: BTreeMap<u64, TouchState>,
}

/// What one touch sample does to the whole application: with no screen
/// to receive input the event is ignored; otherwise the classifier step
/// runs and the gesture it produces is routed to the topmost screen.
/// Touch-down records the target's scroll acceptance, which every screen
/// grants.
pub open spec fn spec_handle_touch(
    screens: Seq<Screen>,
    exit_request: bool,
    touches: Map<u64, TouchState>,
    id: u64,
    location: Pos,
    phase: TouchPhase,
    now: u64,
) -> (Seq<Screen>, bool, Map<u64, TouchState>) {
    if screens.len() == 0 {
        (screens, exit_request, touches)
    } else {
        match phase {
            TouchPhase::Started => (
                screens,
                exit_request,
                spec_touch_down(touches, id, location, now, true),
            ),
            TouchPhase::Moved => {
                let stepped = spec_touch_move(touches, id, location, now);
                match stepped.1 {
                    GestureEvent::Scroll(d) => (
                        spec_dispatch_scroll(screens, d),
                        exit_request,
                        stepped.0,
                    ),
                    _ => (screens, exit_request, stepped.0),
                }
            },
            TouchPhase::Ended => {
                let stepped = spec_touch_up(touches, id, location);
                match stepped.1 {
                    GestureEvent::Press(p) => {
                        let routed = spec_dispatch_press(screens, exit_request, p, now);
                        (routed.0, routed.1, stepped.0)
                    },
                    _ => (screens, exit_request, stepped.0),
                }
            },
            TouchPhase::Cancelled => (screens, exit_request, spec_touch_cancel(touches, id)),
        }
    }
}

impl App {
    /// A fresh application: empty stack, no active contacts, no exit
    /// requested.
    pub fn new() -> (app: Self)
        ensures
            app.app_state.screens@ == Seq::<Screen>::empty(),
            !app.app_state.exit_request,
            app.touch_state@ == Map::<u64, TouchState>::empty(),
    {
        App { app_state: AppState::new(), touch_state: BTreeMap::new() }
    }

    /// The platform resumed us: make sure the bootstrap screen exists.
    /// Surface and context creation happen outside the core before this
    /// is called.
    pub fn resume(&mut self, now: u64)
        ensures
            final(self).app_state.screens@ == (if old(self).app_state.screens@.len() == 0 {
                old(self).app_state.screens@.push(
                    Screen::Main(crate::screens::MainScreen::spec_new(now)),
                )
            } else {
                old(self).app_state.screens@
            }),
            final(self).app_state.exit_request == old(self).app_state.exit_request,
            final(self).touch_state@ == old(self).touch_state@,
    {
        self.app_state.ensure_renderer(now);
    }

    /// One raw touch sample from the platform.
    pub fn handle_touch(&mut self, id: u64, location: Pos, phase: TouchPhase, now: u64)
        ensures
            ({
                let r = spec_handle_touch(
                    old(self).app_state.screens@,
                    old(self).app_state.exit_request,
                    old(self).touch_state@,
                    id,
                    location,
                    phase,
                    now,
                );
                &&& final(self).app_state.screens@ == r.0
                &&& final(self).app_state.exit_request == r.1
                &&& final(self).touch_state@ == r.2
            }),
    {
        if !self.app_state.renderer_ready() {
            return ;
        }
        match phase {
            TouchPhase::Started => {
                let forward_moves = self.app_state.dispatch_start_scroll(location);
                self.touch_state.insert(
                    id,
                    TouchState::PressStart { pos: location, start: now, forward_moves },
                );
            },
            TouchPhase::Moved => {
                let entry = match self.touch_state.get(&id) {
                    Some(state) => Some(*state),
                    None => None,
                };
                match entry {
                    Some(TouchState::PressStart { pos: prev, start, forward_moves }) => {
                        if forward_moves {
                            self.app_state.dispatch_scroll(Delta::between(prev, location));
                        }
                        if elapsed_ms(start, now) >= TAP_THRESHOLD_MS {
                            self.touch_state.insert(
                                id,
                                TouchState::Moving { pos: location, last: now, forward_moves },
                            );
                        } else {
                            self.touch_state.insert(
                                id,
                                TouchState::PressStart { pos: location, start, forward_moves },
                            );
                        }
                    },
                    Some(TouchState::Moving { pos: prev, last: _, forward_moves }) => {
                        if forward_moves {
                            self.app_state.dispatch_scroll(Delta::between(prev, location));
                        }
                        self.touch_state.insert(
                            id,
                            TouchState::Moving { pos: location, last: now, forward_moves },
                        );
                    },
                    None => {},
                }
            },
            TouchPhase::Ended => {
                let removed = self.touch_state.remove(&id);
                match removed {
                    Some(TouchState::PressStart { .. }) => {
                        self.app_state.dispatch_press(location, now);
                    },
                    _ => {},
                }
            },
            TouchPhase::Cancelled => {
                let _ = self.touch_state.remove(&id);
            },
        }
    }

    /// The platform back action: the topmost screen decides, its command
    /// is consumed at once.
    pub fn handle_back_button(&mut self, now: u64)
        ensures
            final(self).app_state.screens@ == spec_dispatch_back(
                old(self).app_state.screens@,
                old(self).app_state.exit_request,
                now,
            ).0,
            final(self).app_state.exit_request == spec_dispatch_back(
                old(self).app_state.screens@,
                old(self).app_state.exit_request,
                now,
            ).1,
            final(self).touch_state@ == old(self).touch_state@,
    {
        self.app_state.dispatch_back(now);
    }

    /// The platform asked us to close: raise the exit signal.
    pub fn handle_close_request(&mut self)
        ensures
            final(self).app_state.screens@ == old(self).app_state.screens@,
            final(self).app_state.exit_request,
            final(self).touch_state@ == old(self).touch_state@,
    {
        self.app_state.exit_request = true;
    }

    /// A redraw was requested: when there is anything to show, run one
    /// frame tick and hand back the draw plan for the platform layer to
    /// execute and present.
    pub fn handle_redraw_request(&mut self, now: u64) -> (plan: Option<Vec<DrawOp>>)
        ensures
            old(self).app_state.screens@.len() == 0 ==> plan is None
                && final(self).app_state.screens@ == old(self).app_state.screens@
                && final(self).app_state.exit_request == old(self).app_state.exit_request
                && final(self).touch_state@ == old(self).touch_state@,
            old(self).app_state.screens@.len() > 0 ==> ({
                let r = spec_frame_tick(
                    old(self).app_state.screens@,
                    old(self).app_state.exit_request,
                    now,
                );
                &&& plan is Some
                &&& plan->0@ == r.2
                &&& final(self).app_state.screens@ == r.0
                &&& final(self).app_state.exit_request == r.1
                &&& final(self).touch_state@ == old(self).touch_state@
            }),
    {
        if self.app_state.renderer_ready() {
            Some(self.app_state.draw(now))
        } else {
            None
        }
    }

    /// One already-normalised platform event.
    pub fn process_input(&mut self, event: MyInputEvent, now: u64)
        ensures
            ({
                let r = spec_process_input(
                    old(self).app_state.screens@,
                    old(self).app_state.exit_request,
                    old(self).touch_state@,
                    event,
                    now,
                );
                &&& final(self).app_state.screens@ == r.0
                &&& final(self).app_state.exit_request == r.1
                &&& final(self).touch_state@ == r.2
            }),
    {
        match event {
            MyInputEvent::Back => self.handle_back_button(now),
            MyInputEvent::TouchEvent(id, location, phase) => self.handle_touch(
                id,
                location,
                phase,
                now,
            ),
        }
    }
}

/// What one platform event does to the whole application.
pub open spec fn spec_process_input(
    screens: Seq<Screen>,
    exit_request: bool,
    touches: Map<u64, TouchState>,
    event: MyInputEvent,
    now: u64,
) -> (Seq<Screen>, bool, Map<u64, TouchState>) {
    match event {
        MyInputEvent::Back => {
            let r = spec_dispatch_back(screens, exit_request, now);
            (r.0, r.1, touches)
        },
        MyInputEvent::TouchEvent(id, location, phase) => spec_handle_touch(
            screens,
            exit_request,
            touches,
            id,
            location,
            phase,
            now,
        ),
    }
}

/// Touch-cancel in any gesture state of a running application: the
/// contact leaves the gesture map, and no screen sees a press or scroll
/// -- the stack and the exit signal stay exactly as they were.
pub proof fn lemma_cancel_is_silent(
    screens: Seq<Screen>,
    exit_request: bool,
    touches: Map<u64, TouchState>,
    id: u64,
    location: Pos,
    now: u64,
)
    requires
        screens.len() > 0,
    ensures
        ({
            let r = spec_handle_touch(
                screens,
                exit_request,
                touches,
                id,
                location,
                TouchPhase::Cancelled,
                now,
            );
            &&& r.0 == screens
            &&& r.1 == exit_request
            &&& r.2 == touches.remove(id)
        }),
{
}

} // verus!
