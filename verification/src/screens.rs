//! The screens of the application and the navigation commands they emit.
//!
//! A screen is one full-screen view: it reacts to presses, scrolls and
//! back actions, reports once per frame whether it has fully expanded
//! over everything beneath it, and renders by handing the compositor an
//! explicit draw operation.  The set of screens is closed: every variant
//! is listed in [`Screen`], and every reaction is a plain value of
//! [`ScreenManagementCmd`], so navigation stays auditable without a GPU
//! context.  Widget geometry and shader work live outside the core; a
//! screen's state here is exactly what navigation depends on.

use vstd::prelude::*;
use crate::geom::{Delta, Pos};
use crate::transition::{
    spec_elapsed_ms, CircleTransition, StartAnimation, WipePoint, EXPANSION_MS, WIPE_DURATION_MS,
};

verus! {

/// A screen is fully expanded once this many milliseconds have passed
/// since its creation.  Kept equal to the wipe duration so that a screen
/// reports expansion exactly when its wipe has closed over the stack.
pub open spec fn spec_is_expanded_at(created: u64, now: u64) -> bool {
    spec_elapsed_ms(created, now) > EXPANSION_MS
}

/// Bottom navigation bar: presses below this y land on the bar.
pub const NAV_BAR_MAX_Y: i32 = 250;

/// Bar presses left of this x mean the home tab.
pub const NAV_HOME_MAX_X: i32 = 330;

/// Bar presses left of this x (and right of the home tab) mean the
/// records tab; anything further right means the stats tab.
pub const NAV_RECORDS_MAX_X: i32 = 660;

/// The main screen's start button, as an exclusive bounding box.
pub const START_MIN_X: i32 = 300;

pub const START_MAX_X: i32 = 700;

pub const START_MIN_Y: i32 = 1100;

pub const START_MAX_Y: i32 = 1400;

/// Initial background colour of the stats screen, in thousandths per
/// channel.
pub const STATS_INIT_RED: i64 = 400;

pub const STATS_INIT_GREEN: i64 = 500;

pub const STATS_INIT_BLUE: i64 = 900;

/// Ceiling of a colour channel, in thousandths.
pub const CHANNEL_MAX: i64 = 1000;

/// What a screen asks the stack to do after a press, back action or
/// update tick.  At most one command comes back per call and the stack
/// consumes it before the next event.
#[derive(Clone, Copy, Debug)]
pub enum ScreenManagementCmd {
    Noop,
    PushScreen(Screen),
    PopScreen,
}

/// Which concrete screen a draw operation belongs to.
#[derive(Clone, Copy, Debug, PartialEq, Eq, Structural)]
pub enum ScreenKind {
    Main,
    Records,
    Stats,
    ActiveTraining,
}

/// Per-screen compositing state: the circular wipe the screen plays
/// while it expands over the previous top screen.  The render target
/// itself is owned by the surface provider outside the core, which keys
/// it by stack position.
#[derive(Clone, Copy, Debug, PartialEq, Eq, Structural)]
pub struct ScreenRendering {
    pub wipe: CircleTransition,
}

/// The wipe every freshly pushed screen plays: it grows from the centre
/// of the view until its radius covers the whole stack.
pub open spec fn spec_standard_wipe(now: u64) -> CircleTransition {
    CircleTransition {
        start_ms: now,
        duration_ms: WIPE_DURATION_MS,
        begin: WipePoint { x: 500, y: 500, radius: 500 },
        middle: WipePoint { x: (-500) as i32, y: (-200) as i32, radius: 0 },
        finish: WipePoint { x: 0, y: 2000, radius: 3000 },
    }
}

/// One compositing step: clear the screen's private render target, draw
/// its content, then blend the target into the shared framebuffer masked
/// by the wipe circle.  The core computes the plan; the platform layer
/// executes it.
#[derive(Clone, Copy, Debug, PartialEq, Eq, Structural)]
pub struct DrawOp {
    pub kind: ScreenKind,
    pub wipe_x: i64,
    pub wipe_y: i64,
    pub wipe_radius: i64,
}

impl ScreenRendering {
    pub open spec fn spec_new(now: u64) -> ScreenRendering {
        ScreenRendering { wipe: spec_standard_wipe(now) }
    }

    pub fn new(now: u64) -> (r: Self)
        ensures
            r == Self::spec_new(now),
    {
        ScreenRendering {
            wipe: CircleTransition::new(
                now,
                WIPE_DURATION_MS,
                WipePoint { x: 500, y: 500, radius: 500 },
                WipePoint { x: -500, y: -200, radius: 0 },
                WipePoint { x: 0, y: 2000, radius: 3000 },
            ),
        }
    }

    /// The compositing step for a screen of kind `kind` at time `now`.
    pub fn present(&self, kind: ScreenKind, now: u64) -> (op: DrawOp)
        ensures
            op.kind == kind,
            (op.wipe_x as int, op.wipe_y as int, op.wipe_radius as int) == crate::transition::spec_wipe_at(
                self.wipe,
                now,
            ),
    {
        let (x, y, radius) = self.wipe.wipe_at(now);
        DrawOp { kind, wipe_x: x, wipe_y: y, wipe_radius: radius }
    }
}

/// The landing screen: navigation bar, logo and the start button that
/// launches a training session.
#[derive(Clone, Copy, Debug, PartialEq, Eq, Structural)]
pub struct MainScreen {
    pub created: u64,
    pub inputs_blocked: bool,
    pub bot_animation: Option<u64>,
    pub start_animation: StartAnimation,
    pub rendering: ScreenRendering,
}

/// The list of past workouts.
#[derive(Clone, Copy, Debug, PartialEq, Eq, Structural)]
pub struct RecordsScreen {
    pub created: u64,
    pub rendering: ScreenRendering,
}

/// Aggregated statistics; scrolling shifts its background colour.
#[derive(Clone, Copy, Debug, PartialEq, Eq, Structural)]
pub struct StatsScreen {
    pub created: u64,
    pub red: i64,
    pub green: i64,
    pub blue: i64,
    pub rendering: ScreenRendering,
}

/// A running training session; pressing anywhere toggles pause.
#[derive(Clone, Copy, Debug, PartialEq, Eq, Structural)]
pub struct ActiveTrainingScreen {
    pub created: u64,
    pub is_pause: bool,
    pub rendering: ScreenRendering,
}

/// Every screen the application can show.
#[derive(Clone, Copy, Debug, PartialEq, Eq, Structural)]
pub enum Screen {
    Main(MainScreen),
    Records(RecordsScreen),
    Stats(StatsScreen),
    ActiveTraining(ActiveTrainingScreen),
}

impl MainScreen {
    pub open spec fn spec_new(now: u64) -> MainScreen {
        MainScreen {
            created: now,
            inputs_blocked: false,
            bot_animation: None,
            start_animation: StartAnimation { launched_at: None },
            rendering: ScreenRendering::spec_new(now),
        }
    }

    pub fn new(now: u64) -> (s: Self)
        ensures
            s == Self::spec_new(now),
    {
        MainScreen {
            created: now,
            inputs_blocked: false,
            bot_animation: None,
            start_animation: StartAnimation::new(),
            rendering: ScreenRendering::new(now),
        }
    }

    /// The start button was hit: block further inputs and launch the two
    /// animations.  A second hit while blocked changes nothing.
    pub open spec fn spec_start_pressed(s: MainScreen, now: u64) -> MainScreen {
        if s.inputs_blocked {
            s
        } else {
            MainScreen {
                inputs_blocked: true,
                bot_animation: Some(now),
                start_animation: StartAnimation { launched_at: Some(now) },
                ..s
            }
        }
    }

    pub fn start_pressed(&mut self, now: u64)
        ensures
            *final(self) == Self::spec_start_pressed(*old(self), now),
    {
        if self.inputs_blocked {
            return ;
        }
        self.inputs_blocked = true;
        self.bot_animation = Some(now);
        self.start_animation.launch(now);
    }

    /// Presses on the navigation bar push the chosen tab (unless inputs
    /// are blocked); presses on the start button launch the start
    /// animation; everything else is ignored.
    pub open spec fn spec_press(s: MainScreen, pos: Pos, now: u64) -> (MainScreen, ScreenManagementCmd) {
        if pos.y < NAV_BAR_MAX_Y {
            if s.inputs_blocked {
                (s, ScreenManagementCmd::Noop)
            } else if pos.x < NAV_HOME_MAX_X {
                (s, ScreenManagementCmd::Noop)
            } else if pos.x < NAV_RECORDS_MAX_X {
                (s, ScreenManagementCmd::PushScreen(Screen::Records(RecordsScreen::spec_new(now))))
            } else {
                (s, ScreenManagementCmd::PushScreen(Screen::Stats(StatsScreen::spec_new(now))))
            }
        } else if START_MIN_X < pos.x < START_MAX_X && START_MIN_Y < pos.y < START_MAX_Y {
            (Self::spec_start_pressed(s, now), ScreenManagementCmd::Noop)
        } else {
            (s, ScreenManagementCmd::Noop)
        }
    }

    pub fn press(&mut self, pos: Pos, now: u64) -> (cmd: ScreenManagementCmd)
        ensures
            *final(self) == Self::spec_press(*old(self), pos, now).0,
            cmd == Self::spec_press(*old(self), pos, now).1,
    {
        if pos.y < NAV_BAR_MAX_Y {
            if self.inputs_blocked {
                ScreenManagementCmd::Noop
            } else if pos.x < NAV_HOME_MAX_X {
                ScreenManagementCmd::Noop
            } else if pos.x < NAV_RECORDS_MAX_X {
                ScreenManagementCmd::PushScreen(Screen::Records(RecordsScreen::new(now)))
            } else {
                ScreenManagementCmd::PushScreen(Screen::Stats(StatsScreen::new(now)))
            }
        } else if START_MIN_X < pos.x && pos.x < START_MAX_X && START_MIN_Y < pos.y && pos.y
            < START_MAX_Y {
            self.start_pressed(now);
            ScreenManagementCmd::Noop
        } else {
            ScreenManagementCmd::Noop
        }
    }

    /// Once the start animation has played out, each tick asks the stack
    /// to push a fresh training session on top.
    pub open spec fn spec_update(s: MainScreen, now: u64) -> ScreenManagementCmd {
        if s.start_animation.launched_at is Some && spec_elapsed_ms(
            s.start_animation.launched_at->0,
            now,
        ) >= crate::transition::START_ANIMATION_MS {
            ScreenManagementCmd::PushScreen(
                Screen::ActiveTraining(ActiveTrainingScreen::spec_new(now)),
            )
        } else {
            ScreenManagementCmd::Noop
        }
    }

    pub fn update(&self, now: u64) -> (cmd: ScreenManagementCmd)
        ensures
            cmd == Self::spec_update(*self, now),
    {
        if self.start_animation.is_finished(now) {
            ScreenManagementCmd::PushScreen(Screen::ActiveTraining(ActiveTrainingScreen::new(now)))
        } else {
            ScreenManagementCmd::Noop
        }
    }
}

impl RecordsScreen {
    pub open spec fn spec_new(now: u64) -> RecordsScreen {
        RecordsScreen { created: now, rendering: ScreenRendering::spec_new(now) }
    }

    pub fn new(now: u64) -> (s: Self)
        ensures
            s == Self::spec_new(now),
    {
        RecordsScreen { created: now, rendering: ScreenRendering::new(now) }
    }

    /// Only the navigation bar reacts: home pushes a fresh main screen,
    /// stats pushes a fresh stats screen, records itself is a no-op.
    pub open spec fn spec_press(s: RecordsScreen, pos: Pos, now: u64) -> ScreenManagementCmd {
        if pos.y < NAV_BAR_MAX_Y {
            if pos.x < NAV_HOME_MAX_X {
                ScreenManagementCmd::PushScreen(Screen::Main(MainScreen::spec_new(now)))
            } else if pos.x < NAV_RECORDS_MAX_X {
                ScreenManagementCmd::Noop
            } else {
                ScreenManagementCmd::PushScreen(Screen::Stats(StatsScreen::spec_new(now)))
            }
        } else {
            ScreenManagementCmd::Noop
        }
    }

    pub fn press(&self, pos: Pos, now: u64) -> (cmd: ScreenManagementCmd)
        ensures
            cmd == Self::spec_press(*self, pos, now),
    {
        if pos.y < NAV_BAR_MAX_Y {
            if pos.x < NAV_HOME_MAX_X {
                ScreenManagementCmd::PushScreen(Screen::Main(MainScreen::new(now)))
            } else if pos.x < NAV_RECORDS_MAX_X {
                ScreenManagementCmd::Noop
            } else {
                ScreenManagementCmd::PushScreen(Screen::Stats(StatsScreen::new(now)))
            }
        } else {
            ScreenManagementCmd::Noop
        }
    }
}

impl StatsScreen {
    pub open spec fn spec_new(now: u64) -> StatsScreen {
        StatsScreen {
            created: now,
            red: STATS_INIT_RED,
            green: STATS_INIT_GREEN,
            blue: STATS_INIT_BLUE,
            rendering: ScreenRendering::spec_new(now),
        }
    }

    pub fn new(now: u64) -> (s: Self)
        ensures
            s == Self::spec_new(now),
    {
        StatsScreen {
            created: now,
            red: STATS_INIT_RED,
            green: STATS_INIT_GREEN,
            blue: STATS_INIT_BLUE,
            rendering: ScreenRendering::new(now),
        }
    }

    /// Only the navigation bar reacts: home pushes a fresh main screen,
    /// records pushes a fresh records screen, stats itself is a no-op.
    pub open spec fn spec_press(s: StatsScreen, pos: Pos, now: u64) -> ScreenManagementCmd {
        if pos.y < NAV_BAR_MAX_Y {
            if pos.x < NAV_HOME_MAX_X {
                ScreenManagementCmd::PushScreen(Screen::Main(MainScreen::spec_new(now)))
            } else if pos.x < NAV_RECORDS_MAX_X {
                ScreenManagementCmd::PushScreen(Screen::Records(RecordsScreen::spec_new(now)))
            } else {
                ScreenManagementCmd::Noop
            }
        } else {
            ScreenManagementCmd::Noop
        }
    }

    pub fn press(&self, pos: Pos, now: u64) -> (cmd: ScreenManagementCmd)
        ensures
            cmd == Self::spec_press(*self, pos, now),
    {
        if pos.y < NAV_BAR_MAX_Y {
            if pos.x < NAV_HOME_MAX_X {
                ScreenManagementCmd::PushScreen(Screen::Main(MainScreen::new(now)))
            } else if pos.x < NAV_RECORDS_MAX_X {
                ScreenManagementCmd::PushScreen(Screen::Records(RecordsScreen::new(now)))
            } else {
                ScreenManagementCmd::Noop
            }
        } else {
            ScreenManagementCmd::Noop
        }
    }

    /// A colour channel pinned to its displayable range.
    pub open spec fn spec_clamp_channel(v: int) -> int {
        if v < 0 {
            0
        } else if v > CHANNEL_MAX {
            CHANNEL_MAX as int
        } else {
            v
        }
    }

    /// Scrolling shifts the background colour: the horizontal delta
    /// darkens blue, the vertical delta darkens red, both clamped to the
    /// displayable range.
    pub open spec fn spec_scroll(s: StatsScreen, delta: Delta) -> StatsScreen {
        StatsScreen {
            blue: Self::spec_clamp_channel(s.blue - delta.x / 2) as i64,
            red: Self::spec_clamp_channel(s.red - delta.y / 2) as i64,
            ..s
        }
    }

    pub fn scroll(&mut self, delta: Delta)
        ensures
            *final(self) == Self::spec_scroll(*old(self), delta),
    {
        proof {
            vstd::arithmetic::div_mod::lemma_div_is_ordered(i64::MIN as int, delta.x as int, 2);
            vstd::arithmetic::div_mod::lemma_div_is_ordered(delta.x as int, i64::MAX as int, 2);
            vstd::arithmetic::div_mod::lemma_div_is_ordered(i64::MIN as int, delta.y as int, 2);
            vstd::arithmetic::div_mod::lemma_div_is_ordered(delta.y as int, i64::MAX as int, 2);
        }
        let half_x = delta.x.checked_div_euclid(2).unwrap();
        let half_y = delta.y.checked_div_euclid(2).unwrap();
        self.blue = sub_clamped(self.blue, half_x);
        self.red = sub_clamped(self.red, half_y);
    }
}

/// Executable twin of [`StatsScreen::spec_clamp_channel`].
fn clamp_channel(v: i64) -> (r: i64)
    ensures
        r == StatsScreen::spec_clamp_channel(v as int),
{
    if v < 0 {
        0
    } else if v > CHANNEL_MAX {
        CHANNEL_MAX
    } else {
        v
    }
}

/// `v - d`, pinned to the displayable channel range; a difference that
/// leaves the machine range is already far outside the channel range, so
/// saturating towards the overflow's sign keeps the clamp exact.
fn sub_clamped(v: i64, d: i64) -> (r: i64)
    ensures
        r == StatsScreen::spec_clamp_channel(v - d),
{
    match v.checked_sub(d) {
        Some(w) => clamp_channel(w),
        None => if d < 0 {
            CHANNEL_MAX
        } else {
            0
        },
    }
}

impl ActiveTrainingScreen {
    pub open spec fn spec_new(now: u64) -> ActiveTrainingScreen {
        ActiveTrainingScreen {
            created: now,
            is_pause: false,
            rendering: ScreenRendering::spec_new(now),
        }
    }

    pub fn new(now: u64) -> (s: Self)
        ensures
            s == Self::spec_new(now),
    {
        ActiveTrainingScreen { created: now, is_pause: false, rendering: ScreenRendering::new(now) }
    }

    /// Toggle between running and paused.
    pub fn paused(&mut self)
        ensures
            *final(self) == (ActiveTrainingScreen { is_pause: !old(self).is_pause, ..*old(self) }),
    {
        self.is_pause = !self.is_pause;
    }
}

/// What a press does to a screen and what it asks of the stack.
pub open spec fn spec_screen_press(s: Screen, pos: Pos, now: u64) -> (Screen, ScreenManagementCmd) {
    match s {
        Screen::Main(m) => {
            let (m2, cmd) = MainScreen::spec_press(m, pos, now);
            (Screen::Main(m2), cmd)
        },
        Screen::Records(r) => (s, RecordsScreen::spec_press(r, pos, now)),
        Screen::Stats(st) => (s, StatsScreen::spec_press(st, pos, now)),
        Screen::ActiveTraining(a) => (
            Screen::ActiveTraining(ActiveTrainingScreen { is_pause: !a.is_pause, ..a }),
            ScreenManagementCmd::Noop,
        ),
    }
}

/// What a back action does to a screen and what it asks of the stack:
/// the main screen asks to be popped (popping the last screen is the
/// exit signal), the records and stats screens navigate home, a training
/// session toggles pause.
pub open spec fn spec_screen_back(s: Screen, now: u64) -> (Screen, ScreenManagementCmd) {
    match s {
        Screen::Main(_) => (s, ScreenManagementCmd::PopScreen),
        Screen::Records(_) => (
            s,
            ScreenManagementCmd::PushScreen(Screen::Main(MainScreen::spec_new(now))),
        ),
        Screen::Stats(_) => (
            s,
            ScreenManagementCmd::PushScreen(Screen::Main(MainScreen::spec_new(now))),
        ),
        Screen::ActiveTraining(a) => (
            Screen::ActiveTraining(ActiveTrainingScreen { is_pause: !a.is_pause, ..a }),
            ScreenManagementCmd::Noop,
        ),
    }
}

/// What an update tick asks of the stack.  No screen changes its own
/// state during an update.
pub open spec fn spec_screen_update(s: Screen, now: u64) -> ScreenManagementCmd {
    match s {
        Screen::Main(m) => MainScreen::spec_update(m, now),
        _ => ScreenManagementCmd::Noop,
    }
}

/// What a scroll delta does to a screen.  Only the stats screen reacts.
pub open spec fn spec_screen_scroll(s: Screen, delta: Delta) -> Screen {
    match s {
        Screen::Stats(st) => Screen::Stats(StatsScreen::spec_scroll(st, delta)),
        _ => s,
    }
}

/// When the screen was created; expansion is measured from here.
pub open spec fn spec_screen_created(s: Screen) -> u64 {
    match s {
        Screen::Main(m) => m.created,
        Screen::Records(r) => r.created,
        Screen::Stats(st) => st.created,
        Screen::ActiveTraining(a) => a.created,
    }
}

/// Whether the screen fully and permanently occludes everything beneath
/// it at time `now`.
pub open spec fn spec_screen_expanded(s: Screen, now: u64) -> bool {
    spec_is_expanded_at(spec_screen_created(s), now)
}

/// The compositing state of the screen.
pub open spec fn spec_screen_rendering(s: Screen) -> ScreenRendering {
    match s {
        Screen::Main(m) => m.rendering,
        Screen::Records(r) => r.rendering,
        Screen::Stats(st) => st.rendering,
        Screen::ActiveTraining(a) => a.rendering,
    }
}

/// The kind tag of the screen.
pub open spec fn spec_screen_kind(s: Screen) -> ScreenKind {
    match s {
        Screen::Main(_) => ScreenKind::Main,
        Screen::Records(_) => ScreenKind::Records,
        Screen::Stats(_) => ScreenKind::Stats,
        Screen::ActiveTraining(_) => ScreenKind::ActiveTraining,
    }
}

/// The draw operation the screen hands the compositor at time `now`.
pub open spec fn spec_screen_draw(s: Screen, now: u64) -> DrawOp {
    let (x, y, radius) = crate::transition::spec_wipe_at(spec_screen_rendering(s).wipe, now);
    DrawOp {
        kind: spec_screen_kind(s),
        wipe_x: x as i64,
        wipe_y: y as i64,
        wipe_radius: radius as i64,
    }
}

impl Screen {
    /// Whether this contact may drive scrolling.  Every screen accepts
    /// scroll contacts anywhere, and none changes state when asked.
    pub fn start_scroll(&self, pos: Pos) -> (r: bool)
        ensures
            r == true,
    {
        let _ = pos;
        true
    }

    /// Forward a scroll delta.
    pub fn scroll(&mut self, delta: Delta)
        ensures
            *final(self) == spec_screen_scroll(*old(self), delta),
    {
        match self {
            Screen::Stats(st) => st.scroll(delta),
            _ => (),
        }
    }

    /// Forward a press.
    pub fn press(&mut self, pos: Pos, now: u64) -> (cmd: ScreenManagementCmd)
        ensures
            *final(self) == spec_screen_press(*old(self), pos, now).0,
            cmd == spec_screen_press(*old(self), pos, now).1,
    {
        match self {
            Screen::Main(m) => m.press(pos, now),
            Screen::Records(r) => r.press(pos, now),
            Screen::Stats(st) => st.press(pos, now),
            Screen::ActiveTraining(a) => {
                a.paused();
                ScreenManagementCmd::Noop
            },
        }
    }

    /// Forward the platform back action.
    pub fn back(&mut self, now: u64) -> (cmd: ScreenManagementCmd)
        ensures
            *final(self) == spec_screen_back(*old(self), now).0,
            cmd == spec_screen_back(*old(self), now).1,
    {
        match self {
            Screen::Main(_) => ScreenManagementCmd::PopScreen,
            Screen::Records(_) => ScreenManagementCmd::PushScreen(Screen::Main(MainScreen::new(now))),
            Screen::Stats(_) => ScreenManagementCmd::PushScreen(Screen::Main(MainScreen::new(now))),
            Screen::ActiveTraining(a) => {
                a.paused();
                ScreenManagementCmd::Noop
            },
        }
    }

    /// The update tick that precedes every draw.
    pub fn update(&self, now: u64) -> (cmd: ScreenManagementCmd)
        ensures
            cmd == spec_screen_update(*self, now),
    {
        match self {
            Screen::Main(m) => m.update(now),
            _ => ScreenManagementCmd::Noop,
        }
    }

    /// Render into the screen's private target and present it, as one
    /// explicit compositing step.
    pub fn draw(&self, now: u64) -> (op: DrawOp)
        ensures
            op == spec_screen_draw(*self, now),
    {
        match self {
            Screen::Main(m) => m.rendering.present(ScreenKind::Main, now),
            Screen::Records(r) => r.rendering.present(ScreenKind::Records, now),
            Screen::Stats(st) => st.rendering.present(ScreenKind::Stats, now),
            Screen::ActiveTraining(a) => a.rendering.present(ScreenKind::ActiveTraining, now),
        }
    }

    /// Whether the screen fully occludes everything beneath it.
    pub fn is_expanded(&self, now: u64) -> (r: bool)
        ensures
            r == spec_screen_expanded(*self, now),
    {
        crate::transition::elapsed_ms(self.created_at(), now) > EXPANSION_MS
    }

    /// The creation timestamp the expansion clock runs from.
    pub fn created_at(&self) -> (t: u64)
        ensures
            t == spec_screen_created(*self),
    {
        match self {
            Screen::Main(m) => m.created,
            Screen::Records(r) => r.created,
            Screen::Stats(st) => st.created,
            Screen::ActiveTraining(a) => a.created,
        }
    }

    /// The kind tag of the screen.
    pub fn kind(&self) -> (k: ScreenKind)
        ensures
            k == spec_screen_kind(*self),
    {
        match self {
            Screen::Main(_) => ScreenKind::Main,
            Screen::Records(_) => ScreenKind::Records,
            Screen::Stats(_) => ScreenKind::Stats,
            Screen::ActiveTraining(_) => ScreenKind::ActiveTraining,
        }
    }
}

} // verus!
