//! The screen stack: the navigation state machine of the application.
//!
//! The ordered stack of live screens is the entire state; index 0 is the
//! bottom, the last index is the active input target.  Pushing puts a new
//! screen on top, popping destroys the top one, and emptying the stack is
//! the designed exit signal.  Each frame tick walks the stack bottom to
//! top, updating then drawing every screen; a screen found fully expanded
//! above the bottom prunes everything it now permanently occludes and
//! restarts the scan.

use vstd::prelude::*;
use crate::geom::{Delta, Pos};
use crate::screens::{
    spec_screen_back, spec_screen_draw, spec_screen_expanded, spec_screen_press,
    spec_screen_scroll, spec_screen_update, DrawOp, MainScreen, Screen, ScreenManagementCmd,
};

verus! {

/// The navigation state machine: the stack of live screens and the exit
/// signal that is raised when the last of them is popped.
pub struct AppState {
    pub screens: Vec<Screen>,
    pub exit_request: bool,
}

/// Pushing appends on top; the new screen becomes the input target.
pub open spec fn spec_push(screens: Seq<Screen>, screen: Screen) -> Seq<Screen> {
    screens.push(screen)
}

/// Popping removes the top screen; a stack left (or found) empty raises
/// the exit signal instead of staying empty silently.
pub open spec fn spec_pop(screens: Seq<Screen>, exit_request: bool) -> (Seq<Screen>, bool) {
    let remaining = if screens.len() == 0 {
        screens
    } else {
        screens.drop_last()
    };
    (remaining, exit_request || remaining.len() == 0)
}

/// A screen's command is consumed synchronously: push, pop, or nothing.
pub open spec fn spec_apply_cmd(
    screens: Seq<Screen>,
    exit_request: bool,
    cmd: ScreenManagementCmd,
) -> (Seq<Screen>, bool) {
    match cmd {
        ScreenManagementCmd::Noop => (screens, exit_request),
        ScreenManagementCmd::PushScreen(s) => (spec_push(screens, s), exit_request),
        ScreenManagementCmd::PopScreen => spec_pop(screens, exit_request),
    }
}

/// Whether a screen's update tick would ask for a push at time `now`.
pub open spec fn spec_is_pusher(s: Screen, now: u64) -> bool {
    spec_screen_update(s, now) is PushScreen
}

/// The mark the frame tick's termination argument counts: expanded
/// screens when `pushers` is false, push-requesting screens when true.
pub open spec fn spec_screen_marked(s: Screen, now: u64, pushers: bool) -> bool {
    if pushers {
        spec_is_pusher(s, now)
    } else {
        spec_screen_expanded(s, now)
    }
}

/// How many screens at index `k` or above carry the mark.
pub open spec fn count_marked_from(screens: Seq<Screen>, k: int, now: u64, pushers: bool) -> nat
    decreases screens.len() - k,
{
    if k < 0 || k >= screens.len() {
        0
    } else {
        (if spec_screen_marked(screens[k], now, pushers) {
            1nat
        } else {
            0nat
        }) + count_marked_from(screens, k + 1, now, pushers)
    }
}

proof fn lemma_count_marked_push(screens: Seq<Screen>, x: Screen, k: int, now: u64, pushers: bool)
    requires
        0 <= k <= screens.len(),
    ensures
        count_marked_from(screens.push(x), k, now, pushers) == count_marked_from(
            screens,
            k,
            now,
            pushers,
        ) + (if spec_screen_marked(x, now, pushers) {
            1int
        } else {
            0int
        }),
    decreases screens.len() - k,
{
    if k == screens.len() {
        assert(screens.push(x)[k] == x);
        assert(count_marked_from(screens, k, now, pushers) == 0);
        assert(count_marked_from(screens.push(x), k + 1, now, pushers) == 0);
    } else {
        assert(screens.push(x)[k] == screens[k]);
        lemma_count_marked_push(screens, x, k + 1, now, pushers);
    }
}

proof fn lemma_count_marked_mono(screens: Seq<Screen>, k1: int, k2: int, now: u64, pushers: bool)
    requires
        0 <= k1 <= k2,
    ensures
        count_marked_from(screens, k2, now, pushers) <= count_marked_from(screens, k1, now, pushers),
    decreases k2 - k1,
{
    if k1 < k2 {
        lemma_count_marked_mono(screens, k1 + 1, k2, now, pushers);
    }
}

proof fn lemma_count_marked_skip(screens: Seq<Screen>, i: int, k: int, now: u64, pushers: bool)
    requires
        0 <= i <= screens.len(),
        0 <= k,
    ensures
        count_marked_from(screens.skip(i), k, now, pushers) == count_marked_from(
            screens,
            i + k,
            now,
            pushers,
        ),
    decreases screens.len() - i - k,
{
    if k < screens.len() - i {
        assert(screens.skip(i)[k] == screens[i + k]);
        lemma_count_marked_skip(screens, i, k + 1, now, pushers);
    } else {
        assert(count_marked_from(screens.skip(i), k, now, pushers) == 0);
        assert(count_marked_from(screens, i + k, now, pushers) == 0);
    }
}

/// One step of the frame tick keeps the termination measure falling: an
/// update never pops, what it pushes is a fresh (hence unexpanded,
/// non-pushing) training screen, and a prune strictly lowers the number
/// of expanded screens above the bottom.
pub proof fn lemma_tick_step(screens: Seq<Screen>, exit_request: bool, i: int, now: u64)
    requires
        0 <= i < screens.len(),
    ensures
        ({
            let cmd = spec_screen_update(screens[i], now);
            let s1 = spec_apply_cmd(screens, exit_request, cmd).0;
            &&& !(cmd is PopScreen)
            &&& i < s1.len()
            &&& s1[i] == screens[i]
            &&& count_marked_from(s1, 1, now, false) == count_marked_from(screens, 1, now, false)
            &&& (cmd is Noop ==> s1 == screens && count_marked_from(s1, i + 1, now, true)
                <= count_marked_from(screens, i, now, true))
            &&& (cmd is PushScreen ==> count_marked_from(s1, i + 1, now, true)
                < count_marked_from(screens, i, now, true))
            &&& (spec_screen_expanded(s1[i], now) && i >= 1 ==> count_marked_from(
                s1.skip(i),
                1,
                now,
                false,
            ) < count_marked_from(screens, 1, now, false))
        }),
{
    let cmd = spec_screen_update(screens[i], now);
    let s1 = spec_apply_cmd(screens, exit_request, cmd).0;
    match cmd {
        ScreenManagementCmd::Noop => {
            assert(count_marked_from(screens, i, now, true) == count_marked_from(
                screens,
                i + 1,
                now,
                true,
            ));
        },
        ScreenManagementCmd::PushScreen(s) => {
            assert(screens[i] is Main);
            assert(s == Screen::ActiveTraining(crate::screens::ActiveTrainingScreen::spec_new(now)));
            assert(!spec_screen_marked(s, now, false));
            assert(!spec_screen_marked(s, now, true));
            lemma_count_marked_push(screens, s, 1, now, false);
            lemma_count_marked_push(screens, s, i + 1, now, true);
            assert(count_marked_from(screens, i, now, true) == 1 + count_marked_from(
                screens,
                i + 1,
                now,
                true,
            ));
            assert(s1[i] == screens[i]);
        },
        ScreenManagementCmd::PopScreen => {
            // no screen's update tick ever asks for a pop
            assert(false);
        },
    }
    if spec_screen_expanded(s1[i], now) && i >= 1 {
        lemma_count_marked_skip(s1, i, 1, now, false);
        lemma_count_marked_mono(s1, 1, i, now, false);
        assert(count_marked_from(s1, i, now, false) == 1 + count_marked_from(s1, i + 1, now, false));
    }
}

/// The frame tick from index `i` on: update screen `i`, apply its
/// command, draw it, and either prune and restart when it has expanded
/// above the bottom, or move on to the next screen.  Returns the stack,
/// the exit signal and the ordered draw plan of the whole tick.
pub open spec fn spec_tick_from(
    screens: Seq<Screen>,
    exit_request: bool,
    i: int,
    ops: Seq<DrawOp>,
    now: u64,
) -> (Seq<Screen>, bool, Seq<DrawOp>)
    decreases
            count_marked_from(screens, 1, now, false),
            count_marked_from(screens, i, now, true),
            screens.len() - i,
{
    if i < 0 || i >= screens.len() {
        (screens, exit_request, ops)
    } else {
        let cmd = spec_screen_update(screens[i], now);
        let applied = spec_apply_cmd(screens, exit_request, cmd);
        let s1 = applied.0;
        let e1 = applied.1;
        if i < s1.len() {
            let ops1 = ops.push(spec_screen_draw(s1[i], now));
            proof {
                lemma_tick_step(screens, exit_request, i, now);
            }
            if spec_screen_expanded(s1[i], now) && i >= 1 {
                spec_tick_from(s1.skip(i), e1, 0, ops1, now)
            } else {
                spec_tick_from(s1, e1, i + 1, ops1, now)
            }
        } else {
            (s1, e1, ops)
        }
    }
}

/// One whole frame tick over the stack.
pub open spec fn spec_frame_tick(screens: Seq<Screen>, exit_request: bool, now: u64) -> (
    Seq<Screen>,
    bool,
    Seq<DrawOp>,
) {
    spec_tick_from(screens, exit_request, 0, Seq::empty(), now)
}

impl AppState {
    /// A stack with no screens yet and no exit requested.
    pub fn new() -> (s: Self)
        ensures
            s.screens@ == Seq::<Screen>::empty(),
            !s.exit_request,
    {
        AppState { screens: Vec::new(), exit_request: false }
    }

    /// First-use initialisation: an empty stack receives the bootstrap
    /// main screen.  The surface provider's own initialisation happens
    /// outside the core before this is called.
    pub fn ensure_renderer(&mut self, now: u64)
        ensures
            final(self).screens@ == (if old(self).screens@.len() == 0 {
                old(self).screens@.push(Screen::Main(MainScreen::spec_new(now)))
            } else {
                old(self).screens@
            }),
            final(self).exit_request == old(self).exit_request,
    {
        if self.screens.len() == 0 {
            self.screens.push(Screen::Main(MainScreen::new(now)));
        }
    }

    /// Whether there is anything to draw.
    pub fn renderer_ready(&self) -> (r: bool)
        ensures
            r == (self.screens@.len() > 0),
    {
        self.screens.len() > 0
    }

    /// The index of the input target: the topmost screen.  Screens below
    /// the top never receive direct input.
    pub fn get_input_screen(&self) -> (r: Option<usize>)
        ensures
            r == (if self.screens@.len() > 0 {
                Some((self.screens@.len() - 1) as usize)
            } else {
                None::<usize>
            }),
    {
        if self.screens.len() > 0 {
            Some(self.screens.len() - 1)
        } else {
            None
        }
    }

    /// Append a screen on top; it becomes the sole input target.
    pub fn push_screen(&mut self, screen: Screen)
        ensures
            final(self).screens@ == spec_push(old(self).screens@, screen),
            final(self).exit_request == old(self).exit_request,
    {
        self.screens.push(screen);
    }

    /// Remove the top screen; if the stack becomes (or was) empty, raise
    /// the exit signal instead of leaving it empty.
    pub fn pop_screen(&mut self)
        ensures
            final(self).screens@ == spec_pop(old(self).screens@, old(self).exit_request).0,
            final(self).exit_request == spec_pop(old(self).screens@, old(self).exit_request).1,
    {
        let _ = self.screens.pop();
        if self.screens.len() == 0 {
            self.exit_request = true;
        }
    }

    /// Consume a screen's command, exclusively and at once.
    pub fn apply_cmd(&mut self, cmd: ScreenManagementCmd)
        ensures
            final(self).screens@ == spec_apply_cmd(
                old(self).screens@,
                old(self).exit_request,
                cmd,
            ).0,
            final(self).exit_request == spec_apply_cmd(
                old(self).screens@,
                old(self).exit_request,
                cmd,
            ).1,
    {
        match cmd {
            ScreenManagementCmd::Noop => (),
            ScreenManagementCmd::PushScreen(s) => self.push_screen(s),
            ScreenManagementCmd::PopScreen => self.pop_screen(),
        }
    }

    /// Route a press to the top screen and consume its command.  An empty
    /// stack ignores the event.
    pub fn dispatch_press(&mut self, pos: Pos, now: u64)
        ensures
            final(self).screens@ == spec_dispatch_press(
                old(self).screens@,
                old(self).exit_request,
                pos,
                now,
            ).0,
            final(self).exit_request == spec_dispatch_press(
                old(self).screens@,
                old(self).exit_request,
                pos,
                now,
            ).1,
    {
        let n = self.screens.len();
        if n == 0 {
            return ;
        }
        let cmd = self.screens[n - 1].press(pos, now);
        self.apply_cmd(cmd);
    }

    /// Route a scroll delta to the top screen.  An empty stack ignores
    /// the event.
    pub fn dispatch_scroll(&mut self, delta: Delta)
        ensures
            final(self).screens@ == spec_dispatch_scroll(old(self).screens@, delta),
            final(self).exit_request == old(self).exit_request,
    {
        let n = self.screens.len();
        if n == 0 {
            return ;
        }
        self.screens[n - 1].scroll(delta);
    }

    /// Ask the top screen whether a contact at `pos` may drive scrolling.
    /// Every screen accepts, so this holds exactly when there is a top
    /// screen to ask.
    pub fn dispatch_start_scroll(&self, pos: Pos) -> (r: bool)
        ensures
            r == (self.screens@.len() > 0),
    {
        let n = self.screens.len();
        if n == 0 {
            return false;
        }
        self.screens[n - 1].start_scroll(pos)
    }

    /// Route the platform back action to the top screen and consume its
    /// command.  An empty stack ignores the event.
    pub fn dispatch_back(&mut self, now: u64)
        ensures
            final(self).screens@ == spec_dispatch_back(
                old(self).screens@,
                old(self).exit_request,
                now,
            ).0,
            final(self).exit_request == spec_dispatch_back(
                old(self).screens@,
                old(self).exit_request,
                now,
            ).1,
    {
        let n = self.screens.len();
        if n == 0 {
            return ;
        }
        let cmd = self.screens[n - 1].back(now);
        self.apply_cmd(cmd);
    }

    /// One frame tick: update then draw every screen bottom to top,
    /// consuming update commands as they come; a screen found expanded
    /// above the bottom drops every screen beneath it and restarts the
    /// scan.  Returns the ordered draw plan for the platform layer to
    /// execute.
    pub fn draw(&mut self, now: u64) -> (ops: Vec<DrawOp>)
        ensures
            final(self).screens@ == spec_frame_tick(
                old(self).screens@,
                old(self).exit_request,
                now,
            ).0,
            final(self).exit_request == spec_frame_tick(
                old(self).screens@,
                old(self).exit_request,
                now,
            ).1,
            ops@ == spec_frame_tick(old(self).screens@, old(self).exit_request, now).2,
    {
        let ghost target = spec_frame_tick(old(self).screens@, old(self).exit_request, now);
        let mut ops: Vec<DrawOp> = Vec::new();
        let mut i: usize = 0;
        while i < self.screens.len()
            invariant
                spec_tick_from(self.screens@, self.exit_request, i as int, ops@, now) == target,
            decreases
                    count_marked_from(self.screens@, 1, now, false),
                    count_marked_from(self.screens@, i as int, now, true),
                    self.screens@.len() - i,
        {
            let ghost pre_screens = self.screens@;
            let ghost pre_exit = self.exit_request;
            let cmd = self.screens[i].update(now);
            let ghost g_cmd = cmd;
            proof {
                lemma_tick_step(pre_screens, pre_exit, i as int, now);
            }
            self.apply_cmd(cmd);
            if i < self.screens.len() {
                let op = self.screens[i].draw(now);
                ops.push(op);
                if self.screens[i].is_expanded(now) && i > 0 {
                    let kept = self.screens.split_off(i);
                    self.screens = kept;
                    proof {
                        assert(self.screens@ =~= spec_apply_cmd(
                            pre_screens,
                            pre_exit,
                            g_cmd,
                        ).0.skip(i as int));
                    }
                    i = 0;
                } else {
                    i = i + 1;
                }
            }
        }
        ops
    }
}

proof fn lemma_tick_from_preserves(
    screens: Seq<Screen>,
    exit_request: bool,
    i: int,
    ops: Seq<DrawOp>,
    now: u64,
)
    requires
        0 <= i,
        screens.len() > 0,
    ensures
        spec_tick_from(screens, exit_request, i, ops, now).0.len() > 0,
        spec_tick_from(screens, exit_request, i, ops, now).1 == exit_request,
    decreases
            count_marked_from(screens, 1, now, false),
            count_marked_from(screens, i, now, true),
            screens.len() - i,
{
    if i < screens.len() {
        lemma_tick_step(screens, exit_request, i, now);
        let cmd = spec_screen_update(screens[i], now);
        let applied = spec_apply_cmd(screens, exit_request, cmd);
        let s1 = applied.0;
        let e1 = applied.1;
        if i < s1.len() {
            let ops1 = ops.push(spec_screen_draw(s1[i], now));
            if spec_screen_expanded(s1[i], now) && i >= 1 {
                lemma_tick_from_preserves(s1.skip(i), e1, 0, ops1, now);
            } else {
                lemma_tick_from_preserves(s1, e1, i + 1, ops1, now);
            }
        }
    }
}

/// While the application runs, the stack is never left empty and exit is
/// never requested behind the user's back: a frame tick can push screens
/// and prune obscured ones, but it never pops, so a nonempty stack stays
/// nonempty and the exit signal keeps its value.
pub proof fn lemma_frame_tick_keeps_stack_alive(
    screens: Seq<Screen>,
    exit_request: bool,
    now: u64,
)
    requires
        screens.len() > 0,
    ensures
        spec_frame_tick(screens, exit_request, now).0.len() > 0,
        spec_frame_tick(screens, exit_request, now).1 == exit_request,
{
    lemma_tick_from_preserves(screens, exit_request, 0, Seq::empty(), now);
}

/// Routing a press: the top screen reacts, its command is consumed.
pub open spec fn spec_dispatch_press(
    screens: Seq<Screen>,
    exit_request: bool,
    pos: Pos,
    now: u64,
) -> (Seq<Screen>, bool) {
    if screens.len() == 0 {
        (screens, exit_request)
    } else {
        let r = spec_screen_press(screens.last(), pos, now);
        spec_apply_cmd(screens.update(screens.len() - 1, r.0), exit_request, r.1)
    }
}

/// Routing a scroll: only the top screen sees the delta.
pub open spec fn spec_dispatch_scroll(screens: Seq<Screen>, delta: Delta) -> Seq<Screen> {
    if screens.len() == 0 {
        screens
    } else {
        screens.update(screens.len() - 1, spec_screen_scroll(screens.last(), delta))
    }
}

/// Routing the back action: the top screen reacts, its command is
/// consumed.
pub open spec fn spec_dispatch_back(screens: Seq<Screen>, exit_request: bool, now: u64) -> (
    Seq<Screen>,
    bool,
) {
    if screens.len() == 0 {
        (screens, exit_request)
    } else {
        let r = spec_screen_back(screens.last(), now);
        spec_apply_cmd(screens.update(screens.len() - 1, r.0), exit_request, r.1)
    }
}

/// A frame tick over a three-screen stack whose top screen has expanded
/// while the two beneath it have not: the tick updates and draws all
/// three, then prunes the two obscured screens, re-scans the survivor
/// (updating and drawing it once more) and leaves the stack holding the
/// top screen alone -- after which the dropped screens can never be
/// updated or drawn again, since they are gone from the stack.
pub proof fn lemma_prune_drops_obscured(
    a: Screen,
    b: Screen,
    c: Screen,
    exit_request: bool,
    now: u64,
)
    requires
        spec_screen_update(a, now) is Noop,
        spec_screen_update(b, now) is Noop,
        spec_screen_update(c, now) is Noop,
        !spec_screen_expanded(a, now),
        !spec_screen_expanded(b, now),
        spec_screen_expanded(c, now),
    ensures
        spec_frame_tick(seq![a, b, c], exit_request, now).0 =~= seq![c],
        spec_frame_tick(seq![a, b, c], exit_request, now).1 == exit_request,
        spec_frame_tick(seq![a, b, c], exit_request, now).2 =~= seq![
            spec_screen_draw(a, now),
            spec_screen_draw(b, now),
            spec_screen_draw(c, now),
            spec_screen_draw(c, now),
        ],
{
    let s = seq![a, b, c];
    reveal_with_fuel(spec_tick_from, 6);
    assert(s.skip(2) =~= seq![c]);
    assert(s[0] == a && s[1] == b && s[2] == c);
    assert(seq![c][0] == c);
}

/// Pushing a screen and at once popping it restores the exact prior
/// stack; the exit signal is untouched whenever the prior stack held at
/// least one screen (pushing onto an empty stack and popping again
/// empties it, which by design raises the signal).
pub proof fn lemma_push_pop_restores(screens: Seq<Screen>, exit_request: bool, screen: Screen)
    ensures
        spec_pop(spec_push(screens, screen), exit_request).0 == screens,
        screens.len() > 0 ==> spec_pop(spec_push(screens, screen), exit_request).1 == exit_request,
{
    assert(spec_push(screens, screen).drop_last() =~= screens);
}

/// Popping `n` times in a row, starting with no exit requested.
pub open spec fn spec_pop_n(screens: Seq<Screen>, exit_request: bool, n: nat) -> (Seq<Screen>, bool)
    decreases n,
{
    if n == 0 {
        (screens, exit_request)
    } else {
        let prev = spec_pop_n(screens, exit_request, (n - 1) as nat);
        spec_pop(prev.0, prev.1)
    }
}

/// Popping a stack of screens one at a time raises the exit signal at
/// the pop that empties the stack and at none before it: after `k` of
/// `screens.len()` pops the bottom `len - k` screens remain, and the
/// signal stands exactly when the last screen has just been popped.
pub proof fn lemma_exit_on_last_pop_only(screens: Seq<Screen>, k: nat)
    requires
        k <= screens.len(),
    ensures
        spec_pop_n(screens, false, k).0 =~= screens.take(screens.len() - k),
        spec_pop_n(screens, false, k).1 == (k > 0 && k == screens.len()),
    decreases k,
{
    if k > 0 {
        lemma_exit_on_last_pop_only(screens, (k - 1) as nat);
        assert(screens.take(screens.len() - (k - 1)).drop_last() =~= screens.take(
            screens.len() - k,
        ));
    }
}

} // verus!
