//! The application shell: owns the scene stack, the input binding and the
//! tick accumulator. The host runtime hands it raw key and mouse codes and
//! per-frame wall-clock gaps; everything it does with them is decided here.

use vstd::arithmetic::div_mod::lemma_fundamental_div_mod_converse_div;
use vstd::arithmetic::div_mod::lemma_fundamental_div_mod_converse_mod;
use vstd::prelude::*;

use crate::input::key_binding;
use crate::input::Button;
use crate::input::InputBinding;
use crate::input::InputEvent;
use crate::input::KeyCode;
use crate::input::MouseButton;
use crate::scenes::gameboard::input_step;
use crate::scenes::gameboard::GameboardScene;
use crate::scenes::Scene;
use crate::scenes::SceneStack;
use crate::timing::sat_add_ns;
use crate::timing::Ticker;
use crate::timing::TICK_60HZ_NS;
use crate::world::World;

verus! {

/// The top of the application: the scene stack over the shared world, the
/// key and mouse binding, and the fixed-timestep accumulator.
pub struct MainState {
    pub scenes: SceneStack<World, GameboardScene>,
    pub input_binding: InputBinding,
    pub timer: Ticker,
}

impl MainState {
    /// Well-formedness of the whole shell.
    pub open spec fn wf(self) -> bool {
        self.scenes.wf() && self.timer.wf()
    }

    /// One semantic event was delivered to the active scene and to it alone:
    /// its board took the `input_step` for the event, every scene below it
    /// and the timer are untouched.
    pub open spec fn delivered(
        pre: MainState,
        post: MainState,
        ev: InputEvent,
        started: bool,
    ) -> bool {
        &&& post.scenes.scene_seq().len() == pre.scenes.scene_seq().len()
        &&& (forall|i: int|
            0 <= i < pre.scenes.scene_seq().len() - 1 ==> #[trigger] post.scenes.scene_seq()[i]
                == pre.scenes.scene_seq()[i])
        &&& post.scenes.scene_seq().last().layout == pre.scenes.scene_seq().last().layout
        &&& post.scenes.scene_seq().last().gameboard@ == input_step(
            pre.scenes.scene_seq().last().gameboard@,
            pre.scenes.scene_seq().last().layout,
            ev,
            started,
        )
        &&& post.timer == pre.timer
    }

    /// A fresh shell: exactly one initial playing scene is pushed before the
    /// loop begins, and the 60 Hz accumulator starts empty.
    pub fn new() -> (r: MainState)
        ensures
            r.wf(),
            r.scenes.scene_seq().len() == 1,
            !r.scenes.scene_seq()[0].done(),
            r.timer.tick_ns == TICK_60HZ_NS,
            r.timer.residual_ns == 0,
    {
        let mut world = World::new();
        let initial_scene = GameboardScene::new(&mut world);
        let mut scenestack = SceneStack::new(world);
        scenestack.push(initial_scene);
        MainState {
            scenes: scenestack,
            input_binding: InputBinding::new(),
            timer: Ticker::new(TICK_60HZ_NS),
        }
    }

    /// One frame: fold the elapsed wall-clock time into the accumulator,
    /// then run one simulation tick per full tick interval accumulated —
    /// several after a slow frame, none after a fast one — leaving the
    /// remainder for the next frame. Returns how many ticks ran.
    pub fn update(&mut self, elapsed_ns: u64) -> (ticks: u64)
        requires
            old(self).wf(),
        ensures
            final(self).wf(),
            final(self).timer.tick_ns == old(self).timer.tick_ns,
            ticks == sat_add_ns(old(self).timer.residual_ns, elapsed_ns) / (
            old(self).timer.tick_ns as int),
            final(self).timer.residual_ns == sat_add_ns(old(self).timer.residual_ns, elapsed_ns)
                % (old(self).timer.tick_ns as int),
            final(self).timer.residual_ns < old(self).timer.tick_ns,
            ticks == 0 ==> final(self).scenes == old(self).scenes,
            old(self).scenes.scene_seq().len() - ticks <= final(self).scenes.scene_seq().len()
                <= old(self).scenes.scene_seq().len() + ticks,
            forall|i: int|
                0 <= i < old(self).scenes.scene_seq().len() - ticks ==> #[trigger] final(
                self).scenes.scene_seq()[i] == old(self).scenes.scene_seq()[i],
            ticks >= 1 && old(self).scenes.scene_seq().len() == 1 && old(
            self).scenes.scene_seq()[0].done() ==> final(self).scenes.scene_seq().len() == 0,
    {
        self.timer.advance(elapsed_ns);
        let ghost start = self.timer.residual_ns as int;
        let ghost tick = self.timer.tick_ns as int;
        let mut ticks: u64 = 0;
        while self.timer.residual_ns >= self.timer.tick_ns
            invariant
                self.wf(),
                self.timer.tick_ns == old(self).timer.tick_ns,
                tick == self.timer.tick_ns as int,
                start <= u64::MAX,
                start == self.timer.residual_ns + ticks * tick,
                ticks * tick <= start,
                ticks == 0 ==> self.scenes == old(self).scenes,
                old(self).scenes.scene_seq().len() - ticks <= self.scenes.scene_seq().len()
                    <= old(self).scenes.scene_seq().len() + ticks,
                forall|i: int|
                    0 <= i < old(self).scenes.scene_seq().len() - ticks ==> #[trigger] self.scenes.scene_seq()[i] == old(self).scenes.scene_seq()[i],
                ticks >= 1 && old(self).scenes.scene_seq().len() == 1 && old(
                self).scenes.scene_seq()[0].done() ==> self.scenes.scene_seq().len() == 0,
            decreases self.timer.residual_ns,
        {
            let _ = self.timer.check_update_time();
            if !self.scenes.is_empty() {
                self.scenes.update();
            }
            proof {
                assert((ticks + 1) * tick == ticks * tick + tick) by (nonlinear_arith);
                assert(ticks + 1 <= (ticks + 1) * tick) by (nonlinear_arith)
                    requires
                        0 <= ticks,
                        1 <= tick,
                ;
                assert(start == self.timer.residual_ns + (ticks + 1) * tick);
                assert(ticks + 1 <= start);
                assert(start <= u64::MAX);
            }
            ticks = ticks + 1;
        }
        proof {
            lemma_fundamental_div_mod_converse_div(
                start,
                tick,
                ticks as int,
                self.timer.residual_ns as int,
            );
            lemma_fundamental_div_mod_converse_mod(
                start,
                tick,
                ticks as int,
                self.timer.residual_ns as int,
            );
        }
        ticks
    }

    /// A key went down: resolve it through the binding and deliver the
    /// event, if any, to the active scene exactly once, as a press. An
    /// unmapped key is silently dropped, the whole state untouched.
    pub fn key_down_event(&mut self, keycode: KeyCode)
        requires
            old(self).wf(),
        ensures
            final(self).wf(),
            final(self).scenes.scene_seq().len() == old(self).scenes.scene_seq().len(),
            final(self).timer == old(self).timer,
            key_binding(keycode) is None ==> *final(self) == *old(self),
            old(self).scenes.scene_seq().len() == 0 ==> *final(self) == *old(self),
            key_binding(keycode) matches Some(ev) ==> old(self).scenes.scene_seq().len() > 0
                ==> Self::delivered(*old(self), *final(self), ev, true),
    {
        if let Some(ev) = self.input_binding.resolve_key(keycode) {
            if !self.scenes.is_empty() {
                self.scenes.input(ev, true);
            }
        }
    }

    /// A key went up: like a key press, delivered with `started == false`,
    /// which is when axis moves take effect.
    pub fn key_up_event(&mut self, keycode: KeyCode)
        requires
            old(self).wf(),
        ensures
            final(self).wf(),
            final(self).scenes.scene_seq().len() == old(self).scenes.scene_seq().len(),
            final(self).timer == old(self).timer,
            key_binding(keycode) is None ==> *final(self) == *old(self),
            old(self).scenes.scene_seq().len() == 0 ==> *final(self) == *old(self),
            key_binding(keycode) matches Some(ev) ==> old(self).scenes.scene_seq().len() > 0
                ==> Self::delivered(*old(self), *final(self), ev, false),
    {
        if let Some(ev) = self.input_binding.resolve_key(keycode) {
            if !self.scenes.is_empty() {
                self.scenes.input(ev, false);
            }
        }
    }

    /// A mouse button went down at `(x, y)`: the primary button becomes a
    /// select event carrying that position, delivered to the active scene
    /// once as a press; any other button changes nothing.
    pub fn mouse_button_down_event(&mut self, button: MouseButton, x: i32, y: i32)
        requires
            old(self).wf(),
        ensures
            final(self).wf(),
            final(self).scenes.scene_seq().len() == old(self).scenes.scene_seq().len(),
            final(self).timer == old(self).timer,
            button != MouseButton::Left ==> *final(self) == *old(self),
            old(self).scenes.scene_seq().len() == 0 ==> *final(self) == *old(self),
            button == MouseButton::Left && old(self).scenes.scene_seq().len() > 0
                ==> Self::delivered(
                *old(self),
                *final(self),
                InputEvent::Button(Button::Select, Some((x, y))),
                true,
            ),
    {
        if let Some(ev) = self.input_binding.resolve_mouse(button, x, y) {
            if !self.scenes.is_empty() {
                self.scenes.input(ev, true);
            }
        }
    }

    /// A mouse button went up at `(x, y)`: like the press, but delivered
    /// with `started == false`.
    pub fn mouse_button_up_event(&mut self, button: MouseButton, x: i32, y: i32)
        requires
            old(self).wf(),
        ensures
            final(self).wf(),
            final(self).scenes.scene_seq().len() == old(self).scenes.scene_seq().len(),
            final(self).timer == old(self).timer,
            button != MouseButton::Left ==> *final(self) == *old(self),
            old(self).scenes.scene_seq().len() == 0 ==> *final(self) == *old(self),
            button == MouseButton::Left && old(self).scenes.scene_seq().len() > 0
                ==> Self::delivered(
                *old(self),
                *final(self),
                InputEvent::Button(Button::Select, Some((x, y))),
                false,
            ),
    {
        if let Some(ev) = self.input_binding.resolve_mouse(button, x, y) {
            if !self.scenes.is_empty() {
                self.scenes.input(ev, false);
            }
        }
    }

    /// Mouse motion: the binding maps it to no action, so the whole shell is
    /// untouched.
    pub fn mouse_motion_event(&mut self, x: i32, y: i32, xrel: i32, yrel: i32)
        requires
            old(self).wf(),
        ensures
            *final(self) == *old(self),
    {
        if let Some(ev) = self.input_binding.resolve_mouse_motion(x, y, xrel, yrel) {
            if !self.scenes.is_empty() {
                self.scenes.input(ev, false);
            }
        }
    }
}

} // verus!
