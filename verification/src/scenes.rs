//! The scene abstraction and the scene stack: scenes are polymorphic units
//! of game state; the stack owns them in order, routes updates and input to
//! the top one only, and applies the transition each update returns.

pub mod gameboard;

use vstd::prelude::*;

use crate::input::InputEvent;

verus! {

/// The transition a scene requests from one update: stay, leave the stack,
/// stack a new scene above, or be replaced in one atomic step. This is the
/// only channel through which a scene can alter the stack.
pub enum SceneSwitch<S> {
    Stay,
    Pop,
    Push(S),
    Replace(S),
}

/// A polymorphic unit of game state. Only the scene on top of the stack
/// receives updates and input; scenes beneath it are paused.
pub trait Scene<C>: Sized {
    /// The scene's own well-formedness, established at construction and
    /// preserved by every call.
    spec fn inv(&self) -> bool;

    /// Whether the scene has reached its terminal state and will ask to
    /// leave the stack on its next update.
    spec fn done(&self) -> bool;

    /// How one input event transforms a scene: each implementation pins its
    /// own `input` down with this relation between the state before and the
    /// state after the call.
    spec fn input_rel(pre: Self, post: Self, ev: InputEvent, started: bool) -> bool;

    /// One simulation tick: advance the scene's state and answer the stack
    /// transition to apply; a finished scene asks to be popped.
    fn update(&mut self, world: &mut C) -> (r: SceneSwitch<Self>)
        requires
            old(self).inv(),
        ensures
            final(self).inv(),
            r is Pop <==> old(self).done(),
            (r matches SceneSwitch::Push(s) ==> s.inv()),
            (r matches SceneSwitch::Replace(s) ==> s.inv()),
    ;

    /// Deliver one semantic input event; `started` tells a press from a
    /// release.
    fn input(&mut self, world: &mut C, ev: InputEvent, started: bool)
        requires
            old(self).inv(),
        ensures
            final(self).inv(),
            Self::input_rel(*old(self), *final(self), ev, started),
    ;

    /// A human-readable name for the scene.
    fn name(&self) -> &'static str;
}

/// An ordered stack of scenes plus the shared cross-scene world state. The
/// last scene of the sequence is the active one; the stack owns its scenes
/// and discards a popped scene immediately.
pub struct SceneStack<C, S> {
    pub world: C,
    pub scenes: Vec<S>,
}

impl<C, S: Scene<C>> SceneStack<C, S> {
    /// The scenes, bottom first; the last element is the active scene.
    pub open spec fn scene_seq(self) -> Seq<S> {
        self.scenes@
    }

    /// Every scene held by the stack satisfies its own invariant.
    pub open spec fn wf(self) -> bool {
        forall|i: int|
            0 <= i < self.scene_seq().len() ==> (#[trigger] self.scene_seq()[i]).inv()
    }

    /// An empty stack around the given world state.
    pub fn new(world: C) -> (r: Self)
        ensures
            r.wf(),
            r.scene_seq().len() == 0,
            r.world == world,
    {
        SceneStack { world, scenes: Vec::new() }
    }

    /// How many scenes the stack holds.
    pub fn len(&self) -> (r: usize)
        ensures
            r == self.scene_seq().len(),
    {
        self.scenes.len()
    }

    /// Whether the stack holds no scene at all; the shell treats this as
    /// the terminal condition of the whole application.
    pub fn is_empty(&self) -> (r: bool)
        ensures
            r == (self.scene_seq().len() == 0),
    {
        self.scenes.len() == 0
    }

    /// Appends a scene to the top; it becomes the sole receiver of updates
    /// and input.
    pub fn push(&mut self, scene: S)
        requires
            old(self).wf(),
            scene.inv(),
        ensures
            final(self).wf(),
            final(self).scene_seq() == old(self).scene_seq().push(scene),
            final(self).world == old(self).world,
    {
        self.scenes.push(scene);
        proof {
            assert(self.scene_seq() =~= old(self).scene_seq().push(scene));
        }
    }

    /// Removes and returns the active scene; the one below, if any, resumes.
    pub fn pop(&mut self) -> (r: S)
        requires
            old(self).wf(),
            old(self).scene_seq().len() > 0,
        ensures
            final(self).wf(),
            final(self).scene_seq() == old(self).scene_seq().drop_last(),
            r == old(self).scene_seq().last(),
            r.inv(),
            final(self).world == old(self).world,
    {
        let r = self.scenes.pop().unwrap();
        proof {
            assert(self.scene_seq() =~= old(self).scene_seq().drop_last());
        }
        r
    }

    /// A reference to the active scene.
    pub fn current(&self) -> (r: &S)
        requires
            self.scene_seq().len() > 0,
        ensures
            r == self.scene_seq().last(),
    {
        &self.scenes[self.scenes.len() - 1]
    }

    /// Applies one transition to the stack and returns the scene it removed,
    /// if any. Replacement is one atomic step: at no point between the pop
    /// and the push is the scene under the old top the active one.
    pub fn switch(&mut self, next: SceneSwitch<S>) -> (r: Option<S>)
        requires
            old(self).wf(),
            (next is Pop || next is Replace) ==> old(self).scene_seq().len() > 0,
            (next matches SceneSwitch::Push(s) ==> s.inv()),
            (next matches SceneSwitch::Replace(s) ==> s.inv()),
        ensures
            final(self).wf(),
            final(self).world == old(self).world,
            match next {
                SceneSwitch::Stay => final(self).scene_seq() == old(self).scene_seq() && r is None,
                SceneSwitch::Pop => final(self).scene_seq() == old(self).scene_seq().drop_last() && r == Some(old(self).scene_seq().last()),
                SceneSwitch::Push(s) => final(self).scene_seq() == old(self).scene_seq().push(s) && r is None,
                SceneSwitch::Replace(s) => final(self).scene_seq() == old(self).scene_seq().drop_last().push(s) && r == Some(old(self).scene_seq().last()),
            },
    {
        match next {
            SceneSwitch::Stay => None,
            SceneSwitch::Pop => {
                let previous = self.pop();
                Some(previous)
            },
            SceneSwitch::Push(s) => {
                self.push(s);
                None
            },
            SceneSwitch::Replace(s) => {
                let previous = self.pop();
                self.push(s);
                Some(previous)
            },
        }
    }

    /// One simulation tick: update the active scene, then apply the
    /// transition it returned. Scenes below the old top are untouched; a
    /// finished top scene is removed.
    pub fn update(&mut self)
        requires
            old(self).wf(),
            old(self).scene_seq().len() > 0,
        ensures
            final(self).wf(),
            old(self).scene_seq().len() - 1 <= final(self).scene_seq().len() <= old(self).scene_seq().len() + 1,
            forall|i: int|
                0 <= i < old(self).scene_seq().len() - 1 ==> #[trigger] final(self).scene_seq()[i] == old(self).scene_seq()[i],
            old(self).scene_seq().last().done() ==> final(self).scene_seq() == old(self).scene_seq().drop_last(),
    {
        let mut top = self.pop();
        let sw = top.update(&mut self.world);
        self.push(top);
        let _discarded = self.switch(sw);
        proof {
            if old(self).scene_seq().last().done() {
                assert(self.scene_seq() =~= old(self).scene_seq().drop_last());
            }
        }
    }

    /// Delivers one input event to the active scene only; scenes beneath
    /// receive nothing while paused, and the stack's shape is unchanged.
    pub fn input(&mut self, ev: InputEvent, started: bool)
        requires
            old(self).wf(),
            old(self).scene_seq().len() > 0,
        ensures
            final(self).wf(),
            final(self).scene_seq().len() == old(self).scene_seq().len(),
            S::input_rel(
                old(self).scene_seq().last(),
                final(self).scene_seq().last(),
                ev,
                started,
            ),
            forall|i: int|
                0 <= i < old(self).scene_seq().len() - 1 ==> #[trigger] final(self).scene_seq()[i] == old(self).scene_seq()[i],
    {
        let mut top = self.pop();
        top.input(&mut self.world, ev, started);
        self.push(top);
    }
}

} // verus!
