use vstd::prelude::*;
use crate::buttons::{BUTTON_COUNT, is_press_edge, press_edge, released, same_buttons};
use crate::inspect::ElementInspector;
use crate::state::{
    MouseState, StateView, initial_view, next_view, sample_changed, view_wf, with_size_view,
};

verus! {

/// The tracked pointer state: one [`MouseState`], written by the sampling loop and
/// read or amended by callers. Callers on several threads share it behind one lock
/// and hold the lock across each call, so every write below, which changes all of
/// its fields in one call, is seen whole or not at all.
pub struct MouseTracker {
    state: MouseState,
}

/// What one tick that published did.
pub struct TickReport {
    /// The sample was a press edge, so the inspector was asked.
    pub inspected: bool,
    /// The inspector's answer (`None` where it was not asked).
    pub found: Option<(i32, i32)>,
}

/// The sampling loop's memory of the previous sample.
pub struct Sampler {
    last_position: (i32, i32),
    last_buttons: Vec<bool>,
}

impl Sampler {
    pub closed spec fn last_position(&self) -> (i32, i32) {
        self.last_position
    }

    pub closed spec fn last_buttons(&self) -> Seq<bool> {
        self.last_buttons@
    }

    pub open spec fn wf(&self) -> bool {
        self.last_buttons().len() == BUTTON_COUNT
    }

    /// A sampler whose previous sample is the initial state: origin, all released.
    pub fn new() -> (r: Sampler)
        ensures
            r.last_position() == (0i32, 0i32),
            r.last_buttons() == seq![false, false, false],
            r.wf(),
    {
        Sampler { last_position: (0, 0), last_buttons: released() }
    }

    /// Whether `(position, buttons)` equals the previous sample, in which case a
    /// tick would write nothing and need not take the lock.
    pub fn is_repeat(&self, position: (i32, i32), buttons: &Vec<bool>) -> (r: bool)
        ensures
            r == !sample_changed(self.last_position(), self.last_buttons(), position, buttons@),
    {
        position.0 == self.last_position.0 && position.1 == self.last_position.1 && same_buttons(
            &self.last_buttons,
            buttons,
        )
    }
}

impl View for MouseTracker {
    type V = StateView;

    closed spec fn view(&self) -> StateView {
        self.state@
    }
}

impl MouseTracker {
    pub open spec fn wf(&self) -> bool {
        view_wf(self@)
    }

    /// A tracker holding the initial state.
    pub fn new() -> (r: MouseTracker)
        ensures
            r@ == initial_view(),
            r.wf(),
    {
        MouseTracker { state: MouseState::initial() }
    }

    /// A copy of the current snapshot.
    pub fn get_mouse_state(&self) -> (r: MouseState)
        ensures
            r@ == self@,
    {
        self.state.snapshot()
    }

    /// Overwrites the element size, keeping position and buttons.
    pub fn update_element_size(&mut self, width: i32, height: i32)
        ensures
            final(self)@ == with_size_view(old(self)@, width, height),
    {
        self.state.set_element_size(width, height);
    }

    /// One tick of the sampling loop on the sample `(position, buttons)`.
    ///
    /// An unchanged sample writes nothing and returns `None`. A changed one is
    /// recorded; on a press edge the inspector is asked at `position` and a size it
    /// finds is recorded with position and buttons in the same write.
    pub fn tick<I: ElementInspector>(
        &mut self,
        sampler: &mut Sampler,
        position: (i32, i32),
        buttons: Vec<bool>,
        inspector: &I,
    ) -> (r: Option<TickReport>)
        requires
            old(sampler).wf(),
            old(self).wf(),
            buttons@.len() == BUTTON_COUNT,
        ensures
            final(sampler).last_position() == position,
            final(sampler).last_buttons() == buttons@,
            final(sampler).wf(),
            final(self).wf(),
            r is None <==> !sample_changed(
                old(sampler).last_position(),
                old(sampler).last_buttons(),
                position,
                buttons@,
            ),
            r is None ==> final(self)@ == old(self)@,
            r matches Some(rep) ==> {
                &&& rep.inspected == is_press_edge(old(sampler).last_buttons(), buttons@)
                &&& !rep.inspected ==> rep.found is None
                &&& final(self)@ == next_view(
                    old(self)@,
                    old(sampler).last_position(),
                    old(sampler).last_buttons(),
                    position,
                    buttons@,
                    rep.found,
                )
            },
    {
        if sampler.is_repeat(position, &buttons) {
            return None;
        }
        let edge = press_edge(&sampler.last_buttons, &buttons);
        let found = if edge {
            inspector.element_size_at(position.0, position.1)
        } else {
            None
        };
        self.state.record_sample(sampler.last_position, &sampler.last_buttons, position, &buttons, found);
        sampler.last_position = position;
        sampler.last_buttons = buttons;
        Some(TickReport { inspected: edge, found })
    }
}

} // verus!
