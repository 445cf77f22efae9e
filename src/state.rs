use vstd::prelude::*;
use crate::buttons::{BUTTON_COUNT, copy_buttons, is_press_edge, press_edge, released, same_buttons};

verus! {

/// The pointer as last observed, with the size of the element last clicked.
pub struct MouseState {
    pub position: (i32, i32),
    pub buttons: Vec<bool>,
    pub element_size: Option<(i32, i32)>,
}

/// The mathematical value of a [`MouseState`].
pub struct StateView {
    pub position: (i32, i32),
    pub buttons: Seq<bool>,
    pub element_size: Option<(i32, i32)>,
}

impl View for MouseState {
    type V = StateView;

    open spec fn view(&self) -> StateView {
        StateView {
            position: self.position,
            buttons: self.buttons@,
            element_size: self.element_size,
        }
    }
}

/// The state every process starts from.
pub open spec fn initial_view() -> StateView {
    StateView { position: (0, 0), buttons: seq![false, false, false], element_size: None }
}

/// A snapshot tracks exactly [`BUTTON_COUNT`] buttons.
pub open spec fn view_wf(s: StateView) -> bool {
    s.buttons.len() == BUTTON_COUNT
}

/// A sample differs from the previous one.
pub open spec fn sample_changed(
    last_pos: (i32, i32),
    last_btns: Seq<bool>,
    pos: (i32, i32),
    btns: Seq<bool>,
) -> bool {
    pos != last_pos || btns != last_btns
}

/// The state after one tick: `s` when the sample `(pos, btns)` equals the previous
/// one `(last_pos, last_btns)`; otherwise the sample, and on a press edge the size
/// `found` that the inspector gave, if it gave one.
pub open spec fn next_view(
    s: StateView,
    last_pos: (i32, i32),
    last_btns: Seq<bool>,
    pos: (i32, i32),
    btns: Seq<bool>,
    found: Option<(i32, i32)>,
) -> StateView {
    if !sample_changed(last_pos, last_btns, pos, btns) {
        s
    } else {
        StateView {
            position: pos,
            buttons: btns,
            element_size: if is_press_edge(last_btns, btns) && found is Some {
                found
            } else {
                s.element_size
            },
        }
    }
}

/// The state with its element size overwritten.
pub open spec fn with_size_view(s: StateView, width: i32, height: i32) -> StateView {
    StateView { element_size: Some((width, height)), ..s }
}

impl MouseState {
    pub open spec fn wf(&self) -> bool {
        view_wf(self@)
    }

    /// Pointer at the origin, no button down, no element size.
    pub fn initial() -> (r: MouseState)
        ensures
            r@ == initial_view(),
            r.wf(),
    {
        MouseState { position: (0, 0), buttons: released(), element_size: None }
    }

    /// An independent copy.
    pub fn snapshot(&self) -> (r: MouseState)
        ensures
            r@ == self@,
    {
        MouseState {
            position: self.position,
            buttons: copy_buttons(&self.buttons),
            element_size: self.element_size,
        }
    }

    /// Overwrites the element size, leaving position and buttons as they are.
    pub fn set_element_size(&mut self, width: i32, height: i32)
        ensures
            final(self)@ == with_size_view(old(self)@, width, height),
    {
        self.element_size = Some((width, height));
    }

    /// Records the sample `(position, buttons)` taken after `(last_position, last_buttons)`;
    /// `found` is what the inspector gave at `position` (read only on a press edge).
    pub fn record_sample(
        &mut self,
        last_position: (i32, i32),
        last_buttons: &Vec<bool>,
        position: (i32, i32),
        buttons: &Vec<bool>,
        found: Option<(i32, i32)>,
    )
        ensures
            final(self)@ == next_view(old(self)@, last_position, last_buttons@, position, buttons@, found),
    {
        let moved = position.0 != last_position.0 || position.1 != last_position.1;
        if moved || !same_buttons(last_buttons, buttons) {
            self.position = position;
            self.buttons = copy_buttons(buttons);
            if press_edge(last_buttons, buttons) {
                if let Some(size) = found {
                    self.element_size = Some(size);
                }
            }
        }
    }
}

} // verus!
