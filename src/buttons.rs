use vstd::prelude::*;

verus! {

/// Number of buttons a snapshot tracks.
pub const BUTTON_COUNT: usize = 3;

/// At least one button of `b` is down.
pub open spec fn any_pressed(b: Seq<bool>) -> bool {
    exists|i: int| 0 <= i < b.len() && #[trigger] b[i]
}

/// A press edge: nothing was down before, something is down now.
pub open spec fn is_press_edge(prev: Seq<bool>, cur: Seq<bool>) -> bool {
    !any_pressed(prev) && any_pressed(cur)
}

/// Whether any flag of `b` is set.
pub fn contains_pressed(b: &Vec<bool>) -> (r: bool)
    ensures
        r == any_pressed(b@),
{
    let mut i: usize = 0;
    while i < b.len()
        invariant
            0 <= i <= b@.len(),
            forall|j: int| 0 <= j < i ==> !b@[j],
        decreases b@.len() - i,
    {
        if b[i] {
            return true;
        }
        i = i + 1;
    }
    false
}

/// Whether going from `prev` to `cur` is a press edge.
pub fn press_edge(prev: &Vec<bool>, cur: &Vec<bool>) -> (r: bool)
    ensures
        r == is_press_edge(prev@, cur@),
{
    !contains_pressed(prev) && contains_pressed(cur)
}

/// Whether two button vectors hold the same flags.
pub fn same_buttons(a: &Vec<bool>, b: &Vec<bool>) -> (r: bool)
    ensures
        r == (a@ == b@),
{
    if a.len() != b.len() {
        return false;
    }
    let mut i: usize = 0;
    while i < a.len()
        invariant
            a@.len() == b@.len(),
            0 <= i <= a@.len(),
            forall|j: int| 0 <= j < i ==> a@[j] == b@[j],
        decreases a@.len() - i,
    {
        if a[i] != b[i] {
            return false;
        }
        i = i + 1;
    }
    assert(a@ =~= b@);
    true
}

/// A fresh vector with the same flags.
pub fn copy_buttons(b: &Vec<bool>) -> (r: Vec<bool>)
    ensures
        r@ == b@,
{
    let mut r: Vec<bool> = Vec::new();
    let mut i: usize = 0;
    while i < b.len()
        invariant
            0 <= i <= b@.len(),
            r@ == b@.subrange(0, i as int),
        decreases b@.len() - i,
    {
        r.push(b[i]);
        i = i + 1;
    }
    assert(r@ =~= b@);
    r
}

/// All buttons released.
pub fn released() -> (r: Vec<bool>)
    ensures
        r@ == seq![false, false, false],
{
    vec![false, false, false]
}

/// Flag `i` of a 1-based button vector (slot 0 unused); a missing slot reads as released.
pub open spec fn one_based_flag(raw: Seq<bool>, i: int) -> bool {
    i + 1 < raw.len() && raw[i + 1]
}

/// The first three buttons of a 1-based button vector, whose slot 0 carries no
/// button; which physical button each slot stands for is the probe's convention.
pub fn buttons_from_one_based(raw: &Vec<bool>) -> (r: Vec<bool>)
    ensures
        r@.len() == BUTTON_COUNT,
        forall|i: int| 0 <= i < BUTTON_COUNT ==> r@[i] == one_based_flag(raw@, i),
{
    let mut r: Vec<bool> = Vec::new();
    let mut i: usize = 0;
    while i < BUTTON_COUNT
        invariant
            0 <= i <= BUTTON_COUNT,
            r@.len() == i,
            forall|j: int| 0 <= j < i ==> r@[j] == one_based_flag(raw@, j),
        decreases BUTTON_COUNT - i,
    {
        let down = i + 1 < raw.len() && raw[i + 1];
        r.push(down);
        i = i + 1;
    }
    r
}

} // verus!
