use vstd::prelude::*;
use crate::buttons::{any_pressed, is_press_edge};
use crate::state::{StateView, next_view, with_size_view};

verus! {

/// One probe sample: position and button flags.
pub type SampleView = ((i32, i32), Seq<bool>);

/// The state after ticking through `samples` in order, starting from `s` with
/// `(last_pos, last_btns)` as the previous sample; `found[i]` is what the inspector
/// gives for `samples[i]`.
pub open spec fn replay(
    s: StateView,
    last_pos: (i32, i32),
    last_btns: Seq<bool>,
    samples: Seq<SampleView>,
    found: Seq<Option<(i32, i32)>>,
) -> StateView
    decreases samples.len(),
{
    if samples.len() == 0 {
        s
    } else {
        let (pos, btns) = samples[0];
        replay(
            next_view(s, last_pos, last_btns, pos, btns, found[0]),
            pos,
            btns,
            samples.drop_first(),
            found.drop_first(),
        )
    }
}

/// Once the cell agrees with the loop's previous sample (as it does at start), after
/// any non-empty run of samples the cell holds the last sample's position and buttons;
/// repeats of a sample write nothing, so this is the last sample that differed from
/// its predecessor.
pub proof fn lemma_replay_publishes_last_sample(
    s: StateView,
    last_pos: (i32, i32),
    last_btns: Seq<bool>,
    samples: Seq<SampleView>,
    found: Seq<Option<(i32, i32)>>,
)
    requires
        s.position == last_pos,
        s.buttons == last_btns,
        samples.len() > 0,
    ensures
        replay(s, last_pos, last_btns, samples, found).position == samples.last().0,
        replay(s, last_pos, last_btns, samples, found).buttons == samples.last().1,
    decreases samples.len(),
{
    let (pos, btns) = samples[0];
    let t = next_view(s, last_pos, last_btns, pos, btns, found[0]);
    assert(t.position == pos && t.buttons == btns);
    if samples.len() > 1 {
        lemma_replay_publishes_last_sample(t, pos, btns, samples.drop_first(), found.drop_first());
        assert(samples.drop_first().last() == samples.last());
    }
}

/// Repeating a sample right after itself changes nothing: the run with the
/// repeat ends in the same state as the run without it, whatever the inspector
/// would have said for the repeat.
pub proof fn lemma_repeat_collapses(
    s: StateView,
    last_pos: (i32, i32),
    last_btns: Seq<bool>,
    samples: Seq<SampleView>,
    found: Seq<Option<(i32, i32)>>,
    i: int,
    extra: Option<(i32, i32)>,
)
    requires
        0 <= i < samples.len(),
        found.len() == samples.len(),
    ensures
        replay(
            s,
            last_pos,
            last_btns,
            samples.insert(i + 1, samples[i]),
            found.insert(i + 1, extra),
        ) == replay(s, last_pos, last_btns, samples, found),
    decreases i,
{
    let samples2 = samples.insert(i + 1, samples[i]);
    let found2 = found.insert(i + 1, extra);
    let (pos, btns) = samples[0];
    let t = next_view(s, last_pos, last_btns, pos, btns, found[0]);
    assert(samples2[0] == samples[0]);
    assert(found2[0] == found[0]);
    assert(replay(s, last_pos, last_btns, samples2, found2) == replay(
        t,
        pos,
        btns,
        samples2.drop_first(),
        found2.drop_first(),
    ));
    assert(replay(s, last_pos, last_btns, samples, found) == replay(
        t,
        pos,
        btns,
        samples.drop_first(),
        found.drop_first(),
    ));
    if i == 0 {
        assert(samples2.drop_first() =~= seq![samples[0]] + samples.drop_first());
        assert(found2.drop_first() =~= seq![extra] + found.drop_first());
        let rest2 = samples2.drop_first();
        let frest2 = found2.drop_first();
        assert(rest2[0] == samples[0]);
        assert(rest2.drop_first() =~= samples.drop_first());
        assert(frest2.drop_first() =~= found.drop_first());
        assert(frest2[0] == extra);
        lemma_repeated_sample_is_idle(t, pos, btns, extra);
        assert(replay(t, pos, btns, rest2, frest2) == replay(
            next_view(t, pos, btns, pos, btns, extra),
            pos,
            btns,
            rest2.drop_first(),
            frest2.drop_first(),
        ));
    } else {
        assert(samples2.drop_first() =~= samples.drop_first().insert(i - 1 + 1, samples.drop_first()[i - 1]));
        assert(found2.drop_first() =~= found.drop_first().insert(i - 1 + 1, extra));
        lemma_repeat_collapses(t, pos, btns, samples.drop_first(), found.drop_first(), i - 1, extra);
    }
}

/// A sample equal to the previous one changes nothing and is never a press edge,
/// whatever the inspector would say.
pub proof fn lemma_repeated_sample_is_idle(
    s: StateView,
    pos: (i32, i32),
    btns: Seq<bool>,
    found: Option<(i32, i32)>,
)
    ensures
        next_view(s, pos, btns, pos, btns, found) == s,
        !is_press_edge(btns, btns),
{
}

/// While a button stays down no further press edge fires: the next edge needs a
/// sample with every button released in between.
pub proof fn lemma_held_press_never_fires(prev: Seq<bool>, cur: Seq<bool>)
    requires
        any_pressed(prev),
    ensures
        !is_press_edge(prev, cur),
{
}

/// Overwriting the element size and then reading gives that size back, with
/// position and buttons untouched.
pub proof fn lemma_size_update_then_read(s: StateView, width: i32, height: i32)
    ensures
        with_size_view(s, width, height).element_size == Some((width, height)),
        with_size_view(s, width, height).position == s.position,
        with_size_view(s, width, height).buttons == s.buttons,
{
}

/// A tick where the inspector finds nothing never changes the element size,
/// on a press edge or otherwise.
pub proof fn lemma_absent_answer_keeps_size(
    s: StateView,
    last_pos: (i32, i32),
    last_btns: Seq<bool>,
    pos: (i32, i32),
    btns: Seq<bool>,
)
    ensures
        next_view(s, last_pos, last_btns, pos, btns, None).element_size == s.element_size,
{
}

/// No tick ever clears an element size that is set.
pub proof fn lemma_size_never_cleared(
    s: StateView,
    last_pos: (i32, i32),
    last_btns: Seq<bool>,
    pos: (i32, i32),
    btns: Seq<bool>,
    found: Option<(i32, i32)>,
)
    requires
        s.element_size is Some,
    ensures
        next_view(s, last_pos, last_btns, pos, btns, found).element_size is Some,
{
}

} // verus!
