//! Turns two successive samples into the events that separate them.
//!
//! Three rules apply, in this order: a changed position gives one move; a
//! changed, non-empty set of held buttons gives one click; every key that
//! is held now and was not held before gives one key press, in the order
//! of the current sample. Releases and sustained holds give nothing.

use vstd::prelude::*;
use crate::event::{EventKind, InputEvent, InputEventView};
use crate::geometry::{Position, Rectangle};
use crate::sample::{RawInputSample, RawInputSampleView};

verus! {

/// The contents of a list of events.
pub open spec fn event_views(events: Seq<InputEvent>) -> Seq<InputEventView> {
    events.map_values(|e: InputEvent| e@)
}

/// The note on a move to `to`: whether the window covers it, when the
/// window's rectangle is known.
pub open spec fn window_side(window_bounds: Option<Rectangle>, to: Position) -> Option<bool> {
    match window_bounds {
        Some(bounds) => Some(bounds.covers(to)),
        None => None,
    }
}

/// The move rule: one event when the position changed.
pub open spec fn move_events(
    previous: RawInputSampleView,
    current: RawInputSampleView,
    window_bounds: Option<Rectangle>,
) -> Seq<InputEventView> {
    if current.position != previous.position {
        seq![
            InputEventView::MouseMoved {
                from: previous.position,
                to: current.position,
                inside_window: window_side(window_bounds, current.position),
            },
        ]
    } else {
        Seq::empty()
    }
}

/// The click rule: one event, carrying every current level, when the set
/// of held buttons changed and is not empty.
pub open spec fn click_events(
    previous: RawInputSampleView,
    current: RawInputSampleView,
) -> Seq<InputEventView> {
    if current.pressed() != previous.pressed() && current.pressed() != Set::<int>::empty() {
        seq![InputEventView::MouseClicked { buttons: current.buttons }]
    } else {
        Seq::empty()
    }
}

/// The test "is not among `keys`".
pub open spec fn absent_from(keys: Seq<Seq<char>>) -> spec_fn(Seq<char>) -> bool {
    |k: Seq<char>| !keys.contains(k)
}

/// The keys of `current` that `previous` does not hold, in the order of
/// `current`.
pub open spec fn new_keys(previous: Seq<Seq<char>>, current: Seq<Seq<char>>) -> Seq<Seq<char>> {
    current.filter(absent_from(previous))
}

/// The press of the key named `key`.
pub open spec fn key_press(key: Seq<char>) -> InputEventView {
    InputEventView::KeyPressed { key }
}

/// The key rule: one event for each newly held key.
pub open spec fn key_events(previous: Seq<Seq<char>>, current: Seq<Seq<char>>) -> Seq<
    InputEventView,
> {
    new_keys(previous, current).map_values(|k: Seq<char>| key_press(k))
}

/// Everything that separates `current` from `previous`: the move, then
/// the click, then the key presses.
pub open spec fn detected(
    previous: RawInputSampleView,
    current: RawInputSampleView,
    window_bounds: Option<Rectangle>,
) -> Seq<InputEventView> {
    move_events(previous, current, window_bounds) + click_events(previous, current) + key_events(
        previous.keys,
        current.keys,
    )
}

/// The test "is of class `kind`".
pub open spec fn of_kind(kind: EventKind) -> spec_fn(InputEventView) -> bool {
    |e: InputEventView| e.kind() == kind
}

/// The number of events of class `kind` in `events`.
pub open spec fn count_of(events: Seq<InputEventView>, kind: EventKind) -> nat {
    events.filter(of_kind(kind)).len()
}

proof fn lemma_new_keys_step(previous: Seq<Seq<char>>, current: Seq<Seq<char>>, i: int)
    requires
        0 <= i < current.len(),
    ensures
        new_keys(previous, current.take(i + 1)) == if previous.contains(current[i]) {
            new_keys(previous, current.take(i))
        } else {
            new_keys(previous, current.take(i)).push(current[i])
        },
{
    reveal(Seq::filter);
    assert(current.take(i + 1).drop_last() =~= current.take(i));
}

fn copy_levels(levels: &Vec<bool>) -> (copy: Vec<bool>)
    ensures
        copy@ == levels@,
{
    let mut copy: Vec<bool> = Vec::new();
    let mut i: usize = 0;
    while i < levels.len()
        invariant
            i <= levels.len(),
            copy@ == levels@.take(i as int),
        decreases levels.len() - i,
    {
        copy.push(levels[i]);
        i += 1;
        assert(copy@ =~= levels@.take(i as int));
    }
    assert(levels@.take(levels.len() as int) =~= levels@);
    copy
}

/// Detects the events that separate `current` from `previous`.
///
/// The result holds, in this order: one move if the position changed,
/// noted as inside or outside `window_bounds` when that is given; one
/// click if the set of held buttons changed and is not empty; one key
/// press for each key of `current` that `previous` does not hold.
pub fn diff(
    previous: &RawInputSample,
    current: &RawInputSample,
    window_bounds: Option<Rectangle>,
) -> (events: Vec<InputEvent>)
    ensures
        event_views(events@) == detected(previous@, current@, window_bounds),
{
    let mut events: Vec<InputEvent> = Vec::new();
    if current.position != previous.position {
        let inside_window = match window_bounds {
            Some(bounds) => Some(bounds.contains(current.position)),
            None => None,
        };
        events.push(
            InputEvent::MouseMoved {
                from: previous.position,
                to: current.position,
                inside_window,
            },
        );
    }
    if !current.same_buttons(previous) && current.any_button_pressed() {
        events.push(InputEvent::MouseClicked { buttons: copy_levels(&current.buttons) });
    }
    let ghost head = event_views(events@);
    assert(head =~= move_events(previous@, current@, window_bounds) + click_events(
        previous@,
        current@,
    ));
    assert(current@.keys.take(0) =~= Seq::<Seq<char>>::empty());
    assert(new_keys(previous@.keys, Seq::<Seq<char>>::empty()) =~= Seq::<Seq<char>>::empty()) by {
        reveal(Seq::filter);
    }
    let mut i: usize = 0;
    while i < current.keys.len()
        invariant
            i <= current.keys.len(),
            event_views(events@) =~= head + key_events(
                previous@.keys,
                current@.keys.take(i as int),
            ),
        decreases current.keys.len() - i,
    {
        let ghost before = event_views(events@);
        let ghost name = current@.keys[i as int];
        let ghost seen = new_keys(previous@.keys, current@.keys.take(i as int));
        proof {
            lemma_new_keys_step(previous@.keys, current@.keys, i as int);
        }
        if !previous.holds_key(&current.keys[i]) {
            events.push(InputEvent::KeyPressed { key: current.keys[i].clone() });
            assert(event_views(events@) =~= before.push(InputEventView::KeyPressed { key: name }));
            assert(key_events(previous@.keys, current@.keys.take(i + 1)) =~= key_events(
                previous@.keys,
                current@.keys.take(i as int),
            ).push(InputEventView::KeyPressed { key: name })) by {
                assert(new_keys(previous@.keys, current@.keys.take(i + 1)) == seen.push(name));
            }
        }
        i += 1;
    }
    assert(current@.keys.take(current.keys.len() as int) =~= current@.keys);
    events
}

proof fn lemma_filter_members<A>(s: Seq<A>, pred: spec_fn(A) -> bool)
    ensures
        forall|x: A| s.filter(pred).contains(x) <==> s.contains(x) && pred(x),
    decreases s.len(),
{
    reveal(Seq::filter);
    if s.len() > 0 {
        let front = s.drop_last();
        lemma_filter_members(front, pred);
        assert forall|x: A| s.filter(pred).contains(x) <==> s.contains(x) && pred(x) by {
            assert(s =~= front.push(s.last()));
            if s.contains(x) {
                let j = choose|j: int| 0 <= j < s.len() && s[j] == x;
                if j < front.len() {
                    assert(front[j] == x);
                }
            }
            if front.contains(x) {
                let j = choose|j: int| 0 <= j < front.len() && front[j] == x;
                assert(s[j] == x);
            }
            if front.filter(pred).contains(x) {
                let j = choose|j: int| 0 <= j < front.filter(pred).len() && front.filter(pred)[j] == x;
                if pred(s.last()) {
                    assert(front.filter(pred).push(s.last())[j] == x);
                }
            }
            if pred(s.last()) {
                let grown = front.filter(pred).push(s.last());
                assert(grown[grown.len() - 1] == s.last());
                if grown.contains(x) {
                    let j = choose|j: int| 0 <= j < grown.len() && grown[j] == x;
                    if j < front.filter(pred).len() {
                        assert(front.filter(pred)[j] == x);
                    }
                }
            }
        }
    }
}

proof fn lemma_filter_all<A>(s: Seq<A>, pred: spec_fn(A) -> bool)
    requires
        forall|i: int| 0 <= i < s.len() ==> pred(s[i]),
    ensures
        s.filter(pred) == s,
    decreases s.len(),
{
    reveal(Seq::filter);
    if s.len() > 0 {
        lemma_filter_all(s.drop_last(), pred);
        assert(s.drop_last().push(s.last()) =~= s);
    }
}

proof fn lemma_filter_none<A>(s: Seq<A>, pred: spec_fn(A) -> bool)
    requires
        forall|i: int| 0 <= i < s.len() ==> !pred(s[i]),
    ensures
        s.filter(pred) == Seq::<A>::empty(),
    decreases s.len(),
{
    reveal(Seq::filter);
    if s.len() > 0 {
        lemma_filter_none(s.drop_last(), pred);
    }
}

proof fn lemma_count_of_parts(
    moves: Seq<InputEventView>,
    clicks: Seq<InputEventView>,
    keys: Seq<InputEventView>,
    kind: EventKind,
)
    ensures
        count_of(moves + clicks + keys, kind) == count_of(moves, kind) + count_of(clicks, kind)
            + count_of(keys, kind),
{
    Seq::filter_distributes_over_add(moves, clicks, of_kind(kind));
    Seq::filter_distributes_over_add(moves + clicks, keys, of_kind(kind));
}

proof fn lemma_count_of_uniform(events: Seq<InputEventView>, own: EventKind, kind: EventKind)
    requires
        forall|i: int| 0 <= i < events.len() ==> events[i].kind() == own,
    ensures
        count_of(events, kind) == if kind == own {
            events.len()
        } else {
            0
        },
{
    if kind == own {
        lemma_filter_all(events, of_kind(kind));
    } else {
        lemma_filter_none(events, of_kind(kind));
    }
}

/// How many events of each class the three rules give.
proof fn lemma_counts(
    previous: RawInputSampleView,
    current: RawInputSampleView,
    window_bounds: Option<Rectangle>,
    kind: EventKind,
)
    ensures
        count_of(detected(previous, current, window_bounds), kind) == match kind {
            EventKind::MouseMoved => move_events(previous, current, window_bounds).len(),
            EventKind::MouseClicked => click_events(previous, current).len(),
            EventKind::KeyPressed => new_keys(previous.keys, current.keys).len(),
        },
{
    let moves = move_events(previous, current, window_bounds);
    let clicks = click_events(previous, current);
    let keys = key_events(previous.keys, current.keys);
    lemma_count_of_parts(moves, clicks, keys, kind);
    lemma_count_of_uniform(moves, EventKind::MouseMoved, kind);
    lemma_count_of_uniform(clicks, EventKind::MouseClicked, kind);
    lemma_count_of_uniform(keys, EventKind::KeyPressed, kind);
}

/// Two samples with the same position, buttons and keys are separated by
/// no event.
pub proof fn unchanged_sample_detects_nothing(
    previous: RawInputSampleView,
    current: RawInputSampleView,
    window_bounds: Option<Rectangle>,
)
    requires
        current.position == previous.position,
        current.buttons == previous.buttons,
        current.keys == previous.keys,
    ensures
        detected(previous, current, window_bounds) == Seq::<InputEventView>::empty(),
{
    lemma_filter_none(current.keys, absent_from(previous.keys));
    assert(detected(previous, current, window_bounds) =~= Seq::<InputEventView>::empty());
}

/// Two samples that differ in position only are separated by exactly one
/// move, from the old position to the new one, and by no click and no
/// key press.
pub proof fn position_change_alone_detects_one_move(
    previous: RawInputSampleView,
    current: RawInputSampleView,
    window_bounds: Option<Rectangle>,
)
    requires
        current.position != previous.position,
        current.buttons == previous.buttons,
        current.keys == previous.keys,
    ensures
        detected(previous, current, window_bounds) == seq![
            InputEventView::MouseMoved {
                from: previous.position,
                to: current.position,
                inside_window: window_side(window_bounds, current.position),
            },
        ],
        count_of(detected(previous, current, window_bounds), EventKind::MouseMoved) == 1,
        count_of(detected(previous, current, window_bounds), EventKind::MouseClicked) == 0,
        count_of(detected(previous, current, window_bounds), EventKind::KeyPressed) == 0,
{
    lemma_filter_none(current.keys, absent_from(previous.keys));
    assert(detected(previous, current, window_bounds) =~= move_events(
        previous,
        current,
        window_bounds,
    ));
    lemma_counts(previous, current, window_bounds, EventKind::MouseMoved);
    lemma_counts(previous, current, window_bounds, EventKind::MouseClicked);
    lemma_counts(previous, current, window_bounds, EventKind::KeyPressed);
}

/// A set of held buttons that changed and is not empty gives exactly one
/// click, which carries every current level; an empty set gives no click,
/// whatever was held before.
pub proof fn click_detected_on_press_only(
    previous: RawInputSampleView,
    current: RawInputSampleView,
    window_bounds: Option<Rectangle>,
)
    ensures
        current.pressed() != Set::<int>::empty() && current.pressed() != previous.pressed() ==> {
            &&& count_of(detected(previous, current, window_bounds), EventKind::MouseClicked) == 1
            &&& detected(previous, current, window_bounds).contains(
                InputEventView::MouseClicked { buttons: current.buttons },
            )
        },
        current.pressed() == Set::<int>::empty() ==> count_of(
            detected(previous, current, window_bounds),
            EventKind::MouseClicked,
        ) == 0,
{
    lemma_counts(previous, current, window_bounds, EventKind::MouseClicked);
    if current.pressed() != Set::<int>::empty() && current.pressed() != previous.pressed() {
        let all = detected(previous, current, window_bounds);
        let at = move_events(previous, current, window_bounds).len() as int;
        assert(all[at] == InputEventView::MouseClicked { buttons: current.buttons });
    }
}

/// There are as many key presses as keys of the current sample that the
/// previous one does not hold. A key held in both samples gives none, and
/// neither does a key that the current sample does not hold.
pub proof fn key_presses_match_new_keys(
    previous: RawInputSampleView,
    current: RawInputSampleView,
    window_bounds: Option<Rectangle>,
)
    ensures
        count_of(detected(previous, current, window_bounds), EventKind::KeyPressed) == new_keys(
            previous.keys,
            current.keys,
        ).len(),
        forall|key: Seq<char>|
            detected(previous, current, window_bounds).contains(#[trigger] key_press(key))
                <==> current.keys.contains(key) && !previous.keys.contains(key),
{
    lemma_counts(previous, current, window_bounds, EventKind::KeyPressed);
    lemma_filter_members(current.keys, absent_from(previous.keys));
    let moves = move_events(previous, current, window_bounds);
    let clicks = click_events(previous, current);
    let fresh = new_keys(previous.keys, current.keys);
    let presses = key_events(previous.keys, current.keys);
    let all = detected(previous, current, window_bounds);
    assert forall|key: Seq<char>|
        all.contains(#[trigger] key_press(key)) <==> current.keys.contains(key)
            && !previous.keys.contains(key) by {
        let press = key_press(key);
        if all.contains(press) {
            let j = choose|j: int| 0 <= j < all.len() && all[j] == press;
            let offset = moves.len() + clicks.len();
            assert(j >= offset);
            assert(presses[j - offset] == press);
            assert(fresh[j - offset] == key);
            assert(fresh.contains(key));
        }
        if current.keys.contains(key) && !previous.keys.contains(key) {
            assert(fresh.contains(key));
            let j = choose|j: int| 0 <= j < fresh.len() && fresh[j] == key;
            assert(presses[j] == press);
            assert(all[moves.len() + clicks.len() + j] == press);
        }
    }
}

} // verus!
