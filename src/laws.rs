//! What holds of the controller over whole sequences of events.
use vstd::prelude::*;
use vstd::arithmetic::power::lemma_pow_positive;
use crate::view::{
    handles, next_controller, next_view, scale_fraction, step_down, step_up, zoom_in, zoom_out,
    InputEvent, Key, View, ViewController, MAX_ZOOM, SCALE_STEP_DEN, SCALE_STEP_NUM,
};

verus! {

/// Controller and camera after the events of `evs`, in order.
pub open spec fn run(c: ViewController, v: View, evs: Seq<InputEvent>) -> (ViewController, View)
    decreases evs.len(),
{
    if evs.len() == 0 {
        (c, v)
    } else {
        run(next_controller(c, evs[0]), next_view(v, evs[0]), evs.drop_first())
    }
}

/// `n` presses of one key.
pub open spec fn presses(key: Key, n: nat) -> Seq<InputEvent> {
    Seq::new(n, |i: int| InputEvent::Key { key, pressed: true })
}

/// The key that undoes `key`.
pub open spec fn opposite(key: Key) -> Key {
    match key {
        Key::Equals => Key::Minus,
        Key::Minus => Key::Equals,
        Key::W => Key::S,
        Key::S => Key::W,
        Key::A => Key::D,
        Key::D => Key::A,
        Key::Other => Key::Other,
    }
}

/// Whether `n` presses of `key` from `v` stay clear of the bounds, so that
/// none of them is clamped.
pub open spec fn room_for(v: View, key: Key, n: nat) -> bool {
    match key {
        Key::Equals => v.zoom + n <= MAX_ZOOM,
        Key::Minus => v.zoom - n >= -MAX_ZOOM,
        Key::W => v.steps_y + n <= i64::MAX,
        Key::S => v.steps_y - n >= i64::MIN,
        Key::D => v.steps_x + n <= i64::MAX,
        Key::A => v.steps_x - n >= i64::MIN,
        Key::Other => true,
    }
}

/// The camera after `n` unclamped presses of `key`.
pub open spec fn shifted(v: View, key: Key, n: int) -> View {
    match key {
        Key::Equals => View { zoom: (v.zoom + n) as i64, ..v },
        Key::Minus => View { zoom: (v.zoom - n) as i64, ..v },
        Key::W => View { steps_y: (v.steps_y + n) as i64, ..v },
        Key::S => View { steps_y: (v.steps_y - n) as i64, ..v },
        Key::D => View { steps_x: (v.steps_x + n) as i64, ..v },
        Key::A => View { steps_x: (v.steps_x - n) as i64, ..v },
        Key::Other => v,
    }
}

/// Running `a` then `b` is running `a + b`.
pub proof fn lemma_run_append(c: ViewController, v: View, a: Seq<InputEvent>, b: Seq<InputEvent>)
    ensures
        run(c, v, a + b) == run(run(c, v, a).0, run(c, v, a).1, b),
    decreases a.len(),
{
    if a.len() == 0 {
        assert(a + b =~= b);
    } else {
        assert((a + b).drop_first() =~= a.drop_first() + b);
        lemma_run_append(next_controller(c, a[0]), next_view(v, a[0]), a.drop_first(), b);
    }
}

/// `n` presses of a key, none clamped, move the camera by `n` steps and leave
/// the controller as it was.
pub proof fn lemma_presses(c: ViewController, v: View, key: Key, n: nat)
    requires
        room_for(v, key, n),
    ensures
        run(c, v, presses(key, n)) == (c, shifted(v, key, n as int)),
    decreases n,
{
    if n == 0 {
        assert(shifted(v, key, 0) == v);
    } else {
        let e = InputEvent::Key { key, pressed: true };
        assert(presses(key, n)[0] == e);
        assert(presses(key, n).drop_first() =~= presses(key, (n - 1) as nat));
        let v1 = next_view(v, e);
        assert(next_controller(c, e) == c);
        assert(room_for(v1, key, (n - 1) as nat));
        lemma_presses(c, v1, key, (n - 1) as nat);
        assert(shifted(v1, key, n - 1) == shifted(v, key, n as int));
    }
}

/// Pressing a key `n` times and then its opposite `n` times gives back the
/// camera and the controller unchanged, provided the first run is not clamped.
/// For the zoom keys this is the zoom round trip (the scale comes back), for
/// W/S and A/D the nudge round trip (the offset comes back).
pub proof fn lemma_opposite_keys_cancel(c: ViewController, v: View, key: Key, n: nat)
    requires
        v.wf(),
        room_for(v, key, n),
    ensures
        run(c, v, presses(key, n) + presses(opposite(key), n)) == (c, v),
{
    lemma_run_append(c, v, presses(key, n), presses(opposite(key), n));
    lemma_presses(c, v, key, n);
    let v1 = shifted(v, key, n as int);
    assert(room_for(v1, opposite(key), n));
    lemma_presses(c, v1, opposite(key), n);
    assert(shifted(v1, opposite(key), n as int) == v);
}

/// How many presses of `key` there are among `evs`.
pub open spec fn count_presses(evs: Seq<InputEvent>, key: Key) -> int
    decreases evs.len(),
{
    if evs.len() == 0 {
        0
    } else {
        (if evs[0] == (InputEvent::Key { key, pressed: true }) {
            1int
        } else {
            0int
        }) + count_presses(evs.drop_first(), key)
    }
}

/// Whether the nudge counts of `v` can move by `n` in either direction
/// without reaching the bounds of `i64`.
pub open spec fn nudge_room(v: View, n: int) -> bool {
    i64::MIN <= v.steps_x - n && v.steps_x + n <= i64::MAX && i64::MIN <= v.steps_y - n
        && v.steps_y + n <= i64::MAX
}

/// Over any sequence of events, in any order, the offset set by key nudges
/// moves by one step for each W, S, A or D press, in that key's direction.
pub proof fn lemma_nudges_add_up(c: ViewController, v: View, evs: Seq<InputEvent>)
    requires
        nudge_room(v, evs.len() as int),
    ensures
        run(c, v, evs).1.steps_x == v.steps_x + count_presses(evs, Key::D) - count_presses(evs, Key::A),
        run(c, v, evs).1.steps_y == v.steps_y + count_presses(evs, Key::W) - count_presses(evs, Key::S),
    decreases evs.len(),
{
    if evs.len() > 0 {
        let c1 = next_controller(c, evs[0]);
        let v1 = next_view(v, evs[0]);
        assert(nudge_room(v1, evs.len() - 1));
        lemma_nudges_add_up(c1, v1, evs.drop_first());
    }
}

/// Presses of W and S in equal numbers, and of A and D in equal numbers, in
/// any order and among any other events, give the offset set by key nudges
/// back.
pub proof fn lemma_balanced_nudges_cancel(c: ViewController, v: View, evs: Seq<InputEvent>)
    requires
        nudge_room(v, evs.len() as int),
        count_presses(evs, Key::W) == count_presses(evs, Key::S),
        count_presses(evs, Key::A) == count_presses(evs, Key::D),
    ensures
        run(c, v, evs).1.steps_x == v.steps_x,
        run(c, v, evs).1.steps_y == v.steps_y,
{
    lemma_nudges_add_up(c, v, evs);
}

/// A scroll zooms exactly as the zoom keys do: up as `=`, down as `-`.
pub proof fn lemma_scroll_matches_keys(c: ViewController, v: View, up: bool)
    ensures
        ({
            let key = if up { Key::Equals } else { Key::Minus };
            let k = InputEvent::Key { key, pressed: true };
            let s = InputEvent::Scroll { up };
            next_view(v, s) == next_view(v, k) && next_controller(c, s) == next_controller(c, k)
                && handles(s) && handles(k)
        }),
{
}

/// An event that the controller does not consume changes nothing.
pub proof fn lemma_unhandled_is_inert(c: ViewController, v: View, e: InputEvent)
    requires
        !handles(e),
    ensures
        next_controller(c, e) == c,
        next_view(v, e) == v,
{
}

/// After any sequence of events a well-formed camera is still well formed, and
/// its scale is a positive fraction.
pub proof fn lemma_scale_stays_positive(c: ViewController, v: View, evs: Seq<InputEvent>)
    requires
        v.wf(),
    ensures
        run(c, v, evs).1.wf(),
        scale_fraction(run(c, v, evs).1.zoom as int).0 > 0,
        scale_fraction(run(c, v, evs).1.zoom as int).1 > 0,
    decreases evs.len(),
{
    if evs.len() > 0 {
        lemma_scale_stays_positive(next_controller(c, evs[0]), next_view(v, evs[0]), evs.drop_first());
    } else {
        let z = v.zoom as int;
        if z >= 0 {
            lemma_pow_positive(SCALE_STEP_NUM as int, z as nat);
            lemma_pow_positive(SCALE_STEP_DEN as int, z as nat);
        } else {
            lemma_pow_positive(SCALE_STEP_NUM as int, (-z) as nat);
            lemma_pow_positive(SCALE_STEP_DEN as int, (-z) as nat);
        }
    }
}

} // verus!
