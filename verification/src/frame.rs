//! One frame's event poll for one window: input events fold, in order, into
//! the cached mouse position, the closed flag, and the decision whether this
//! frame takes a snapshot.

use vstd::prelude::*;
use crate::windows::DisplayState;

verus! {

/// One input event the windowing system reports for a window.
#[derive(Clone, Copy, Debug, PartialEq, Eq, Structural)]
pub enum Event {
    /// The user asked to close the window.
    Closed,
    /// The pointer moved to this position, in window pixel coordinates.
    MouseMoved(i32, i32),
    /// The primary mouse button was pressed.
    LeftPressed,
    /// Any other event; the loop ignores it.
    Other,
}

/// Whether a position lies strictly inside a `width` by `height` window.
/// A press exactly on a boundary pixel is not inside.
pub open spec fn strictly_inside(x: int, y: int, width: int, height: int) -> bool {
    0 < x && 0 < y && x < width && y < height
}

/// What a frame's event poll folds into: the cached mouse position, the
/// closed flag, and whether a snapshot was requested this frame.
pub ghost struct PollModel {
    pub mouse_x: int,
    pub mouse_y: int,
    pub done: bool,
    pub snap: bool,
}

/// How one event changes the poll state. A press requests a snapshot only
/// when the mouse position cached at that moment is strictly inside the
/// window; a close is never undone within the frame.
pub open spec fn step_event(m: PollModel, e: Event, width: int, height: int) -> PollModel {
    match e {
        Event::Closed => (PollModel { done: true, ..m }),
        Event::MouseMoved(x, y) => (PollModel { mouse_x: x as int, mouse_y: y as int, ..m }),
        Event::LeftPressed => (PollModel {
            snap: m.snap || strictly_inside(m.mouse_x, m.mouse_y, width, height),
            ..m
        }),
        Event::Other => m,
    }
}

/// The poll state after folding a whole event sequence, first event first.
pub open spec fn poll_events(m: PollModel, es: Seq<Event>, width: int, height: int) -> PollModel
    decreases es.len(),
{
    if es.len() == 0 {
        m
    } else {
        poll_events(step_event(m, es[0], width, height), es.drop_first(), width, height)
    }
}

/// Folding a concatenation folds the two parts in turn.
pub proof fn lemma_poll_events_concat(
    m: PollModel,
    a: Seq<Event>,
    b: Seq<Event>,
    width: int,
    height: int,
)
    ensures
        poll_events(m, a + b, width, height) == poll_events(
            poll_events(m, a, width, height),
            b,
            width,
            height,
        ),
    decreases a.len(),
{
    if a.len() == 0 {
        assert(a + b =~= b);
    } else {
        assert((a + b).drop_first() =~= a.drop_first() + b);
        assert((a + b)[0] == a[0]);
        lemma_poll_events_concat(step_event(m, a[0], width, height), a.drop_first(), b, width, height);
    }
}

/// Folding one more event steps the state folded so far.
pub proof fn lemma_poll_events_snoc(m: PollModel, es: Seq<Event>, e: Event, width: int, height: int)
    ensures
        poll_events(m, es.push(e), width, height) == step_event(
            poll_events(m, es, width, height),
            e,
            width,
            height,
        ),
{
    assert(es.push(e) =~= es + seq![e]);
    lemma_poll_events_concat(m, es, seq![e], width, height);
    let m1 = poll_events(m, es, width, height);
    assert(seq![e].drop_first() =~= Seq::<Event>::empty());
    assert(seq![e][0] == e);
    assert(poll_events(step_event(m1, e, width, height), Seq::<Event>::empty(), width, height)
        == step_event(m1, e, width, height));
    assert(poll_events(m1, seq![e], width, height) == poll_events(
        step_event(m1, e, width, height),
        Seq::<Event>::empty(),
        width,
        height,
    ));
}

/// A snapshot is requested by a frame's poll exactly when it was already
/// requested, or some press event arrives while the mouse position cached at
/// that moment lies strictly inside the window. In particular a press on or
/// outside the boundary requests none, and a press strictly inside always
/// requests one.
pub proof fn lemma_snapshot_characterisation(m: PollModel, es: Seq<Event>, width: int, height: int)
    ensures
        poll_events(m, es, width, height).snap <==> (m.snap || exists|k: int|
            0 <= k < es.len() && es[k] is LeftPressed && strictly_inside(
                poll_events(m, es.take(k), width, height).mouse_x,
                poll_events(m, es.take(k), width, height).mouse_y,
                width,
                height,
            )),
    decreases es.len(),
{
    if es.len() == 0 {
    } else {
        let m1 = step_event(m, es[0], width, height);
        let tail = es.drop_first();
        lemma_snapshot_characterisation(m1, tail, width, height);
        assert(es.take(0) =~= Seq::<Event>::empty());
        assert forall|k: int| 0 <= k <= tail.len() implies poll_events(
            m,
            es.take(k + 1),
            width,
            height,
        ) == poll_events(m1, tail.take(k), width, height) by {
            assert(es.take(k + 1).len() == k + 1);
            assert(es.take(k + 1)[0] == es[0]);
            assert(es.take(k + 1).drop_first() =~= tail.take(k));
        }
        if poll_events(m, es, width, height).snap {
            // the fold over the tail from m1 requested it
            if m1.snap {
                if !m.snap {
                    assert(es[0] is LeftPressed && strictly_inside(
                        poll_events(m, es.take(0), width, height).mouse_x,
                        poll_events(m, es.take(0), width, height).mouse_y,
                        width,
                        height,
                    ));
                }
            } else {
                let k = choose|k: int|
                    0 <= k < tail.len() && tail[k] is LeftPressed && strictly_inside(
                        poll_events(m1, tail.take(k), width, height).mouse_x,
                        poll_events(m1, tail.take(k), width, height).mouse_y,
                        width,
                        height,
                    );
                assert(es[k + 1] is LeftPressed && strictly_inside(
                    poll_events(m, es.take(k + 1), width, height).mouse_x,
                    poll_events(m, es.take(k + 1), width, height).mouse_y,
                    width,
                    height,
                ));
            }
        } else {
            if m.snap {
                assert(false);
            }
            assert forall|k: int|
                0 <= k < es.len() && es[k] is LeftPressed implies !strictly_inside(
                poll_events(m, es.take(k), width, height).mouse_x,
                poll_events(m, es.take(k), width, height).mouse_y,
                width,
                height,
            ) by {
                if k == 0 {
                    // a press inside at the very start would set m1.snap
                } else {
                    assert(tail[k - 1] == es[k]);
                    assert(poll_events(m, es.take(k), width, height) == poll_events(
                        m1,
                        tail.take(k - 1),
                        width,
                        height,
                    ));
                }
            }
        }
    }
}

/// The poll state a window starts a frame with: its cached mouse position and
/// closed flag, and no snapshot requested yet.
pub open spec fn poll_start(d: DisplayState) -> PollModel {
    PollModel { mouse_x: d.mouse_x as int, mouse_y: d.mouse_y as int, done: d.done, snap: false }
}

/// Folds one frame's events into a window's cached state, in order, and
/// reports whether this frame takes a snapshot of the window. The window's
/// identity, program source and uniform set are untouched.
pub fn process_events(d: &mut DisplayState, events: &Vec<Event>, width: u32, height: u32) -> (snap:
    bool)
    ensures
        ({
            let r = poll_events(poll_start(*old(d)), events@, width as int, height as int);
            &&& final(d).mouse_x as int == r.mouse_x
            &&& final(d).mouse_y as int == r.mouse_y
            &&& final(d).done == r.done
            &&& snap == r.snap
        }),
        final(d).handle == old(d).handle,
        final(d).source@ == old(d).source@,
        final(d).uniforms@ == old(d).uniforms@,
{
    let ghost start = poll_start(*d);
    let mut snap = false;
    let mut k: usize = 0;
    while k < events.len()
        invariant
            k <= events@.len(),
            ({
                let r = poll_events(start, events@.take(k as int), width as int, height as int);
                &&& d.mouse_x as int == r.mouse_x
                &&& d.mouse_y as int == r.mouse_y
                &&& d.done == r.done
                &&& snap == r.snap
            }),
            d.handle == old(d).handle,
            d.source@ == old(d).source@,
            d.uniforms@ == old(d).uniforms@,
        decreases events@.len() - k,
    {
        let e = events[k];
        proof {
            assert(events@.take(k as int + 1) =~= events@.take(k as int).push(events@[k as int]));
            lemma_poll_events_snoc(
                start,
                events@.take(k as int),
                events@[k as int],
                width as int,
                height as int,
            );
        }
        match e {
            Event::Closed => {
                d.done = true;
            },
            Event::MouseMoved(x, y) => {
                d.mouse_x = x;
                d.mouse_y = y;
            },
            Event::LeftPressed => {
                if d.mouse_x > 0 && d.mouse_y > 0 && (d.mouse_x as i64) < (width as i64)
                    && (d.mouse_y as i64) < (height as i64) {
                    snap = true;
                }
            },
            Event::Other => {},
        }
        k = k + 1;
    }
    proof {
        assert(events@.take(events@.len() as int) =~= events@);
    }
    snap
}

} // verus!
