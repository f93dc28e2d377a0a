//! Input sampling: per-key held state that persists across frames, and the
//! edge snapshot (just pressed / just released) rebuilt from the raw event
//! queue once per frame.

use vstd::prelude::*;

verus! {

/// The fixed, closed set of tracked keys.
#[derive(Clone, Copy, Debug, PartialEq, Eq, Structural)]
pub enum Key {
    Escape,
    Up,
    Down,
    Left,
    Right,
    Space,
}

/// How many keys are tracked.
pub const KEY_COUNT: usize = 6;

/// A raw event drained from the platform's queue. A resize carries the new
/// logical output size, queried by the embedder at the moment of the event.
#[derive(Clone, Copy, Debug, PartialEq, Eq, Structural)]
pub enum RawEvent {
    KeyDown(Key),
    KeyUp(Key),
    Quit,
    Resized(u32, u32),
    Other,
}

/// The edge state of one key for the current frame.
#[derive(Clone, Copy, Debug, PartialEq, Eq, Structural)]
pub enum KeyEdge {
    NotChanged,
    JustPressed,
    JustReleased,
}

pub open spec fn key_index_spec(k: Key) -> int {
    match k {
        Key::Escape => 0,
        Key::Up => 1,
        Key::Down => 2,
        Key::Left => 3,
        Key::Right => 4,
        Key::Space => 5,
    }
}

pub open spec fn key_of_spec(j: int) -> Key {
    if j == 0 {
        Key::Escape
    } else if j == 1 {
        Key::Up
    } else if j == 2 {
        Key::Down
    } else if j == 3 {
        Key::Left
    } else if j == 4 {
        Key::Right
    } else {
        Key::Space
    }
}

pub proof fn lemma_key_index_of(k: Key)
    ensures
        0 <= key_index_spec(k) < 6,
        key_of_spec(key_index_spec(k)) == k,
{
}

pub proof fn lemma_key_of_index(j: int)
    requires
        0 <= j < 6,
    ensures
        key_index_spec(key_of_spec(j)) == j,
{
}

pub fn key_index(k: Key) -> (i: usize)
    ensures
        i as int == key_index_spec(k),
        i < KEY_COUNT,
{
    match k {
        Key::Escape => 0,
        Key::Up => 1,
        Key::Down => 2,
        Key::Left => 3,
        Key::Right => 4,
        Key::Space => 5,
    }
}

/// One raw event applied to the (held, edge) state of the key `k`. A press
/// of a key already held records nothing (no repeat while held); a release
/// always records `JustReleased` and clears the held flag.
pub open spec fn key_step(h: bool, e: KeyEdge, ev: RawEvent, k: Key) -> (bool, KeyEdge) {
    match ev {
        RawEvent::KeyDown(k2) => if k2 == k {
            if !h {
                (true, KeyEdge::JustPressed)
            } else {
                (true, e)
            }
        } else {
            (h, e)
        },
        RawEvent::KeyUp(k2) => if k2 == k {
            (false, KeyEdge::JustReleased)
        } else {
            (h, e)
        },
        _ => (h, e),
    }
}

/// The (held, edge) state of key `k` after draining a whole event queue.
pub open spec fn key_run(h: bool, e: KeyEdge, evs: Seq<RawEvent>, k: Key) -> (bool, KeyEdge)
    decreases evs.len(),
{
    if evs.len() == 0 {
        (h, e)
    } else {
        let prev = key_run(h, e, evs.drop_last(), k);
        key_step(prev.0, prev.1, evs.last(), k)
    }
}

/// The queue holds a quit request.
pub open spec fn has_quit(evs: Seq<RawEvent>) -> bool {
    exists|i: int| 0 <= i < evs.len() && evs[i] is Quit
}

/// The size recorded by the last resize event of the queue, if any.
pub open spec fn resize_run(evs: Seq<RawEvent>) -> Option<(u32, u32)>
    decreases evs.len(),
{
    if evs.len() == 0 {
        None
    } else {
        match evs.last() {
            RawEvent::Resized(w, h) => Some((w, h)),
            _ => resize_run(evs.drop_last()),
        }
    }
}

/// The edge snapshot of one frame: rebuilt empty at the start of each
/// sampling pass and discarded at the end of the frame.
#[verifier::ext_equal]
pub struct ImmediateEvents {
    pub edges: Vec<KeyEdge>,
    pub quit: bool,
    pub resize: Option<(u32, u32)>,
}

impl ImmediateEvents {
    pub open spec fn wf(self) -> bool {
        self.edges@.len() == 6
    }

    pub open spec fn spec_edges(self) -> Seq<KeyEdge> {
        self.edges@
    }

    pub open spec fn spec_edge(self, k: Key) -> KeyEdge {
        self.edges@[key_index_spec(k)]
    }

    /// A fresh snapshot: nothing has happened yet.
    pub fn new() -> (e: ImmediateEvents)
        ensures
            e.wf(),
            !e.quit,
            e.resize is None,
            forall|j: int| 0 <= j < 6 ==> e.spec_edges()[j] == KeyEdge::NotChanged,
    {
        let mut edges: Vec<KeyEdge> = Vec::new();
        let mut i: usize = 0;
        while i < KEY_COUNT
            invariant
                i <= 6,
                edges@.len() == i as int,
                forall|j: int| 0 <= j < i ==> edges@[j] == KeyEdge::NotChanged,
            decreases 6 - i,
        {
            edges.push(KeyEdge::NotChanged);
            i = i + 1;
        }
        ImmediateEvents { edges, quit: false, resize: None }
    }

    /// The edge state of `k` in this frame.
    pub fn key_edge(&self, k: Key) -> (e: KeyEdge)
        requires
            self.wf(),
        ensures
            e == self.spec_edge(k),
    {
        let i = key_index(k);
        self.edges[i]
    }
}

/// The input state: one held flag per tracked key, persisting across frames,
/// plus the edge snapshot of the current frame.
#[verifier::ext_equal]
pub struct Events {
    pub held: Vec<bool>,
    pub now: ImmediateEvents,
}

impl Events {
    pub open spec fn wf(self) -> bool {
        self.held@.len() == 6 && self.now.wf()
    }

    pub open spec fn spec_held_seq(self) -> Seq<bool> {
        self.held@
    }

    pub open spec fn spec_held(self, k: Key) -> bool {
        self.held@[key_index_spec(k)]
    }

    /// A fresh input state: no key held, nothing happened.
    pub fn new() -> (e: Events)
        ensures
            e.wf(),
            forall|j: int| 0 <= j < 6 ==> !e.spec_held_seq()[j],
            !e.now.quit,
            e.now.resize is None,
            forall|j: int| 0 <= j < 6 ==> e.now.spec_edges()[j] == KeyEdge::NotChanged,
    {
        let mut held: Vec<bool> = Vec::new();
        let mut i: usize = 0;
        while i < KEY_COUNT
            invariant
                i <= 6,
                held@.len() == i as int,
                forall|j: int| 0 <= j < i ==> !held@[j],
            decreases 6 - i,
        {
            held.push(false);
            i = i + 1;
        }
        Events { held, now: ImmediateEvents::new() }
    }

    /// Is `k` currently held?
    pub fn is_held(&self, k: Key) -> (b: bool)
        requires
            self.wf(),
        ensures
            b == self.spec_held(k),
    {
        let i = key_index(k);
        self.held[i]
    }

    /// Drain one frame's raw events: rebuild the edge snapshot from scratch
    /// and fold every event into the held flags, left to right.
    pub fn pump(&mut self, raw: &Vec<RawEvent>)
        requires
            old(self).wf(),
        ensures
            final(self).wf(),
            forall|j: int| 0 <= j < 6 ==> #[trigger] final(self).spec_held_seq()[j] == key_run(
                old(self).spec_held_seq()[j],
                KeyEdge::NotChanged,
                raw@,
                key_of_spec(j),
            ).0,
            forall|j: int| 0 <= j < 6 ==> #[trigger] final(self).now.spec_edges()[j] == key_run(
                old(self).spec_held_seq()[j],
                KeyEdge::NotChanged,
                raw@,
                key_of_spec(j),
            ).1,
            final(self).now.quit == has_quit(raw@),
            final(self).now.resize == resize_run(raw@),
    {
        self.now = ImmediateEvents::new();
        let ghost held0 = old(self).held@;
        let n = raw.len();
        let mut idx: usize = 0;
        while idx < n
            invariant
                n == raw@.len(),
                idx <= n,
                self.held@.len() == 6,
                self.now.edges@.len() == 6,
                forall|j: int| 0 <= j < 6 ==> #[trigger] self.held@[j] == key_run(
                    held0[j],
                    KeyEdge::NotChanged,
                    raw@.take(idx as int),
                    key_of_spec(j),
                ).0,
                forall|j: int| 0 <= j < 6 ==> #[trigger] self.now.edges@[j] == key_run(
                    held0[j],
                    KeyEdge::NotChanged,
                    raw@.take(idx as int),
                    key_of_spec(j),
                ).1,
                self.now.quit == (exists|i: int| 0 <= i < idx && raw@[i] is Quit),
                self.now.resize == resize_run(raw@.take(idx as int)),
            decreases n - idx,
        {
            let ev = raw[idx];
            proof {
                assert(raw@.take(idx + 1).drop_last() =~= raw@.take(idx as int));
                assert(raw@.take(idx + 1).last() == raw@[idx as int]);
            }
            let ghost pre_held = self.held@;
            let ghost pre_edges = self.now.edges@;
            match ev {
                RawEvent::KeyDown(k) => {
                    let i = key_index(k);
                    if !self.held[i] {
                        self.now.edges.set(i, KeyEdge::JustPressed);
                    }
                    self.held.set(i, true);
                    proof {
                        assert forall|j: int| 0 <= j < 6 implies #[trigger] self.held@[j]
                            == key_run(held0[j], KeyEdge::NotChanged, raw@.take(idx + 1), key_of_spec(j)).0
                            && self.now.edges@[j] == key_run(
                            held0[j],
                            KeyEdge::NotChanged,
                            raw@.take(idx + 1),
                            key_of_spec(j),
                        ).1 by {
                            lemma_key_of_index(j);
                            lemma_key_index_of(k);
                            assert(key_step(pre_held[j], pre_edges[j], ev, key_of_spec(j))
                                == (self.held@[j], self.now.edges@[j]));
                        }
                    }
                },
                RawEvent::KeyUp(k) => {
                    let i = key_index(k);
                    self.now.edges.set(i, KeyEdge::JustReleased);
                    self.held.set(i, false);
                    proof {
                        assert forall|j: int| 0 <= j < 6 implies #[trigger] self.held@[j]
                            == key_run(held0[j], KeyEdge::NotChanged, raw@.take(idx + 1), key_of_spec(j)).0
                            && self.now.edges@[j] == key_run(
                            held0[j],
                            KeyEdge::NotChanged,
                            raw@.take(idx + 1),
                            key_of_spec(j),
                        ).1 by {
                            lemma_key_of_index(j);
                            lemma_key_index_of(k);
                            assert(key_step(pre_held[j], pre_edges[j], ev, key_of_spec(j))
                                == (self.held@[j], self.now.edges@[j]));
                        }
                    }
                },
                RawEvent::Quit => {
                    self.now.quit = true;
                },
                RawEvent::Resized(w, h) => {
                    self.now.resize = Some((w, h));
                },
                RawEvent::Other => {},
            }
            idx = idx + 1;
        }
        proof {
            assert(raw@.take(n as int) =~= raw@);
        }
    }
}

/// The queue holds a press of `k`.
pub open spec fn has_down(evs: Seq<RawEvent>, k: Key) -> bool {
    exists|i: int| 0 <= i < evs.len() && evs[i] == RawEvent::KeyDown(k)
}

/// The queue holds a release of `k`.
pub open spec fn has_up(evs: Seq<RawEvent>, k: Key) -> bool {
    exists|i: int| 0 <= i < evs.len() && evs[i] == RawEvent::KeyUp(k)
}

/// A held key stays held through a queue with no release of it, and its edge
/// state is untouched: repeated presses while held record nothing.
pub proof fn lemma_key_run_no_up(h: bool, e: KeyEdge, evs: Seq<RawEvent>, k: Key)
    requires
        h,
        !has_up(evs, k),
    ensures
        key_run(h, e, evs, k) == (true, e),
    decreases evs.len(),
{
    if evs.len() > 0 {
        assert(!has_up(evs.drop_last(), k)) by {
            if has_up(evs.drop_last(), k) {
                let i = choose|i: int|
                    0 <= i < evs.drop_last().len() && evs.drop_last()[i] == RawEvent::KeyUp(k);
                assert(evs[i] == RawEvent::KeyUp(k));
            }
        }
        if evs.last() == RawEvent::KeyUp(k) {
            assert(evs[evs.len() - 1] == RawEvent::KeyUp(k));
            assert(has_up(evs, k));
        }
        lemma_key_run_no_up(h, e, evs.drop_last(), k);
    }
}

/// Draining a queue with no release of `k`, starting from a released key and
/// a clean edge, yields `JustPressed` exactly when the queue presses `k`.
pub proof fn lemma_key_run_press(evs: Seq<RawEvent>, k: Key)
    requires
        !has_up(evs, k),
    ensures
        key_run(false, KeyEdge::NotChanged, evs, k) == if has_down(evs, k) {
            (true, KeyEdge::JustPressed)
        } else {
            (false, KeyEdge::NotChanged)
        },
    decreases evs.len(),
{
    if evs.len() > 0 {
        assert(!has_up(evs.drop_last(), k)) by {
            if has_up(evs.drop_last(), k) {
                let i = choose|i: int|
                    0 <= i < evs.drop_last().len() && evs.drop_last()[i] == RawEvent::KeyUp(k);
                assert(evs[i] == RawEvent::KeyUp(k));
            }
        }
        if evs.last() == RawEvent::KeyUp(k) {
            assert(evs[evs.len() - 1] == RawEvent::KeyUp(k));
            assert(has_up(evs, k));
        }
        lemma_key_run_press(evs.drop_last(), k);
        if evs.last() == RawEvent::KeyDown(k) {
            assert(evs[evs.len() - 1] == RawEvent::KeyDown(k));
            assert(has_down(evs, k));
        } else {
            assert(has_down(evs, k) == has_down(evs.drop_last(), k)) by {
                if has_down(evs, k) {
                    let i = choose|i: int| 0 <= i < evs.len() && evs[i] == RawEvent::KeyDown(k);
                    assert(i < evs.len() - 1);
                    assert(evs.drop_last()[i] == RawEvent::KeyDown(k));
                }
                if has_down(evs.drop_last(), k) {
                    let i = choose|i: int|
                        0 <= i < evs.drop_last().len() && evs.drop_last()[i] == RawEvent::KeyDown(
                            k,
                        );
                    assert(evs[i] == RawEvent::KeyDown(k));
                }
            }
        }
    }
}

/// A queue that releases `k` and never presses it leaves the key released
/// with a `JustReleased` edge, whatever state it started from.
pub proof fn lemma_key_run_release(h: bool, e: KeyEdge, evs: Seq<RawEvent>, k: Key)
    requires
        has_up(evs, k),
        !has_down(evs, k),
    ensures
        key_run(h, e, evs, k) == (false, KeyEdge::JustReleased),
    decreases evs.len(),
{
    if evs.last() == RawEvent::KeyUp(k) {
    } else {
        assert(has_up(evs.drop_last(), k)) by {
            let i = choose|i: int| 0 <= i < evs.len() && evs[i] == RawEvent::KeyUp(k);
            assert(i < evs.len() - 1);
            assert(evs.drop_last()[i] == RawEvent::KeyUp(k));
        }
        assert(!has_down(evs.drop_last(), k)) by {
            if has_down(evs.drop_last(), k) {
                let i = choose|i: int|
                    0 <= i < evs.drop_last().len() && evs.drop_last()[i] == RawEvent::KeyDown(k);
                assert(evs[i] == RawEvent::KeyDown(k));
            }
        }
        lemma_key_run_release(h, e, evs.drop_last(), k);
        if evs.last() == RawEvent::KeyDown(k) {
            assert(evs[evs.len() - 1] == RawEvent::KeyDown(k));
            assert(has_down(evs, k));
        }
    }
}

/// The held flag of `k` after a sequence of frames, each a drained queue,
/// starting from a released key and sampling each frame in order.
pub open spec fn held_through(h0: bool, frames: Seq<Seq<RawEvent>>, k: Key) -> bool
    decreases frames.len(),
{
    if frames.len() == 0 {
        h0
    } else {
        key_run(held_through(h0, frames.drop_last(), k), KeyEdge::NotChanged, frames.last(), k).0
    }
}

/// The edge that frame `i` reports for `k`: each frame starts from a clean
/// edge snapshot and the held flags left by the frames before it.
pub open spec fn frame_edge(h0: bool, frames: Seq<Seq<RawEvent>>, i: int, k: Key) -> KeyEdge {
    key_run(held_through(h0, frames.take(i), k), KeyEdge::NotChanged, frames[i], k).1
}

/// The key stays held after each of the first `i` frames of a hold:
/// a press in the first frame, no release up to frame `i`.
proof fn lemma_held_prefix(frames: Seq<Seq<RawEvent>>, k: Key, i: int)
    requires
        1 <= i <= frames.len(),
        has_down(frames[0], k),
        !has_up(frames[0], k),
        forall|j: int| 1 <= j < i ==> !has_up(#[trigger] frames[j], k),
    ensures
        held_through(false, frames.take(i), k),
    decreases i,
{
    assert(frames.take(i).drop_last() =~= frames.take(i - 1));
    assert(frames.take(i).last() == frames[i - 1]);
    if i == 1 {
        assert(frames.take(0).len() == 0);
        assert(held_through(false, frames.take(0), k) == false);
        lemma_key_run_press(frames[0], k);
        assert(key_run(false, KeyEdge::NotChanged, frames[0], k).0);
        assert(held_through(false, frames.take(1), k) == key_run(
            held_through(false, frames.take(0), k),
            KeyEdge::NotChanged,
            frames[0],
            k,
        ).0);
    } else {
        lemma_held_prefix(frames, k, i - 1);
        lemma_key_run_no_up(
            true,
            KeyEdge::NotChanged,
            frames[i - 1],
            k,
        );
    }
}

/// Holding a key across consecutive frames reports exactly one
/// `JustPressed`, on the frame the key becomes held; `JustReleased` exactly
/// on the frame it is released; and `NotChanged` on every frame between,
/// even if the queue repeats the press while the key is held.
pub proof fn lemma_one_press_per_hold(frames: Seq<Seq<RawEvent>>, k: Key)
    requires
        frames.len() >= 2,
        has_down(frames[0], k),
        !has_up(frames[0], k),
        forall|i: int| 1 <= i < frames.len() - 1 ==> !has_up(#[trigger] frames[i], k),
        has_up(frames[frames.len() - 1], k),
        !has_down(frames[frames.len() - 1], k),
    ensures
        frame_edge(false, frames, 0, k) == KeyEdge::JustPressed,
        forall|i: int| 1 <= i < frames.len() - 1 ==> frame_edge(false, frames, i, k)
            == KeyEdge::NotChanged,
        frame_edge(false, frames, frames.len() - 1, k) == KeyEdge::JustReleased,
        forall|i: int| 0 <= i < frames.len() ==> (frame_edge(false, frames, i, k)
            == KeyEdge::JustPressed <==> i == 0),
{
    assert(frames.take(0) =~= Seq::<Seq<RawEvent>>::empty());
    lemma_key_run_press(frames[0], k);
    assert(frame_edge(false, frames, 0, k) == KeyEdge::JustPressed);
    assert forall|i: int| 1 <= i < frames.len() - 1 implies frame_edge(false, frames, i, k)
        == KeyEdge::NotChanged by {
        lemma_held_prefix(frames, k, i);
        lemma_key_run_no_up(true, KeyEdge::NotChanged, frames[i], k);
    }
    lemma_key_run_release(
        held_through(false, frames.take(frames.len() - 1), k),
        KeyEdge::NotChanged,
        frames[frames.len() - 1],
        k,
    );
}

} // verus!
