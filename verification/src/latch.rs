//! The input latch.
//!
//! Keyboard and controller key states are merged into one
//! boolean-per-button vector by OR across sources, and only edge
//! transitions of the merged state are reported, so the emulation core is
//! never re-notified while any source still holds a button.  Losing
//! window focus clears the keyboard source, releasing whatever only the
//! keyboard held.

use vstd::prelude::*;

verus! {

pub const PAD_KEY_COUNT: usize = 16;

pub const INPUT_SOURCE_COUNT: usize = 2;

/// The digital controller buttons of the PlayStation pad.
#[derive(Clone, Copy, Debug, PartialEq, Eq, Structural)]
pub enum PadKey {
    Select,
    L3,
    R3,
    Start,
    Up,
    Right,
    Down,
    Left,
    L2,
    R2,
    L1,
    R1,
    Triangle,
    Circle,
    Cross,
    Square,
}

impl PadKey {
    pub open spec fn spec_idx(self) -> int {
        match self {
            PadKey::Select => 0,
            PadKey::L3 => 1,
            PadKey::R3 => 2,
            PadKey::Start => 3,
            PadKey::Up => 4,
            PadKey::Right => 5,
            PadKey::Down => 6,
            PadKey::Left => 7,
            PadKey::L2 => 8,
            PadKey::R2 => 9,
            PadKey::L1 => 10,
            PadKey::R1 => 11,
            PadKey::Triangle => 12,
            PadKey::Circle => 13,
            PadKey::Cross => 14,
            PadKey::Square => 15,
        }
    }

    pub fn idx(self) -> (r: usize)
        ensures
            r == self.spec_idx(),
            r < PAD_KEY_COUNT,
    {
        match self {
            PadKey::Select => 0,
            PadKey::L3 => 1,
            PadKey::R3 => 2,
            PadKey::Start => 3,
            PadKey::Up => 4,
            PadKey::Right => 5,
            PadKey::Down => 6,
            PadKey::Left => 7,
            PadKey::L2 => 8,
            PadKey::R2 => 9,
            PadKey::L1 => 10,
            PadKey::R1 => 11,
            PadKey::Triangle => 12,
            PadKey::Circle => 13,
            PadKey::Cross => 14,
            PadKey::Square => 15,
        }
    }
}

/// The key at a given latch index.
pub open spec fn spec_key_of(i: int) -> PadKey {
    if i == 0 {
        PadKey::Select
    } else if i == 1 {
        PadKey::L3
    } else if i == 2 {
        PadKey::R3
    } else if i == 3 {
        PadKey::Start
    } else if i == 4 {
        PadKey::Up
    } else if i == 5 {
        PadKey::Right
    } else if i == 6 {
        PadKey::Down
    } else if i == 7 {
        PadKey::Left
    } else if i == 8 {
        PadKey::L2
    } else if i == 9 {
        PadKey::R2
    } else if i == 10 {
        PadKey::L1
    } else if i == 11 {
        PadKey::R1
    } else if i == 12 {
        PadKey::Triangle
    } else if i == 13 {
        PadKey::Circle
    } else if i == 14 {
        PadKey::Cross
    } else {
        PadKey::Square
    }
}

/// Every digital key once, in latch-index order.
pub fn all_keys() -> (r: Vec<PadKey>)
    ensures
        r@.len() == PAD_KEY_COUNT,
        forall|i: int| 0 <= i < PAD_KEY_COUNT ==> r@[i] == spec_key_of(i),
        forall|i: int| 0 <= i < PAD_KEY_COUNT ==> (#[trigger] r@[i]).spec_idx() == i,
{
    let mut r: Vec<PadKey> = Vec::new();
    r.push(PadKey::Select);
    r.push(PadKey::L3);
    r.push(PadKey::R3);
    r.push(PadKey::Start);
    r.push(PadKey::Up);
    r.push(PadKey::Right);
    r.push(PadKey::Down);
    r.push(PadKey::Left);
    r.push(PadKey::L2);
    r.push(PadKey::R2);
    r.push(PadKey::L1);
    r.push(PadKey::R1);
    r.push(PadKey::Triangle);
    r.push(PadKey::Circle);
    r.push(PadKey::Cross);
    r.push(PadKey::Square);
    r
}

/// One independent input source feeding the latch.
#[derive(Clone, Copy, Debug, PartialEq, Eq, Structural)]
pub enum InputSource {
    Keyboard,
    Controller,
}

impl InputSource {
    pub open spec fn spec_idx(self) -> int {
        match self {
            InputSource::Keyboard => 0,
            InputSource::Controller => 1,
        }
    }

    pub fn idx(self) -> (r: usize)
        ensures
            r == self.spec_idx(),
            r < INPUT_SOURCE_COUNT,
    {
        match self {
            InputSource::Keyboard => 0,
            InputSource::Controller => 1,
        }
    }
}

pub struct InputLatch {
    pub sources: [[bool; 16]; 2],
    pub combined: [bool; 16],
}

impl InputLatch {
    /// The merged state is everywhere the OR of the two sources.
    pub open spec fn wf(self) -> bool {
        forall|k: int|
            0 <= k < 16 ==> #[trigger] self.combined@[k] == (self.sources@[0]@[k]
                || self.sources@[1]@[k])
    }

    pub fn new() -> (r: InputLatch)
        ensures
            r.wf(),
            forall|k: int| 0 <= k < 16 ==> !(#[trigger] r.combined@[k]),
            forall|s: int, k: int|
                0 <= s < 2 && 0 <= k < 16 ==> !(#[trigger] r.sources@[s]@[k]),
    {
        InputLatch { sources: [[false;16];2], combined: [false;16] }
    }

    /// Latches one source's state for one key.  The merged state is
    /// recomputed; if and only if it changed, the new value is returned
    /// for forwarding to the emulation core.
    pub fn set(&mut self, source: InputSource, key: PadKey, pressed: bool) -> (notify: Option<
        bool,
    >)
        requires
            old(self).wf(),
        ensures
            final(self).wf(),
            final(self).sources@[source.spec_idx()]@[key.spec_idx()] == pressed,
            forall|s: int, k: int|
                0 <= s < 2 && 0 <= k < 16 && !(s == source.spec_idx() && k == key.spec_idx())
                    ==> #[trigger] final(self).sources@[s]@[k] == old(self).sources@[s]@[k],
            forall|k: int|
                0 <= k < 16 && k != key.spec_idx() ==> #[trigger] final(self).combined@[k] == old(self).combined@[k],
            notify == (if final(self).combined@[key.spec_idx()] != old(self).combined@[
                key.spec_idx()] {
                Some(final(self).combined@[key.spec_idx()])
            } else {
                Option::<bool>::None
            }),
    {
        let si = source.idx();
        let ki = key.idx();
        let mut row = self.sources[si];
        row[ki] = pressed;
        self.sources[si] = row;
        let next = self.sources[0][ki] || self.sources[1][ki];
        if next != self.combined[ki] {
            self.combined[ki] = next;
            Some(next)
        } else {
            None
        }
    }

    /// Clears every key of one source, as on focus loss: the core is
    /// notified of a release for exactly the keys that were merged-held
    /// and are not held by the other source.
    pub fn clear_source(&mut self, source: InputSource) -> (released: Vec<(PadKey, bool)>)
        requires
            old(self).wf(),
        ensures
            final(self).wf(),
            forall|k: int|
                0 <= k < 16 ==> !(#[trigger] final(self).sources@[source.spec_idx()]@[k]),
            forall|k: int|
                0 <= k < 16 ==> #[trigger] final(self).sources@[1 - source.spec_idx()]@[k] == old(self).sources@[1 - source.spec_idx()]@[k],
            forall|k: int|
                0 <= k < 16 ==> (#[trigger] old(self).combined@[k] && !old(self).sources@[1
                    - source.spec_idx()]@[k]) == released@.contains((spec_key_of(k), false)),
            forall|i: int|
                0 <= i < released@.len() ==> (#[trigger] released@[i]).1 == false,
    {
        let keys = all_keys();
        let mut released: Vec<(PadKey, bool)> = Vec::new();
        let mut i: usize = 0;
        while i < PAD_KEY_COUNT
            invariant
                keys@.len() == PAD_KEY_COUNT,
                forall|k: int| 0 <= k < PAD_KEY_COUNT ==> keys@[k] == spec_key_of(k),
                forall|k: int|
                    0 <= k < PAD_KEY_COUNT ==> (#[trigger] keys@[k]).spec_idx() == k,
                i <= PAD_KEY_COUNT,
                self.wf(),
                forall|k: int|
                    0 <= k < i ==> !(#[trigger] self.sources@[source.spec_idx()]@[k]),
                forall|k: int|
                    i <= k < 16 ==> #[trigger] self.sources@[source.spec_idx()]@[k] == old(self).sources@[source.spec_idx()]@[k],
                forall|k: int|
                    0 <= k < 16 ==> #[trigger] self.sources@[1 - source.spec_idx()]@[k] == old(self).sources@[1 - source.spec_idx()]@[k],
                forall|k: int|
                    i <= k < 16 ==> #[trigger] self.combined@[k] == old(self).combined@[k],
                forall|k: int|
                    0 <= k < i ==> (#[trigger] old(self).combined@[k] && !old(self).sources@[1
                        - source.spec_idx()]@[k]) == released@.contains((spec_key_of(k), false)),
                forall|k: int|
                    i <= k < 16 ==> !released@.contains((spec_key_of(k), false)),
                forall|j: int| 0 <= j < released@.len() ==> (#[trigger] released@[j]).1 == false,
            decreases PAD_KEY_COUNT - i,
        {
            let key = keys[i];
            let ghost pre = released@;
            let notify = self.set(source, key, false);
            match notify {
                Some(v) => {
                    released.push((key, v));
                    proof {
                        assert(released@ =~= pre.push((spec_key_of(i as int), false)));
                        assert(released@[released@.len() - 1] == (spec_key_of(i as int), false));
                        assert(released@.contains((spec_key_of(i as int), false)));
                        assert forall|k: int|
                            0 <= k < 16 && k != i implies released@.contains(
                            (spec_key_of(k), false),
                        ) == pre.contains((spec_key_of(k), false)) by {
                            assert(spec_key_of(k).spec_idx() == k);
                            assert(spec_key_of(i as int).spec_idx() == i);
                            if pre.contains((spec_key_of(k), false)) {
                                let j = choose|j: int|
                                    0 <= j < pre.len() && pre[j] == (spec_key_of(k), false);
                                assert(released@[j] == (spec_key_of(k), false));
                            }
                            if released@.contains((spec_key_of(k), false)) {
                                let j = choose|j: int|
                                    0 <= j < released@.len() && released@[j] == (
                                    spec_key_of(k),
                                    false,
                                    );
                                assert(j < pre.len());
                                assert(pre.contains((spec_key_of(k), false)));
                            }
                        }
                        assert(key.spec_idx() == i as int);
                        assert(old(self).combined@[i as int] && !old(self).sources@[1
                            - source.spec_idx()]@[i as int]);
                    }
                },
                None => {
                    proof {
                        assert(key.spec_idx() == i as int);
                        assert(!(old(self).combined@[i as int] && !old(self).sources@[1
                            - source.spec_idx()]@[i as int]));
                    }
                },
            }
            i = i + 1;
        }
        released
    }
}

/// A controller's digital state after normalization: one flag per pad
/// button, the triggers already thresholded.
#[derive(Clone, Copy, Debug, PartialEq, Eq, Structural)]
pub struct PadSnapshot {
    pub start: bool,
    pub select: bool,
    pub up: bool,
    pub down: bool,
    pub left: bool,
    pub right: bool,
    pub cross: bool,
    pub circle: bool,
    pub square: bool,
    pub triangle: bool,
    pub l1: bool,
    pub r1: bool,
    pub l2: bool,
    pub r2: bool,
}

/// The key/state pairs a controller snapshot latches, in the order the
/// loop forwards them.
pub open spec fn spec_controller_pairs(snap: PadSnapshot) -> Seq<(PadKey, bool)> {
    seq![
        (PadKey::Start, snap.start),
        (PadKey::Select, snap.select),
        (PadKey::Up, snap.up),
        (PadKey::Down, snap.down),
        (PadKey::Left, snap.left),
        (PadKey::Right, snap.right),
        (PadKey::Cross, snap.cross),
        (PadKey::Circle, snap.circle),
        (PadKey::Square, snap.square),
        (PadKey::Triangle, snap.triangle),
        (PadKey::L1, snap.l1),
        (PadKey::R1, snap.r1),
        (PadKey::L2, snap.l2),
        (PadKey::R2, snap.r2),
    ]
}

/// Whether some pair in the list writes latch index `k`.
pub open spec fn spec_pair_writes(pairs: Seq<(PadKey, bool)>, k: int) -> bool {
    exists|j: int| 0 <= j < pairs.len() && (#[trigger] pairs[j]).0.spec_idx() == k
}

/// Latches a list of key states for one source, forwarding exactly the
/// edge transitions of the merged state.  Every listed key takes its
/// listed value; unlisted keys are untouched; each returned notification
/// carries a key's new merged value, and a listed key appears if and
/// only if its merged value changed.
pub fn apply_source_states(
    latch: &mut InputLatch,
    source: InputSource,
    pairs: &Vec<(PadKey, bool)>,
) -> (notifications: Vec<(PadKey, bool)>)
    requires
        old(latch).wf(),
        forall|a: int, b: int|
            0 <= a < b < pairs@.len() ==> (#[trigger] pairs@[a]).0.spec_idx() != (
            #[trigger] pairs@[b]).0.spec_idx(),
    ensures
        final(latch).wf(),
        forall|k: int|
            0 <= k < 16 ==> #[trigger] final(latch).sources@[1 - source.spec_idx()]@[k] == old(latch).sources@[1 - source.spec_idx()]@[k],
        forall|j: int|
            0 <= j < pairs@.len() ==> final(latch).sources@[source.spec_idx()]@[(
            #[trigger] pairs@[j]).0.spec_idx()] == pairs@[j].1,
        forall|k: int|
            0 <= k < 16 && !spec_pair_writes(pairs@, k) ==> #[trigger] final(latch).sources@[source.spec_idx()]@[k] == old(latch).sources@[source.spec_idx()]@[k],
        forall|k: int|
            0 <= k < 16 && !spec_pair_writes(pairs@, k) ==> #[trigger] final(latch).combined@[k]
                == old(latch).combined@[k],
        forall|j: int|
            0 <= j < notifications@.len() ==> ((#[trigger] notifications@[j]).1 == final(latch).combined@[notifications@[j].0.spec_idx()] && notifications@[j].1 != old(latch).combined@[notifications@[j].0.spec_idx()]),
        forall|j: int|
            0 <= j < pairs@.len() ==> ((old(latch).combined@[(#[trigger] pairs@[j]).0.spec_idx()]
                != final(latch).combined@[pairs@[j].0.spec_idx()]) == notifications@.contains(
                (pairs@[j].0, final(latch).combined@[pairs@[j].0.spec_idx()]),
            )),
{
    let n = pairs.len();
    let mut notifications: Vec<(PadKey, bool)> = Vec::new();
    let mut i: usize = 0;
    while i < n
        invariant
            n == pairs@.len(),
            i <= n,
            latch.wf(),
            forall|a: int, b: int|
                0 <= a < b < pairs@.len() ==> (#[trigger] pairs@[a]).0.spec_idx() != (
                #[trigger] pairs@[b]).0.spec_idx(),
            forall|k: int|
                0 <= k < 16 ==> #[trigger] latch.sources@[1 - source.spec_idx()]@[k] == old(latch).sources@[1 - source.spec_idx()]@[k],
            forall|j: int|
                0 <= j < i ==> latch.sources@[source.spec_idx()]@[(
                #[trigger] pairs@[j]).0.spec_idx()] == pairs@[j].1,
            forall|k: int|
                0 <= k < 16 && !(exists|j: int|
                    0 <= j < i && (#[trigger] pairs@[j]).0.spec_idx() == k)
                    ==> #[trigger] latch.sources@[source.spec_idx()]@[k] == old(latch).sources@[source.spec_idx()]@[k],
            forall|k: int|
                0 <= k < 16 && !(exists|j: int|
                    0 <= j < i && (#[trigger] pairs@[j]).0.spec_idx() == k)
                    ==> #[trigger] latch.combined@[k] == old(latch).combined@[k],
            forall|j: int|
                0 <= j < notifications@.len() ==> ((#[trigger] notifications@[j]).1
                    == latch.combined@[notifications@[j].0.spec_idx()] && notifications@[j].1
                    != old(latch).combined@[notifications@[j].0.spec_idx()]),
            forall|j: int|
                0 <= j < i ==> ((old(latch).combined@[(#[trigger] pairs@[j]).0.spec_idx()]
                    != latch.combined@[pairs@[j].0.spec_idx()]) == notifications@.contains(
                    (pairs@[j].0, latch.combined@[pairs@[j].0.spec_idx()]),
                )),
        decreases n - i,
    {
        let (key, value) = pairs[i];
        let ghost pre_notes = notifications@;
        let ghost pre_latch = *latch;
        let notify = latch.set(source, key, value);
        proof {
            assert(pairs@[i as int].0 == key);
            assert forall|j: int| 0 <= j < i implies latch.combined@[(
            #[trigger] pairs@[j]).0.spec_idx()] == pre_latch.combined@[pairs@[j].0.spec_idx()] by {
                assert(pairs@[j].0.spec_idx() != key.spec_idx());
            }
        }
        match notify {
            Some(v) => {
                notifications.push((key, v));
                proof {
                    assert(notifications@ =~= pre_notes.push((key, v)));
                    assert(notifications@[notifications@.len() - 1] == (key, v));
                    assert(notifications@.contains((key, v)));
                    assert forall|p: (PadKey, bool)|
                        p.0.spec_idx() != key.spec_idx() implies notifications@.contains(p)
                        == pre_notes.contains(p) by {
                        if pre_notes.contains(p) {
                            let j = choose|j: int| 0 <= j < pre_notes.len() && pre_notes[j] == p;
                            assert(notifications@[j] == p);
                        }
                        if notifications@.contains(p) {
                            let j = choose|j: int|
                                0 <= j < notifications@.len() && notifications@[j] == p;
                            assert(j < pre_notes.len());
                        }
                    }
                }
            },
            None => {},
        }
        proof {
            assert forall|k: int|
                0 <= k < 16 && !(exists|j: int|
                    0 <= j < i + 1 && (#[trigger] pairs@[j]).0.spec_idx() == k)
                    implies #[trigger] latch.sources@[source.spec_idx()]@[k] == old(
                latch,
            ).sources@[source.spec_idx()]@[k] by {
                assert(pairs@[i as int].0.spec_idx() != k);
                assert(!(exists|j: int|
                    0 <= j < i && (#[trigger] pairs@[j]).0.spec_idx() == k)) by {
                    if exists|j: int| 0 <= j < i && (#[trigger] pairs@[j]).0.spec_idx() == k {
                        let j = choose|j: int|
                            0 <= j < i && (#[trigger] pairs@[j]).0.spec_idx() == k;
                        assert(0 <= j < i + 1 && pairs@[j].0.spec_idx() == k);
                    }
                }
                assert(pre_latch.combined@[k] == old(latch).combined@[k]);
                assert(pre_latch.sources@[source.spec_idx()]@[k] == old(
                    latch,
                ).sources@[source.spec_idx()]@[k]);
            }
            assert forall|k: int|
                0 <= k < 16 && !(exists|j: int|
                    0 <= j < i + 1 && (#[trigger] pairs@[j]).0.spec_idx() == k)
                    implies #[trigger] latch.combined@[k] == old(latch).combined@[k] by {
                assert(pairs@[i as int].0.spec_idx() != k);
                assert(!(exists|j: int|
                    0 <= j < i && (#[trigger] pairs@[j]).0.spec_idx() == k)) by {
                    if exists|j: int| 0 <= j < i && (#[trigger] pairs@[j]).0.spec_idx() == k {
                        let j = choose|j: int|
                            0 <= j < i && (#[trigger] pairs@[j]).0.spec_idx() == k;
                        assert(0 <= j < i + 1 && pairs@[j].0.spec_idx() == k);
                    }
                }
                assert(pre_latch.sources@[source.spec_idx()]@[k] == old(
                    latch,
                ).sources@[source.spec_idx()]@[k]);
                assert(pre_latch.combined@[k] == old(latch).combined@[k]);
            }
        }
        i = i + 1;
    }
    notifications
}

/// The controller-to-pad mapping of one loop iteration, in forwarding
/// order.
pub fn controller_pairs(snap: &PadSnapshot) -> (r: Vec<(PadKey, bool)>)
    ensures
        r@ =~= spec_controller_pairs(*snap),
{
    let mut r: Vec<(PadKey, bool)> = Vec::new();
    r.push((PadKey::Start, snap.start));
    r.push((PadKey::Select, snap.select));
    r.push((PadKey::Up, snap.up));
    r.push((PadKey::Down, snap.down));
    r.push((PadKey::Left, snap.left));
    r.push((PadKey::Right, snap.right));
    r.push((PadKey::Cross, snap.cross));
    r.push((PadKey::Circle, snap.circle));
    r.push((PadKey::Square, snap.square));
    r.push((PadKey::Triangle, snap.triangle));
    r.push((PadKey::L1, snap.l1));
    r.push((PadKey::R1, snap.r1));
    r.push((PadKey::L2, snap.l2));
    r.push((PadKey::R2, snap.r2));
    r
}

/// Latches a whole controller snapshot: every pad button the controller
/// maps takes the snapshot's state, the keyboard source is untouched,
/// and exactly the edge transitions of the merged state come back for
/// forwarding to the emulation core.
pub fn sync_controller(latch: &mut InputLatch, snap: &PadSnapshot) -> (notifications: Vec<
    (PadKey, bool),
>)
    requires
        old(latch).wf(),
    ensures
        final(latch).wf(),
        forall|k: int|
            0 <= k < 16 ==> #[trigger] final(latch).sources@[0]@[k] == old(latch).sources@[0]@[k],
        forall|j: int|
            0 <= j < spec_controller_pairs(*snap).len() ==> final(latch).sources@[1]@[(
            #[trigger] spec_controller_pairs(*snap)[j]).0.spec_idx()] == spec_controller_pairs(
                *snap,
            )[j].1,
        forall|j: int|
            0 <= j < notifications@.len() ==> ((#[trigger] notifications@[j]).1 == final(latch).combined@[notifications@[j].0.spec_idx()] && notifications@[j].1 != old(latch).combined@[notifications@[j].0.spec_idx()]),
        forall|j: int|
            0 <= j < spec_controller_pairs(*snap).len() ==> ((old(latch).combined@[(
            #[trigger] spec_controller_pairs(*snap)[j]).0.spec_idx()] != final(latch).combined@[
            spec_controller_pairs(*snap)[j].0.spec_idx()]) == notifications@.contains(
                (
                    spec_controller_pairs(*snap)[j].0,
                    final(latch).combined@[spec_controller_pairs(*snap)[j].0.spec_idx()],
                ),
            )),
{
    let pairs = controller_pairs(snap);
    let notifications = apply_source_states(latch, InputSource::Controller, &pairs);
    proof {
        assert forall|k: int| 0 <= k < 16 implies #[trigger] latch.sources@[0]@[k] == old(
            latch,
        ).sources@[0]@[k] by {
            assert(latch.sources@[1 - InputSource::Controller.spec_idx()]@[k] == old(
                latch,
            ).sources@[1 - InputSource::Controller.spec_idx()]@[k]);
        }
    }
    notifications
}

/// A host keyboard key, as far as the PlayStation loop cares: the keys
/// bound to pad buttons, the two loop controls, and everything else.
#[derive(Clone, Copy, Debug, PartialEq, Eq, Structural)]
pub enum HostKey {
    ArrowUp,
    ArrowDown,
    ArrowLeft,
    ArrowRight,
    KeyZ,
    KeyX,
    KeyA,
    KeyS,
    KeyQ,
    KeyW,
    Digit1,
    Digit2,
    Enter,
    NumpadEnter,
    Space,
    Backspace,
    ShiftLeft,
    ShiftRight,
    Escape,
    KeyV,
    Other,
}

/// The keyboard binding of the PlayStation loop.
pub open spec fn spec_map_keyboard_key(code: HostKey) -> Option<PadKey> {
    match code {
        HostKey::ArrowUp => Some(PadKey::Up),
        HostKey::ArrowDown => Some(PadKey::Down),
        HostKey::ArrowLeft => Some(PadKey::Left),
        HostKey::ArrowRight => Some(PadKey::Right),
        HostKey::KeyZ => Some(PadKey::Cross),
        HostKey::KeyX => Some(PadKey::Circle),
        HostKey::KeyA => Some(PadKey::Square),
        HostKey::KeyS => Some(PadKey::Triangle),
        HostKey::KeyQ => Some(PadKey::L1),
        HostKey::KeyW => Some(PadKey::R1),
        HostKey::Digit1 => Some(PadKey::L2),
        HostKey::Digit2 => Some(PadKey::R2),
        HostKey::Enter => Some(PadKey::Start),
        HostKey::NumpadEnter => Some(PadKey::Start),
        HostKey::Space => Some(PadKey::Select),
        HostKey::Backspace => Some(PadKey::Select),
        HostKey::ShiftLeft => Some(PadKey::Select),
        HostKey::ShiftRight => Some(PadKey::Select),
        _ => None,
    }
}

pub fn map_keyboard_key(code: HostKey) -> (r: Option<PadKey>)
    ensures
        r == spec_map_keyboard_key(code),
{
    match code {
        HostKey::ArrowUp => Some(PadKey::Up),
        HostKey::ArrowDown => Some(PadKey::Down),
        HostKey::ArrowLeft => Some(PadKey::Left),
        HostKey::ArrowRight => Some(PadKey::Right),
        HostKey::KeyZ => Some(PadKey::Cross),
        HostKey::KeyX => Some(PadKey::Circle),
        HostKey::KeyA => Some(PadKey::Square),
        HostKey::KeyS => Some(PadKey::Triangle),
        HostKey::KeyQ => Some(PadKey::L1),
        HostKey::KeyW => Some(PadKey::R1),
        HostKey::Digit1 => Some(PadKey::L2),
        HostKey::Digit2 => Some(PadKey::R2),
        HostKey::Enter => Some(PadKey::Start),
        HostKey::NumpadEnter => Some(PadKey::Start),
        HostKey::Space => Some(PadKey::Select),
        HostKey::Backspace => Some(PadKey::Select),
        HostKey::ShiftLeft => Some(PadKey::Select),
        HostKey::ShiftRight => Some(PadKey::Select),
        _ => None,
    }
}

} // verus!
