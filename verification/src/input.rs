//! Input state: which movement keys are held, and the net displacement they ask for.

use vstd::multiset::Multiset;
use vstd::prelude::*;

verus! {

/// The physical keys the frame loop reacts to. Every other key is `Other`.
#[derive(Clone, Copy, Debug, PartialEq, Eq, Structural)]
pub enum KeyCode {
    KeyW,
    KeyS,
    KeyA,
    KeyD,
    Space,
    ShiftLeft,
    Escape,
    KeyF,
    Other,
}

/// Whether a key or button went down or came up.
#[derive(Clone, Copy, Debug, PartialEq, Eq, Structural)]
pub enum ElementState {
    Pressed,
    Released,
}

/// A pointer button.
#[derive(Clone, Copy, Debug, PartialEq, Eq, Structural)]
pub enum MouseButton {
    Left,
    Right,
    Middle,
    Other,
}

/// A displacement in whole steps along the three movement axes of the camera:
/// `along` the horizontal direction of view, `across` it (its perpendicular in
/// the horizontal plane), and `up` the fixed vertical axis. One step is the
/// distance covered in the elapsed time at the camera's speed.
#[derive(Clone, Copy, Debug, PartialEq, Eq, Structural)]
pub struct Movement {
    pub along: i8,
    pub across: i8,
    pub up: i8,
}

/// A displacement in whole steps, unbounded.
pub struct Steps {
    pub along: int,
    pub across: int,
    pub up: int,
}

impl Steps {
    /// No displacement.
    pub open spec fn zero() -> Steps {
        Steps { along: 0, across: 0, up: 0 }
    }

    /// The vector sum of two displacements.
    pub open spec fn plus(self, other: Steps) -> Steps {
        Steps {
            along: self.along + other.along,
            across: self.across + other.across,
            up: self.up + other.up,
        }
    }
}

impl View for Movement {
    type V = Steps;

    open spec fn view(&self) -> Steps {
        Steps { along: self.along as int, across: self.across as int, up: self.up as int }
    }
}

/// What one held key adds to the position, in steps. The forward key moves
/// against the direction of view and the back key with it; the left key adds
/// the perpendicular and the right key takes it away; the two vertical keys
/// move along the up axis. Any other key adds nothing.
pub open spec fn contribution(key: KeyCode) -> Steps {
    match key {
        KeyCode::KeyW => Steps { along: -1, across: 0, up: 0 },
        KeyCode::KeyS => Steps { along: 1, across: 0, up: 0 },
        KeyCode::KeyA => Steps { along: 0, across: 1, up: 0 },
        KeyCode::KeyD => Steps { along: 0, across: -1, up: 0 },
        KeyCode::Space => Steps { along: 0, across: 0, up: 1 },
        KeyCode::ShiftLeft => Steps { along: 0, across: 0, up: -1 },
        _ => Steps::zero(),
    }
}

/// The vector sum of the contributions of `keys`, taken in the order given.
pub open spec fn total(keys: Seq<KeyCode>) -> Steps
    decreases keys.len(),
{
    if keys.len() == 0 {
        Steps::zero()
    } else {
        total(keys.drop_last()).plus(contribution(keys.last()))
    }
}

/// 1 if `key` is held, else 0.
pub open spec fn held_count(held: Set<KeyCode>, key: KeyCode) -> int {
    if held.contains(key) {
        1
    } else {
        0
    }
}

/// The net displacement that a set of held keys asks for: opposite keys cancel.
pub open spec fn net_movement(held: Set<KeyCode>) -> Steps {
    Steps {
        along: held_count(held, KeyCode::KeyS) - held_count(held, KeyCode::KeyW),
        across: held_count(held, KeyCode::KeyA) - held_count(held, KeyCode::KeyD),
        up: held_count(held, KeyCode::Space) - held_count(held, KeyCode::ShiftLeft),
    }
}

/// Summing is additive: the total of two runs of keys, one after the other, is
/// the sum of their totals.
pub proof fn total_is_additive(a: Seq<KeyCode>, b: Seq<KeyCode>)
    ensures
        total(a + b) == total(a).plus(total(b)),
    decreases b.len(),
{
    if b.len() == 0 {
        assert(a + b =~= a);
    } else {
        assert((a + b).drop_last() =~= a + b.drop_last());
        assert((a + b).last() == b.last());
        total_is_additive(a, b.drop_last());
    }
}

/// Summing is commutative: swapping two runs of keys leaves the total as it was.
pub proof fn total_is_commutative(a: Seq<KeyCode>, b: Seq<KeyCode>)
    ensures
        total(a + b) == total(b + a),
{
    total_is_additive(a, b);
    total_is_additive(b, a);
}

/// How often `key` occurs in `keys`.
pub open spec fn occurrences(keys: Seq<KeyCode>, key: KeyCode) -> int {
    keys.to_multiset().count(key) as int
}

/// The total of a run of keys is a matter of how often each key occurs in it:
/// the occurrences of a key less those of its opposite, on each axis.
pub proof fn total_counts_occurrences(keys: Seq<KeyCode>)
    ensures
        total(keys) == (Steps {
            along: occurrences(keys, KeyCode::KeyS) - occurrences(keys, KeyCode::KeyW),
            across: occurrences(keys, KeyCode::KeyA) - occurrences(keys, KeyCode::KeyD),
            up: occurrences(keys, KeyCode::Space) - occurrences(keys, KeyCode::ShiftLeft),
        }),
    decreases keys.len(),
{
    if keys.len() == 0 {
        assert(keys.to_multiset() =~= Multiset::<KeyCode>::empty()) by {
            keys.to_multiset_ensures();
        }
    } else {
        let front = keys.drop_last();
        total_counts_occurrences(front);
        assert(keys =~= front.push(keys.last()));
        vstd::seq_lib::to_multiset_build(front, keys.last());
    }
}

/// The total does not depend on the order of the keys: two runs that hold the
/// same keys equally often, in whatever order, have the same total.
pub proof fn total_is_invariant_under_reordering(a: Seq<KeyCode>, b: Seq<KeyCode>)
    requires
        a.to_multiset() == b.to_multiset(),
    ensures
        total(a) == total(b),
{
    total_counts_occurrences(a);
    total_counts_occurrences(b);
}

/// For every way of listing the held keys once each, the sum of their
/// individual contributions is the net movement of the set: the order in which
/// the keys are visited does not matter.
pub proof fn total_of_distinct_keys_is_net_movement(keys: Seq<KeyCode>)
    requires
        keys.no_duplicates(),
    ensures
        total(keys) == net_movement(keys.to_set()),
    decreases keys.len(),
{
    if keys.len() == 0 {
        assert(keys.to_set() =~= Set::<KeyCode>::empty());
    } else {
        let front = keys.drop_last();
        let last = keys.last();
        assert(front.no_duplicates());
        total_of_distinct_keys_is_net_movement(front);
        assert(!front.to_set().contains(last)) by {
            if front.to_set().contains(last) {
                let i = choose|i: int| 0 <= i < front.len() && front[i] == last;
                assert(keys[i] == keys[keys.len() - 1]);
            }
        }
        assert(keys.to_set() =~= front.to_set().insert(last)) by {
            assert forall|k: KeyCode| keys.to_set().contains(k) implies front.to_set().insert(
                last,
            ).contains(k) by {
                let i = choose|i: int| 0 <= i < keys.len() && keys[i] == k;
                if i < keys.len() - 1 {
                    assert(front[i] == k);
                }
            }
            assert forall|k: KeyCode| front.to_set().insert(last).contains(
                k,
            ) implies keys.to_set().contains(k) by {
                if k == last {
                    assert(keys[keys.len() - 1] == k);
                } else {
                    let i = choose|i: int| 0 <= i < front.len() && front[i] == k;
                    assert(keys[i] == k);
                }
            }
        }
    }
}

/// The set of keys that are down. Each key is kept at most once; the order in
/// which they went down is not part of the value.
pub struct HeldKeys {
    keys: Vec<KeyCode>,
}

impl View for HeldKeys {
    type V = Set<KeyCode>;

    closed spec fn view(&self) -> Set<KeyCode> {
        self.keys@.to_set()
    }
}

impl HeldKeys {
    #[verifier::type_invariant]
    spec fn distinct(&self) -> bool {
        self.keys@.no_duplicates()
    }

    /// No key is held.
    pub fn new() -> (held: HeldKeys)
        ensures
            held@ == Set::<KeyCode>::empty(),
    {
        let held = HeldKeys { keys: Vec::new() };
        assert(held.keys@.to_set() =~= Set::<KeyCode>::empty());
        held
    }

    /// Whether `key` is held.
    pub fn contains(&self, key: KeyCode) -> (found: bool)
        ensures
            found == self@.contains(key),
    {
        self.position(key).is_some()
    }

    /// How many keys are held.
    pub fn len(&self) -> (n: usize)
        ensures
            n == self@.len(),
    {
        proof {
            use_type_invariant(self);
            self.keys@.unique_seq_to_set();
        }
        self.keys.len()
    }

    fn position(&self, key: KeyCode) -> (at: Option<usize>)
        ensures
            match at {
                Some(i) => i < self.keys.len() && self.keys[i as int] == key,
                None => !self@.contains(key),
            },
    {
        let mut i: usize = 0;
        while i < self.keys.len()
            invariant
                i <= self.keys.len(),
                forall|j: int| 0 <= j < i ==> self.keys[j] != key,
            decreases self.keys.len() - i,
        {
            if self.keys[i] == key {
                return Some(i);
            }
            i += 1;
        }
        None
    }

    /// Marks `key` as held. Says whether it was not held before.
    pub fn insert(&mut self, key: KeyCode) -> (fresh: bool)
        ensures
            final(self)@ == old(self)@.insert(key),
            fresh == !old(self)@.contains(key),
    {
        proof {
            use_type_invariant(&*self);
        }
        match self.position(key) {
            Some(_) => {
                assert(self@.insert(key) =~= self@);
                false
            },
            None => {
                let ghost before = self.keys@;
                let mut keys: Vec<KeyCode> = Vec::new();
                core::mem::swap(&mut self.keys, &mut keys);
                keys.push(key);
                let ghost after = keys@;
                assert(after == before.push(key));
                assert(after.no_duplicates()) by {
                    assert forall|i: int, j: int|
                        0 <= i < after.len() && 0 <= j < after.len() && i != j implies after[i]
                        != after[j] by {
                        if i < before.len() {
                            assert(before.to_set().contains(before[i]));
                        }
                        if j < before.len() {
                            assert(before.to_set().contains(before[j]));
                        }
                    }
                }
                assert(after.to_set() =~= before.to_set().insert(key)) by {
                    assert forall|k: KeyCode|
                        before.to_set().insert(key).contains(k) implies after.to_set().contains(
                        k,
                    ) by {
                        if k == key {
                            assert(after[before.len() as int] == k);
                        } else {
                            let i = choose|i: int| 0 <= i < before.len() && before[i] == k;
                            assert(after[i] == k);
                        }
                    }
                    assert forall|k: KeyCode|
                        after.to_set().contains(k) implies before.to_set().insert(key).contains(
                        k,
                    ) by {
                        let i = choose|i: int| 0 <= i < after.len() && after[i] == k;
                        if i < before.len() {
                            assert(before[i] == k);
                        }
                    }
                }
                self.keys = keys;
                true
            },
        }
    }

    /// Marks `key` as no longer held. Says whether it was held before.
    pub fn remove(&mut self, key: KeyCode) -> (was_held: bool)
        ensures
            final(self)@ == old(self)@.remove(key),
            was_held == old(self)@.contains(key),
    {
        proof {
            use_type_invariant(&*self);
        }
        match self.position(key) {
            Some(i) => {
                let ghost before = self.keys@;
                let mut keys: Vec<KeyCode> = Vec::new();
                core::mem::swap(&mut self.keys, &mut keys);
                keys.remove(i);
                let ghost after = keys@;
                assert(after == before.remove(i as int));
                assert(after.no_duplicates()) by {
                    assert forall|a: int, b: int|
                        0 <= a < after.len() && 0 <= b < after.len() && a != b implies after[a]
                        != after[b] by {
                        let a0 = if a < i { a } else { a + 1 };
                        let b0 = if b < i { b } else { b + 1 };
                        assert(after[a] == before[a0]);
                        assert(after[b] == before[b0]);
                    }
                }
                assert(after.to_set() =~= before.to_set().remove(key)) by {
                    assert forall|k: KeyCode|
                        before.to_set().remove(key).contains(k) implies after.to_set().contains(
                        k,
                    ) by {
                        let j = choose|j: int| 0 <= j < before.len() && before[j] == k;
                        if j < i {
                            assert(after[j] == k);
                        } else {
                            assert(after[j - 1] == k);
                        }
                    }
                    assert forall|k: KeyCode|
                        after.to_set().contains(k) implies before.to_set().remove(key).contains(
                        k,
                    ) by {
                        let j = choose|j: int| 0 <= j < after.len() && after[j] == k;
                        let j0 = if j < i { j } else { j + 1 };
                        assert(before[j0] == k);
                    }
                }
                self.keys = keys;
                true
            },
            None => {
                assert(self@.remove(key) =~= self@);
                false
            },
        }
    }

    /// The net displacement that the held keys ask for, in steps: the sum of
    /// what each held key contributes, whatever the order they are visited in.
    pub fn movement(&self) -> (net: Movement)
        ensures
            net@ == net_movement(self@),
    {
        proof {
            use_type_invariant(self);
        }
        let mut net = Movement { along: 0, across: 0, up: 0 };
        let mut i: usize = 0;
        while i < self.keys.len()
            invariant
                i <= self.keys.len(),
                self.keys@.no_duplicates(),
                net@ == total(self.keys@.take(i as int)),
            decreases self.keys.len() - i,
        {
            let ghost seen = self.keys@.take(i as int);
            let ghost next = self.keys@.take(i + 1);
            proof {
                assert(next.drop_last() =~= seen);
                assert(next.last() == self.keys@[i as int]);
                assert(next.no_duplicates());
                total_of_distinct_keys_is_net_movement(next);
            }
            match self.keys[i] {
                KeyCode::KeyW => {
                    net.along = net.along - 1;
                },
                KeyCode::KeyS => {
                    net.along = net.along + 1;
                },
                KeyCode::KeyA => {
                    net.across = net.across + 1;
                },
                KeyCode::KeyD => {
                    net.across = net.across - 1;
                },
                KeyCode::Space => {
                    net.up = net.up + 1;
                },
                KeyCode::ShiftLeft => {
                    net.up = net.up - 1;
                },
                _ => {},
            }
            i += 1;
        }
        proof {
            assert(self.keys@.take(self.keys.len() as int) =~= self.keys@);
            total_of_distinct_keys_is_net_movement(self.keys@);
        }
        net
    }
}

} // verus!
