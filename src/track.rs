use vstd::prelude::*;
use vstd::std_specs::cmp::PartialEqSpec;

verus! {

/// A value paired with a flag that records whether it changed since the flag
/// was last read.
#[derive(Clone)]
pub struct TrackChange<T: PartialEq> {
    val: T,
    changed: bool,
}

impl<T: PartialEq> TrackChange<T> {
    /// The value held.
    pub closed spec fn value(self) -> T {
        self.val
    }

    /// Whether the value was marked changed since the flag was last read.
    pub closed spec fn dirty(self) -> bool {
        self.changed
    }

    /// The state after `set(v)`: unchanged when `v` equals the value held,
    /// otherwise `v` held and marked changed.
    pub open spec fn set_spec(self, v: T) -> Self {
        if v.eq_spec(&self.value()) {
            self
        } else {
            self.overwrite_spec(v)
        }
    }

    /// The state after a direct write of `v`: `v` held and marked changed,
    /// whatever was held before.
    pub closed spec fn overwrite_spec(self, v: T) -> Self {
        TrackChange { val: v, changed: true }
    }

    /// The state after reading the flag: same value, flag cleared.
    pub closed spec fn taken_spec(self) -> Self {
        TrackChange { val: self.val, changed: false }
    }

    pub broadcast proof fn lemma_overwrite_spec(self, v: T)
        ensures
            (#[trigger] self.overwrite_spec(v)).value() == v,
            self.overwrite_spec(v).dirty(),
    {
    }

    pub broadcast proof fn lemma_taken_spec(self)
        ensures
            (#[trigger] self.taken_spec()).value() == self.value(),
            !self.taken_spec().dirty(),
    {
    }

    pub fn new(val: T) -> (r: Self)
        ensures
            r.value() == val,
            !r.dirty(),
    {
        TrackChange { val, changed: false }
    }

    /// Reads the flag and clears it.
    pub fn changed(&mut self) -> (r: bool)
        ensures
            r == old(self).dirty(),
            *final(self) == old(self).taken_spec(),
            final(self).value() == old(self).value(),
            !final(self).dirty(),
    {
        let r = self.changed;
        self.changed = false;
        r
    }

    /// Stores `val` and marks the value changed, unless `val` equals the value
    /// held, in which case nothing happens.
    pub fn set(&mut self, val: T)
        ensures
            T::obeys_eq_spec() ==> *final(self) == old(self).set_spec(val),
            T::obeys_eq_spec() && val.eq_spec(&old(self).value()) ==> *final(self) == *old(self),
            T::obeys_eq_spec() && !val.eq_spec(&old(self).value()) ==> final(self).value() == val
                && final(self).dirty(),
    {
        if val == self.val {
            return;
        }
        self.changed = true;
        self.val = val;
    }

    /// Writes `val` directly and marks the value changed, even when `val`
    /// equals the value held.
    pub fn overwrite(&mut self, val: T)
        ensures
            *final(self) == old(self).overwrite_spec(val),
            final(self).value() == val,
            final(self).dirty(),
    {
        self.changed = true;
        self.val = val;
    }

    /// The value held.
    pub fn get(&self) -> (r: &T)
        ensures
            *r == self.value(),
    {
        &self.val
    }
}

/// What the state after a direct write or a read of the flag holds.
pub broadcast group group_track_change {
    TrackChange::lemma_overwrite_spec,
    TrackChange::lemma_taken_spec,
}

/// The state after calling `set` with each value of `vs` in turn.
pub open spec fn after_sets<T: PartialEq>(t: TrackChange<T>, vs: Seq<T>) -> TrackChange<T>
    decreases vs.len(),
{
    if vs.len() == 0 {
        t
    } else {
        after_sets(t, vs.drop_last()).set_spec(vs.last())
    }
}

/// Whether the `i`-th of the values `vs`, set in turn from `t`, differs from
/// the value held just before it.
pub open spec fn is_transition<T: PartialEq>(t: TrackChange<T>, vs: Seq<T>, i: int) -> bool {
    !vs[i].eq_spec(&after_sets(t, vs.take(i)).value())
}

/// After any sequence of `set` calls, the flag is raised exactly when it was
/// raised before or some call stored a value different from the one held
/// just before it; calls that repeat the value held leave the flag as it was.
pub proof fn lemma_dirty_iff_transition<T: PartialEq>(t: TrackChange<T>, vs: Seq<T>)
    ensures
        after_sets(t, vs).dirty() == (t.dirty() || exists|i: int|
            0 <= i < vs.len() && #[trigger] is_transition(t, vs, i)),
    decreases vs.len(),
{
    broadcast use group_track_change;
    if vs.len() > 0 {
        let n = vs.len() - 1;
        let front = vs.drop_last();
        lemma_dirty_iff_transition(t, front);
        assert(vs.take(n) =~= front);
        assert forall|i: int| 0 <= i < n implies is_transition(t, vs, i) == is_transition(t, front, i) by {
            assert(vs.take(i) =~= front.take(i));
        }
        if is_transition(t, vs, n) {
            assert(after_sets(t, vs).dirty());
        } else {
            assert(after_sets(t, vs) == after_sets(t, front));
            if exists|i: int| 0 <= i < vs.len() && #[trigger] is_transition(t, vs, i) {
                let i = choose|i: int| 0 <= i < vs.len() && #[trigger] is_transition(t, vs, i);
                assert(i < n);
                assert(is_transition(t, front, i));
            }
        }
    }
}

/// Reading the flag right after one `set` on a clean value gives `true`
/// exactly when the value set differs from the one held, and leaves the
/// flag clear again.
pub proof fn lemma_take_after_set<T: PartialEq>(t: TrackChange<T>, v: T)
    requires
        !t.dirty(),
    ensures
        t.set_spec(v).dirty() == !v.eq_spec(&t.value()),
        !t.set_spec(v).taken_spec().dirty(),
{
    broadcast use group_track_change;
}

/// A direct write marks the value changed even when it writes the value held.
pub proof fn lemma_overwrite_marks<T: PartialEq>(t: TrackChange<T>)
    ensures
        t.overwrite_spec(t.value()).dirty(),
        t.overwrite_spec(t.value()).value() == t.value(),
{
    broadcast use group_track_change;
}

} // verus!
