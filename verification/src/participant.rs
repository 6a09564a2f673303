//! The four participants, and what is kept once for each of them.

use vstd::prelude::*;

verus! {

/// One of the four fixed identities that take part in a match.
#[derive(Clone, Copy, Debug, PartialEq, Eq, Structural, Hash)]
pub enum Participant {
    A,
    B,
    C,
    D,
}

/// A handle to an entity of the host world. The core never looks inside a
/// handle; it only stores it and hands it back.
#[derive(Clone, Copy, Debug, PartialEq, Eq, Structural, Hash)]
pub struct Entity(pub u64);

/// One resource per participant.
#[derive(Debug)]
pub struct ParticipantMap<T> {
    pub a: T,
    pub b: T,
    pub c: T,
    pub d: T,
}

impl<T> ParticipantMap<T> {
    /// The resource that belongs to `participant`.
    pub open spec fn spec_get(&self, participant: Participant) -> T {
        match participant {
            Participant::A => self.a,
            Participant::B => self.b,
            Participant::C => self.c,
            Participant::D => self.d,
        }
    }

    /// The map that holds `value` for `participant` and agrees with `self`
    /// on the other three.
    pub open spec fn spec_set(&self, participant: Participant, value: T) -> Self {
        match participant {
            Participant::A => ParticipantMap { a: value, b: self.b, c: self.c, d: self.d },
            Participant::B => ParticipantMap { a: self.a, b: value, c: self.c, d: self.d },
            Participant::C => ParticipantMap { a: self.a, b: self.b, c: value, d: self.d },
            Participant::D => ParticipantMap { a: self.a, b: self.b, c: self.c, d: value },
        }
    }

    /// The map that holds `a`, `b`, `c` and `d` for the participants of
    /// those names.
    pub fn new(a: T, b: T, c: T, d: T) -> (map: Self)
        ensures
            map.a == a,
            map.b == b,
            map.c == c,
            map.d == d,
    {
        ParticipantMap { a, b, c, d }
    }

    /// The resource that belongs to `participant`.
    pub fn get(&self, participant: Participant) -> (resource: &T)
        ensures
            *resource == self.spec_get(participant),
    {
        match participant {
            Participant::A => &self.a,
            Participant::B => &self.b,
            Participant::C => &self.c,
            Participant::D => &self.d,
        }
    }

    /// The resource that belongs to `participant`, to be changed in place.
    pub fn get_mut(&mut self, participant: Participant) -> (resource: &mut T)
        ensures
            *resource == old(self).spec_get(participant),
            *final(self) == old(self).spec_set(participant, *final(resource)),
    {
        match participant {
            Participant::A => &mut self.a,
            Participant::B => &mut self.b,
            Participant::C => &mut self.c,
            Participant::D => &mut self.d,
        }
    }

    /// Replaces the resource that belongs to `participant` by `value`.
    pub fn set(&mut self, participant: Participant, value: T)
        ensures
            *final(self) == old(self).spec_set(participant, value),
    {
        match participant {
            Participant::A => { self.a = value; },
            Participant::B => { self.b = value; },
            Participant::C => { self.c = value; },
            Participant::D => { self.d = value; },
        }
    }
}

impl<T: View> View for ParticipantMap<T> {
    type V = ParticipantMap<T::V>;

    open spec fn view(&self) -> ParticipantMap<T::V> {
        ParticipantMap { a: self.a@, b: self.b@, c: self.c@, d: self.d@ }
    }
}

} // verus!
