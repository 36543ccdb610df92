//! Cursors over the keys of a source, in key order.
//!
//! A raw cursor mirrors the engine's: it knows the cursor's address and
//! what has been learnt of its position. A typed cursor adds the direction
//! of travel and remembers whether it has just been positioned, so that the
//! entry a seek lands on is the first one read.
//!
//! The engine moves the cursor and says whether it rests on an entry. The
//! mirror issues the moves, takes the engine's word through
//! [`DBRawIterator::observe`], and lets the entry be read only while the
//! cursor is known to rest on one.

use core::marker::PhantomData;
use vstd::prelude::*;
use vstd::slice::slice_to_vec;

use crate::engine::{Call, CallView};
use crate::handle::IterPtr;

verus! {

/// The way a cursor travels.
#[derive(Clone, Copy, PartialEq, Eq, Structural, Debug)]
pub enum Direction {
    Forward,
    Reverse,
}

/// Where an iteration starts and which way it goes.
#[derive(Clone, Copy, Debug)]
pub enum IteratorMode<'a> {
    /// From the first key, forward.
    Start,
    /// From the last key, in reverse.
    End,
    /// From a key: forward from the first key at or after it, or in reverse
    /// from the last key at or before it.
    From(&'a [u8], Direction),
}

/// What an [`IteratorMode`] stands for.
pub enum IteratorModeView {
    Start,
    End,
    From(Seq<u8>, Direction),
}

impl<'a> View for IteratorMode<'a> {
    type V = IteratorModeView;

    open spec fn view(&self) -> IteratorModeView {
        match self {
            IteratorMode::Start => IteratorModeView::Start,
            IteratorMode::End => IteratorModeView::End,
            IteratorMode::From(key, direction) => IteratorModeView::From(key@, *direction),
        }
    }
}

/// One of the four ways to position a cursor.
#[derive(Debug, PartialEq, Eq)]
pub enum Seek {
    /// On the first key.
    First,
    /// On the last key.
    Last,
    /// On the first key at or after the given one.
    To(Vec<u8>),
    /// On the last key at or before the given one.
    ForPrev(Vec<u8>),
}

/// What a [`Seek`] stands for.
pub enum SeekView {
    First,
    Last,
    To(Seq<u8>),
    ForPrev(Seq<u8>),
}

impl View for Seek {
    type V = SeekView;

    open spec fn view(&self) -> SeekView {
        match self {
            Seek::First => SeekView::First,
            Seek::Last => SeekView::Last,
            Seek::To(key) => SeekView::To(key@),
            Seek::ForPrev(key) => SeekView::ForPrev(key@),
        }
    }
}

impl SeekView {
    /// The direction in which a cursor positioned this way travels.
    pub open spec fn direction(self) -> Direction {
        match self {
            SeekView::First | SeekView::To(_) => Direction::Forward,
            SeekView::Last | SeekView::ForPrev(_) => Direction::Reverse,
        }
    }

    /// The call that positions the cursor at `iter` this way.
    pub open spec fn call(self, iter: IterPtr) -> CallView {
        match self {
            SeekView::First => CallView::IterSeekToFirst { iter },
            SeekView::Last => CallView::IterSeekToLast { iter },
            SeekView::To(key) => CallView::IterSeek { iter, key },
            SeekView::ForPrev(key) => CallView::IterSeekForPrev { iter, key },
        }
    }
}

impl IteratorModeView {
    /// The positioning that starts an iteration in this mode.
    pub open spec fn seek(self) -> SeekView {
        match self {
            IteratorModeView::Start => SeekView::First,
            IteratorModeView::End => SeekView::Last,
            IteratorModeView::From(key, Direction::Forward) => SeekView::To(key),
            IteratorModeView::From(key, Direction::Reverse) => SeekView::ForPrev(key),
        }
    }
}

impl<'a> IteratorMode<'a> {
    /// The positioning that starts an iteration in this mode.
    pub fn seek(&self) -> (s: Seek)
        ensures
            s@ == self@.seek(),
    {
        match self {
            IteratorMode::Start => Seek::First,
            IteratorMode::End => Seek::Last,
            IteratorMode::From(key, Direction::Forward) => Seek::To(slice_to_vec(key)),
            IteratorMode::From(key, Direction::Reverse) => Seek::ForPrev(slice_to_vec(key)),
        }
    }
}

impl Seek {
    /// The direction in which a cursor positioned this way travels.
    pub fn direction(&self) -> (d: Direction)
        ensures
            d == self@.direction(),
    {
        match self {
            Seek::First => Direction::Forward,
            Seek::To(_) => Direction::Forward,
            Seek::Last => Direction::Reverse,
            Seek::ForPrev(_) => Direction::Reverse,
        }
    }
}

/// What is known of where a cursor rests.
#[derive(Clone, Copy, PartialEq, Eq, Structural, Debug)]
pub enum Position {
    /// Never positioned.
    Unpositioned,
    /// Moved, and the engine has not yet said whether it rests on an entry.
    Moved,
    /// On an entry.
    Valid,
    /// Past either end, or failed.
    Invalid,
}

/// What a [`DBRawIterator`] stands for.
pub struct RawCursor {
    pub iter: IterPtr,
    pub position: Position,
}

impl RawCursor {
    /// After a positioning call: the same cursor, awaiting the engine's
    /// word.
    pub open spec fn moved(self) -> RawCursor {
        RawCursor { position: Position::Moved, ..self }
    }

    /// After a request to step: a cursor known to rest on an entry is
    /// moved, any other stays as it is.
    pub open spec fn stepped(self) -> RawCursor {
        if self.position == Position::Valid {
            self.moved()
        } else {
            self
        }
    }

    /// After the engine has said whether the cursor rests on an entry. A
    /// cursor that was never positioned rests on none, whatever is said.
    pub open spec fn observed(self, valid: bool) -> RawCursor {
        if self.position == Position::Unpositioned {
            self
        } else if valid {
            RawCursor { position: Position::Valid, ..self }
        } else {
            RawCursor { position: Position::Invalid, ..self }
        }
    }
}

/// A cursor of the engine, tied to the source it was opened on.
#[derive(Debug)]
pub struct DBRawIterator<'a> {
    inner: IterPtr,
    position: Position,
    source: PhantomData<&'a ()>,
}

impl<'a> View for DBRawIterator<'a> {
    type V = RawCursor;

    closed spec fn view(&self) -> RawCursor {
        RawCursor { iter: self.inner, position: self.position }
    }
}

impl<'a> DBRawIterator<'a> {
    pub(crate) fn new(inner: IterPtr) -> (it: DBRawIterator<'a>)
        ensures
            it@ == (RawCursor { iter: inner, position: Position::Unpositioned }),
    {
        DBRawIterator { inner, position: Position::Unpositioned, source: PhantomData }
    }

    /// The cursor's address.
    pub fn inner(&self) -> (p: IterPtr)
        ensures
            p == self@.iter,
    {
        self.inner
    }

    /// What is known of where the cursor rests.
    pub fn position(&self) -> (p: Position)
        ensures
            p == self@.position,
    {
        self.position
    }

    /// Positions the cursor as `seek` says.
    pub fn position_at(&mut self, seek: Seek) -> (c: Call)
        ensures
            c@ == seek@.call(old(self)@.iter),
            final(self)@ == old(self)@.moved(),
    {
        self.position = Position::Moved;
        match seek {
            Seek::First => Call::IterSeekToFirst { iter: self.inner },
            Seek::Last => Call::IterSeekToLast { iter: self.inner },
            Seek::To(key) => Call::IterSeek { iter: self.inner, key },
            Seek::ForPrev(key) => Call::IterSeekForPrev { iter: self.inner, key },
        }
    }

    /// Positions the cursor on the first key.
    pub fn seek_to_first(&mut self) -> (c: Call)
        ensures
            c@ == (CallView::IterSeekToFirst { iter: old(self)@.iter }),
            final(self)@ == old(self)@.moved(),
    {
        self.position_at(Seek::First)
    }

    /// Positions the cursor on the last key.
    pub fn seek_to_last(&mut self) -> (c: Call)
        ensures
            c@ == (CallView::IterSeekToLast { iter: old(self)@.iter }),
            final(self)@ == old(self)@.moved(),
    {
        self.position_at(Seek::Last)
    }

    /// Positions the cursor on the first key at or after `key`.
    pub fn seek(&mut self, key: &[u8]) -> (c: Call)
        ensures
            c@ == (CallView::IterSeek { iter: old(self)@.iter, key: key@ }),
            final(self)@ == old(self)@.moved(),
    {
        self.position_at(Seek::To(slice_to_vec(key)))
    }

    /// Positions the cursor on the last key at or before `key`.
    pub fn seek_for_prev(&mut self, key: &[u8]) -> (c: Call)
        ensures
            c@ == (CallView::IterSeekForPrev { iter: old(self)@.iter, key: key@ }),
            final(self)@ == old(self)@.moved(),
    {
        self.position_at(Seek::ForPrev(slice_to_vec(key)))
    }

    /// Steps to the next key. Only a cursor known to rest on an entry is
    /// moved; for any other nothing is asked of the engine.
    pub fn next(&mut self) -> (c: Option<Call>)
        ensures
            final(self)@ == old(self)@.stepped(),
            old(self)@.position == Position::Valid ==> c is Some && c->0@ == (CallView::IterNext {
                iter: old(self)@.iter,
            }),
            old(self)@.position != Position::Valid ==> c is None,
    {
        match self.position {
            Position::Valid => {
                self.position = Position::Moved;
                Some(Call::IterNext { iter: self.inner })
            },
            _ => None,
        }
    }

    /// Steps to the previous key. Only a cursor known to rest on an entry
    /// is moved; for any other nothing is asked of the engine.
    pub fn prev(&mut self) -> (c: Option<Call>)
        ensures
            final(self)@ == old(self)@.stepped(),
            old(self)@.position == Position::Valid ==> c is Some && c->0@ == (CallView::IterPrev {
                iter: old(self)@.iter,
            }),
            old(self)@.position != Position::Valid ==> c is None,
    {
        match self.position {
            Position::Valid => {
                self.position = Position::Moved;
                Some(Call::IterPrev { iter: self.inner })
            },
            _ => None,
        }
    }

    /// The question whether the cursor rests on an entry.
    pub fn valid(&self) -> (c: Call)
        ensures
            c@ == (CallView::IterValid { iter: self@.iter }),
    {
        Call::IterValid { iter: self.inner }
    }

    /// Takes the engine's answer to [`DBRawIterator::valid`].
    pub fn observe(&mut self, valid: bool)
        ensures
            final(self)@ == old(self)@.observed(valid),
    {
        match self.position {
            Position::Unpositioned => {},
            _ => {
                self.position = if valid {
                    Position::Valid
                } else {
                    Position::Invalid
                };
            },
        }
    }

    /// Whether the cursor is known to rest on an entry.
    pub fn is_valid(&self) -> (b: bool)
        ensures
            b == (self@.position == Position::Valid),
    {
        match self.position {
            Position::Valid => true,
            _ => false,
        }
    }

    /// The call that reads the key under the cursor; none unless the cursor
    /// is known to rest on an entry.
    pub fn key(&self) -> (c: Option<Call>)
        ensures
            self@.position == Position::Valid ==> c is Some && c->0@ == (CallView::IterKey {
                iter: self@.iter,
            }),
            self@.position != Position::Valid ==> c is None,
    {
        if self.is_valid() {
            Some(Call::IterKey { iter: self.inner })
        } else {
            None
        }
    }

    /// The call that reads the value under the cursor; none unless the
    /// cursor is known to rest on an entry.
    pub fn value(&self) -> (c: Option<Call>)
        ensures
            self@.position == Position::Valid ==> c is Some && c->0@ == (CallView::IterValue {
                iter: self@.iter,
            }),
            self@.position != Position::Valid ==> c is None,
    {
        if self.is_valid() {
            Some(Call::IterValue { iter: self.inner })
        } else {
            None
        }
    }

    /// Gives the cursor up: the call that destroys it.
    pub fn close(self) -> (c: Call)
        ensures
            c@ == (CallView::IterDestroy { iter: self@.iter }),
    {
        Call::IterDestroy { iter: self.inner }
    }
}

/// What a [`DBIterator`] stands for.
pub struct Cursor {
    pub raw: RawCursor,
    /// The direction the cursor was last positioned or moved in.
    pub direction: Direction,
    /// Whether the cursor was positioned and has not been stepped since.
    pub just_seeked: bool,
}

impl Cursor {
    /// A cursor rests when a step in direction `d` has to leave it where it
    /// is: it was just positioned for that direction, and the entry it was
    /// positioned on is still to be read.
    pub open spec fn rests(self, d: Direction) -> bool {
        self.just_seeked && self.direction == d
    }

    /// After positioning by `seek`.
    pub open spec fn positioned(self, seek: SeekView) -> Cursor {
        Cursor { raw: self.raw.moved(), direction: seek.direction(), just_seeked: true }
    }

    /// The move that a step in direction `d` asks of the engine, if any.
    pub open spec fn step_call(self, d: Direction) -> Option<CallView> {
        if !self.rests(d) && self.raw.position == Position::Valid {
            Some(
                match d {
                    Direction::Forward => CallView::IterNext { iter: self.raw.iter },
                    Direction::Reverse => CallView::IterPrev { iter: self.raw.iter },
                },
            )
        } else {
            None
        }
    }

    /// After a step in direction `d`. A resting cursor stays and rests no
    /// more. A cursor known to be on an entry moves, in direction `d` from
    /// then on. Any other is left as it is.
    pub open spec fn stepped(self, d: Direction) -> Cursor {
        if self.rests(d) {
            Cursor { just_seeked: false, ..self }
        } else if self.raw.position == Position::Valid {
            Cursor { raw: self.raw.moved(), direction: d, just_seeked: false }
        } else {
            self
        }
    }

    /// After the engine has said whether the cursor rests on an entry.
    pub open spec fn observed(self, valid: bool) -> Cursor {
        Cursor { raw: self.raw.observed(valid), ..self }
    }
}

/// A cursor with a direction of travel.
#[derive(Debug)]
pub struct DBIterator<'a> {
    raw: DBRawIterator<'a>,
    direction: Direction,
    just_seeked: bool,
}

impl<'a> View for DBIterator<'a> {
    type V = Cursor;

    closed spec fn view(&self) -> Cursor {
        Cursor { raw: self.raw@, direction: self.direction, just_seeked: self.just_seeked }
    }
}

impl<'a> DBIterator<'a> {
    /// A typed cursor over `raw`, not yet positioned.
    pub fn new(raw: DBRawIterator<'a>) -> (it: DBIterator<'a>)
        ensures
            it@ == (Cursor { raw: raw@, direction: Direction::Forward, just_seeked: false }),
    {
        DBIterator { raw, direction: Direction::Forward, just_seeked: false }
    }

    /// Starts an iteration in `mode`: positions the cursor and sets its
    /// direction.
    pub fn set_mode(&mut self, mode: IteratorMode<'_>) -> (c: Call)
        ensures
            c@ == mode@.seek().call(old(self)@.raw.iter),
            final(self)@ == old(self)@.positioned(mode@.seek()),
    {
        let seek = mode.seek();
        self.direction = seek.direction();
        self.just_seeked = true;
        self.raw.position_at(seek)
    }

    fn step(&mut self, d: Direction) -> (c: Option<Call>)
        ensures
            final(self)@ == old(self)@.stepped(d),
            match old(self)@.step_call(d) {
                Some(call) => c is Some && c->0@ == call,
                None => c is None,
            },
    {
        if self.just_seeked && self.direction == d {
            self.just_seeked = false;
            None
        } else if self.raw.is_valid() {
            self.direction = d;
            self.just_seeked = false;
            match d {
                Direction::Forward => self.raw.next(),
                Direction::Reverse => self.raw.prev(),
            }
        } else {
            None
        }
    }

    /// Steps forward. The first step after a forward positioning leaves the
    /// cursor on the entry it was positioned on.
    pub fn next(&mut self) -> (c: Option<Call>)
        ensures
            final(self)@ == old(self)@.stepped(Direction::Forward),
            match old(self)@.step_call(Direction::Forward) {
                Some(call) => c is Some && c->0@ == call,
                None => c is None,
            },
    {
        self.step(Direction::Forward)
    }

    /// Steps in reverse. The first step after a reverse positioning leaves
    /// the cursor on the entry it was positioned on.
    pub fn prev(&mut self) -> (c: Option<Call>)
        ensures
            final(self)@ == old(self)@.stepped(Direction::Reverse),
            match old(self)@.step_call(Direction::Reverse) {
                Some(call) => c is Some && c->0@ == call,
                None => c is None,
            },
    {
        self.step(Direction::Reverse)
    }

    /// Steps in the cursor's own direction: what an iteration does to reach
    /// its next entry.
    pub fn advance(&mut self) -> (c: Option<Call>)
        ensures
            final(self)@ == old(self)@.stepped(old(self)@.direction),
            match old(self)@.step_call(old(self)@.direction) {
                Some(call) => c is Some && c->0@ == call,
                None => c is None,
            },
    {
        let d = self.direction;
        self.step(d)
    }

    /// The question whether the cursor rests on an entry.
    pub fn valid(&self) -> (c: Call)
        ensures
            c@ == (CallView::IterValid { iter: self@.raw.iter }),
    {
        self.raw.valid()
    }

    /// Takes the engine's answer to [`DBIterator::valid`].
    pub fn observe(&mut self, valid: bool)
        ensures
            final(self)@ == old(self)@.observed(valid),
    {
        self.raw.observe(valid);
    }

    /// Whether the cursor is known to rest on an entry.
    pub fn is_valid(&self) -> (b: bool)
        ensures
            b == (self@.raw.position == Position::Valid),
    {
        self.raw.is_valid()
    }

    /// The calls that read the key and the value under the cursor; none
    /// unless the cursor is known to rest on an entry.
    pub fn entry(&self) -> (c: Option<(Call, Call)>)
        ensures
            match c {
                Some((key, value)) => {
                    &&& self@.raw.position == Position::Valid
                    &&& key@ == (CallView::IterKey { iter: self@.raw.iter })
                    &&& value@ == (CallView::IterValue { iter: self@.raw.iter })
                },
                None => self@.raw.position != Position::Valid,
            },
    {
        match (self.raw.key(), self.raw.value()) {
            (Some(key), Some(value)) => Some((key, value)),
            _ => None,
        }
    }

    /// The direction the cursor was last positioned or moved in.
    pub fn direction(&self) -> (d: Direction)
        ensures
            d == self@.direction,
    {
        self.direction
    }

    /// Gives the cursor up: the call that destroys it.
    pub fn close(self) -> (c: Call)
        ensures
            c@ == (CallView::IterDestroy { iter: self@.raw.iter }),
    {
        self.raw.close()
    }
}

/// A raw cursor that has been asked for and not yet received. It borrows
/// the source, and so does the cursor it becomes.
#[derive(Debug)]
pub struct PendingRawIterator<'a> {
    create: Call,
    source: PhantomData<&'a ()>,
}

impl<'a> View for PendingRawIterator<'a> {
    type V = CallView;

    /// The call that creates the cursor.
    closed spec fn view(&self) -> CallView {
        self.create@
    }
}

impl<'a> PendingRawIterator<'a> {
    pub(crate) fn new(create: Call) -> (p: PendingRawIterator<'a>)
        ensures
            p@ == create@,
    {
        PendingRawIterator { create, source: PhantomData }
    }

    /// The call that creates the cursor.
    pub fn call(&self) -> (c: &Call)
        ensures
            c@ == self@,
    {
        &self.create
    }

    /// Takes the address the engine returned: the cursor is open, and not
    /// yet positioned.
    pub fn open(self, inner: IterPtr) -> (it: DBRawIterator<'a>)
        ensures
            it@ == (RawCursor { iter: inner, position: Position::Unpositioned }),
    {
        DBRawIterator::new(inner)
    }
}

/// What a [`PendingIterator`] stands for.
pub struct PendingCursor {
    /// The call that creates the cursor.
    pub create: CallView,
    /// How the cursor is positioned once it is there.
    pub seek: SeekView,
}

/// A typed cursor that has been asked for and not yet received.
#[derive(Debug)]
pub struct PendingIterator<'a> {
    raw: PendingRawIterator<'a>,
    seek: Seek,
}

impl<'a> View for PendingIterator<'a> {
    type V = PendingCursor;

    closed spec fn view(&self) -> PendingCursor {
        PendingCursor { create: self.raw@, seek: self.seek@ }
    }
}

impl<'a> PendingIterator<'a> {
    pub(crate) fn new(raw: PendingRawIterator<'a>, mode: IteratorMode<'_>) -> (p: PendingIterator<
        'a,
    >)
        ensures
            p@ == (PendingCursor { create: raw@, seek: mode@.seek() }),
    {
        PendingIterator { raw, seek: mode.seek() }
    }

    /// The call that creates the cursor.
    pub fn call(&self) -> (c: &Call)
        ensures
            c@ == self@.create,
    {
        self.raw.call()
    }

    /// Takes the address the engine returned, and positions the cursor for
    /// the iteration that was asked for.
    pub fn open(self, inner: IterPtr) -> (r: (DBIterator<'a>, Call))
        ensures
            r.0@ == (Cursor {
                raw: RawCursor { iter: inner, position: Position::Moved },
                direction: self@.seek.direction(),
                just_seeked: true,
            }),
            r.1@ == self@.seek.call(inner),
    {
        let mut rv = DBIterator::new(self.raw.open(inner));
        rv.direction = self.seek.direction();
        rv.just_seeked = true;
        let c = rv.raw.position_at(self.seek);
        (rv, c)
    }
}

} // verus!
