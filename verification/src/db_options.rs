//! Option values: what a database or column family is opened with, and how
//! reads and flushes are tuned.
//!
//! An option value is a recipe, not an engine object: an optional
//! engine-side object to start from, and the named settings to lay over it,
//! in the order in which they were made. Whoever talks to the engine builds
//! the object from the recipe.

use vstd::prelude::*;
use vstd::string::*;

use crate::handle::{ConstHandle, OptionsPtr, SnapshotPtr};

verus! {

/// What an [`Options`] value stands for.
pub struct OptionsView {
    /// The engine-side object the recipe starts from; the engine's defaults
    /// when there is none.
    pub base: Option<OptionsPtr>,
    /// Name and value of each setting, oldest first.
    pub settings: Seq<(Seq<char>, Seq<char>)>,
}

/// Options of a database or of one column family.
#[derive(Debug, PartialEq, Eq)]
pub struct Options {
    base: Option<OptionsPtr>,
    settings: Vec<(String, String)>,
}

/// The recipe with no base and no settings: the engine's defaults.
pub open spec fn default_options() -> OptionsView {
    OptionsView { base: None, settings: Seq::empty() }
}

impl View for Options {
    type V = OptionsView;

    closed spec fn view(&self) -> OptionsView {
        OptionsView {
            base: self.base,
            settings: Seq::new(
                self.settings@.len(),
                |i: int| (self.settings@[i].0@, self.settings@[i].1@),
            ),
        }
    }
}

impl Default for Options {
    fn default() -> (o: Options)
        ensures
            o@ == default_options(),
    {
        let o = Options { base: None, settings: Vec::new() };
        assert(o@.settings =~= Seq::empty());
        o
    }
}

impl Clone for Options {
    fn clone(&self) -> (o: Options)
        ensures
            o@ == self@,
    {
        let mut settings: Vec<(String, String)> = Vec::new();
        let mut i: usize = 0;
        while i < self.settings.len()
            invariant
                i <= self.settings.len(),
                settings@.len() == i,
                forall|j: int|
                    0 <= j < i ==> settings@[j].0@ == self.settings@[j].0@ && settings@[j].1@
                        == self.settings@[j].1@,
            decreases self.settings.len() - i,
        {
            let name = self.settings[i].0.clone();
            let value = self.settings[i].1.clone();
            settings.push((name, value));
            i += 1;
        }
        let o = Options { base: self.base, settings };
        assert(o@.settings =~= self@.settings);
        o
    }
}

impl Options {
    /// Options that start from the engine-side object at `base`.
    pub fn from_native(base: OptionsPtr) -> (o: Options)
        ensures
            o@ == (OptionsView { base: Some(base), settings: Seq::empty() }),
    {
        let o = Options { base: Some(base), settings: Vec::new() };
        assert(o@.settings =~= Seq::empty());
        o
    }

    /// Lays the setting `name = value` over what is there.
    pub fn set(&mut self, name: &str, value: &str)
        ensures
            final(self)@ == (OptionsView {
                base: old(self)@.base,
                settings: old(self)@.settings.push((name@, value@)),
            }),
    {
        self.settings.push((String::from_str(name), String::from_str(value)));
        assert(self@.settings =~= old(self)@.settings.push((name@, value@)));
    }

    /// The engine-side object the recipe starts from.
    pub fn base(&self) -> (b: Option<OptionsPtr>)
        ensures
            b == self@.base,
    {
        self.base
    }

    /// How many settings were made.
    pub fn len(&self) -> (n: usize)
        ensures
            n == self@.settings.len(),
    {
        self.settings.len()
    }

    /// Name and value of the setting at `index`.
    pub fn setting(&self, index: usize) -> (s: (&str, &str))
        requires
            index < self@.settings.len(),
        ensures
            (s.0@, s.1@) == self@.settings[index as int],
    {
        (self.settings[index].0.as_str(), self.settings[index].1.as_str())
    }
}

/// How a read is tuned.
#[derive(Clone, Copy, PartialEq, Eq, Structural, Debug)]
pub struct ReadOptions {
    /// Ignore prefix bloom filters and walk the keys in their total order.
    pub total_order_seek: bool,
    /// Stop a cursor at the end of the prefix it was positioned in.
    pub prefix_same_as_start: bool,
    /// The snapshot that pins the read, if any.
    pub snapshot: Option<SnapshotPtr>,
}

impl Default for ReadOptions {
    fn default() -> (o: ReadOptions)
        ensures
            o == ReadOptions::spec_default(),
    {
        ReadOptions { total_order_seek: false, prefix_same_as_start: false, snapshot: None }
    }
}

impl ReadOptions {
    /// The engine's defaults: no total-order seek, no prefix bound, no
    /// snapshot.
    pub open spec fn spec_default() -> ReadOptions {
        ReadOptions { total_order_seek: false, prefix_same_as_start: false, snapshot: None }
    }

    /// These options, pinned to the snapshot at `snapshot`.
    pub open spec fn with_snapshot(self, snapshot: SnapshotPtr) -> ReadOptions {
        ReadOptions { snapshot: Some(snapshot), ..self }
    }

    /// `input` if given, the defaults otherwise.
    pub open spec fn spec_input_or_default(input: Option<&ReadOptions>) -> ReadOptions {
        match input {
            Some(o) => *o,
            None => ReadOptions::spec_default(),
        }
    }

    pub fn set_total_order_seek(&mut self, v: bool)
        ensures
            *final(self) == (ReadOptions { total_order_seek: v, ..*old(self) }),
    {
        self.total_order_seek = v;
    }

    pub fn set_prefix_same_as_start(&mut self, v: bool)
        ensures
            *final(self) == (ReadOptions { prefix_same_as_start: v, ..*old(self) }),
    {
        self.prefix_same_as_start = v;
    }

    /// Pins reads made with these options to `snapshot`.
    pub fn set_snapshot<T: ConstHandle<SnapshotPtr>>(&mut self, snapshot: &T)
        ensures
            *final(self) == old(self).with_snapshot(snapshot.const_raw()),
    {
        self.snapshot = Some(snapshot.const_handle());
    }

    /// The options a read goes out with: `input` if given, the defaults
    /// otherwise.
    pub fn input_or_default(input: Option<&ReadOptions>) -> (o: ReadOptions)
        ensures
            o == ReadOptions::spec_input_or_default(input),
    {
        match input {
            Some(o) => *o,
            None => ReadOptions::default(),
        }
    }
}

/// How a write is tuned.
#[derive(Clone, Copy, PartialEq, Eq, Structural, Debug)]
pub struct WriteOptions {
    /// Reach stable storage before the write returns.
    pub sync: bool,
    /// Keep the write out of the write-ahead log.
    pub disable_wal: bool,
}

impl Default for WriteOptions {
    fn default() -> (o: WriteOptions)
        ensures
            o == WriteOptions::spec_default(),
    {
        WriteOptions { sync: false, disable_wal: false }
    }
}

impl WriteOptions {
    /// The engine's defaults: logged, not synced.
    pub open spec fn spec_default() -> WriteOptions {
        WriteOptions { sync: false, disable_wal: false }
    }

    /// `input` if given, the defaults otherwise.
    pub open spec fn spec_input_or_default(input: Option<&WriteOptions>) -> WriteOptions {
        match input {
            Some(o) => *o,
            None => WriteOptions::spec_default(),
        }
    }

    pub fn set_sync(&mut self, sync: bool)
        ensures
            *final(self) == (WriteOptions { sync, ..*old(self) }),
    {
        self.sync = sync;
    }

    pub fn disable_wal(&mut self, disable: bool)
        ensures
            *final(self) == (WriteOptions { disable_wal: disable, ..*old(self) }),
    {
        self.disable_wal = disable;
    }

    /// The options a write goes out with: `input` if given, the defaults
    /// otherwise.
    pub fn input_or_default(input: Option<&WriteOptions>) -> (o: WriteOptions)
        ensures
            o == WriteOptions::spec_input_or_default(input),
    {
        match input {
            Some(o) => *o,
            None => WriteOptions::default(),
        }
    }
}

/// How a flush is tuned.
#[derive(Clone, Copy, PartialEq, Eq, Structural, Debug)]
pub struct FlushOptions {
    /// Block until the flush is done.
    pub wait: bool,
}

impl Default for FlushOptions {
    fn default() -> (o: FlushOptions)
        ensures
            o == FlushOptions::spec_default(),
    {
        FlushOptions { wait: true }
    }
}

impl FlushOptions {
    /// The engine's default: a flush waits.
    pub open spec fn spec_default() -> FlushOptions {
        FlushOptions { wait: true }
    }

    pub fn set_wait(&mut self, wait: bool)
        ensures
            *final(self) == (FlushOptions { wait }),
    {
        self.wait = wait;
    }
}

} // verus!
