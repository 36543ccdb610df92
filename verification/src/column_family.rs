//! Column families: the handle of an open one, and the description one is
//! opened from.

use vstd::prelude::*;
use vstd::string::*;

use crate::db_options::{Options, OptionsView};
use crate::engine::{call_views, Call, CallView};
use crate::error::Error;
use crate::handle::{CfPtr, Handle};
use crate::text::str_eq;

verus! {

/// An open column family. The database that opened it keeps it in its
/// registry and hands out borrows only.
#[derive(Debug, PartialEq, Eq)]
pub struct ColumnFamily {
    inner: CfPtr,
}

impl ColumnFamily {
    pub(crate) fn new(handle: CfPtr) -> (cf: ColumnFamily)
        ensures
            cf.raw() == handle,
    {
        ColumnFamily { inner: handle }
    }
}

impl Handle<CfPtr> for ColumnFamily {
    closed spec fn raw(&self) -> CfPtr {
        self.inner
    }

    fn handle(&self) -> (p: CfPtr) {
        self.inner
    }
}

/// The address behind an optional column family.
pub open spec fn cf_ptr(cf: Option<&ColumnFamily>) -> Option<CfPtr> {
    match cf {
        Some(cf) => Some(cf.raw()),
        None => None,
    }
}

/// What a [`ColumnFamilyDescriptor`] stands for.
pub struct DescriptorView {
    pub name: Seq<char>,
    pub options: OptionsView,
}

/// The name of a column family and the options to open it with.
#[derive(Debug, PartialEq, Eq)]
pub struct ColumnFamilyDescriptor {
    name: String,
    options: Options,
}

impl View for ColumnFamilyDescriptor {
    type V = DescriptorView;

    closed spec fn view(&self) -> DescriptorView {
        DescriptorView { name: self.name@, options: self.options@ }
    }
}

impl Clone for ColumnFamilyDescriptor {
    fn clone(&self) -> (d: ColumnFamilyDescriptor)
        ensures
            d@ == self@,
    {
        ColumnFamilyDescriptor { name: self.name.clone(), options: self.options.clone() }
    }
}

impl ColumnFamilyDescriptor {
    /// Describes the column family `name`, to be opened with `options`.
    pub fn new(name: &str, options: Options) -> (d: ColumnFamilyDescriptor)
        ensures
            d@ == (DescriptorView { name: name@, options: options@ }),
    {
        ColumnFamilyDescriptor { name: String::from_str(name), options }
    }

    /// The family's name.
    pub fn name(&self) -> (n: &str)
        ensures
            n@ == self@.name,
    {
        self.name.as_str()
    }

    /// The options the family is opened with.
    pub fn options(&self) -> (o: &Options)
        ensures
            o@ == self@.options,
    {
        &self.options
    }
}

/// The views of a run of descriptors, in order.
pub open spec fn descriptor_views(descriptors: Seq<ColumnFamilyDescriptor>) -> Seq<DescriptorView> {
    Seq::new(descriptors.len(), |i: int| descriptors[i]@)
}

/// Whether some entry of `entries` carries `name`.
pub open spec fn registered(entries: Seq<(Seq<char>, CfPtr)>, name: Seq<char>) -> bool {
    exists|i: int| 0 <= i < entries.len() && entries[i].0 == name
}

/// The address in the first entry of `entries` that carries `name`.
pub open spec fn lookup(entries: Seq<(Seq<char>, CfPtr)>, name: Seq<char>) -> Option<CfPtr>
    decreases entries.len(),
{
    if entries.len() == 0 {
        None
    } else if entries[0].0 == name {
        Some(entries[0].1)
    } else {
        lookup(entries.drop_first(), name)
    }
}

/// `entries` less the first entry that carries `name`.
pub open spec fn without(entries: Seq<(Seq<char>, CfPtr)>, name: Seq<char>) -> Seq<
    (Seq<char>, CfPtr),
>
    decreases entries.len(),
{
    if entries.len() == 0 {
        entries
    } else if entries[0].0 == name {
        entries.drop_first()
    } else {
        seq![entries[0]] + without(entries.drop_first(), name)
    }
}

/// No two entries of `entries` carry the same name.
pub open spec fn distinct_names(entries: Seq<(Seq<char>, CfPtr)>) -> bool {
    forall|i: int, j: int| 0 <= i < j < entries.len() ==> entries[i].0 != entries[j].0
}

/// What the error says when a family is registered under a taken name.
pub open spec fn already_open_message(name: Seq<char>) -> Seq<char> {
    "a column family named \""@ + name + "\" is already open"@
}

/// Where `name` is first found at `i`, that entry is what `lookup` gives
/// and what `without` takes out.
proof fn lemma_found(entries: Seq<(Seq<char>, CfPtr)>, name: Seq<char>, i: int)
    requires
        0 <= i < entries.len(),
        entries[i].0 == name,
        forall|j: int| 0 <= j < i ==> entries[j].0 != name,
    ensures
        lookup(entries, name) == Some(entries[i].1),
        without(entries, name) == entries.remove(i),
    decreases i,
{
    if i == 0 {
        assert(entries.drop_first() =~= entries.remove(0));
    } else {
        lemma_found(entries.drop_first(), name, i - 1);
        assert(seq![entries[0]] + entries.drop_first().remove(i - 1) =~= entries.remove(i));
    }
}

/// Where `name` is not registered, `lookup` finds nothing and `without`
/// changes nothing.
proof fn lemma_not_found(entries: Seq<(Seq<char>, CfPtr)>, name: Seq<char>)
    requires
        !registered(entries, name),
    ensures
        lookup(entries, name) is None,
        without(entries, name) == entries,
    decreases entries.len(),
{
    if entries.len() > 0 {
        assert(entries[0].0 != name);
        assert forall|i: int| 0 <= i < entries.drop_first().len() implies entries.drop_first()[i].0
            != name by {
            assert(entries[i + 1].0 != name);
        }
        lemma_not_found(entries.drop_first(), name);
        assert(seq![entries[0]] + entries.drop_first() =~= entries);
    }
}

/// `lookup` finds something exactly for the registered names.
pub proof fn lemma_lookup_registered(entries: Seq<(Seq<char>, CfPtr)>, name: Seq<char>)
    ensures
        lookup(entries, name) is Some <==> registered(entries, name),
    decreases entries.len(),
{
    if entries.len() > 0 {
        if entries[0].0 == name {
        } else {
            lemma_lookup_registered(entries.drop_first(), name);
            if registered(entries, name) {
                let i = choose|i: int| 0 <= i < entries.len() && entries[i].0 == name;
                assert(entries.drop_first()[i - 1].0 == name);
            }
            if registered(entries.drop_first(), name) {
                let i = choose|i: int|
                    0 <= i < entries.drop_first().len() && entries.drop_first()[i].0 == name;
                assert(entries[i + 1].0 == name);
            }
        }
    }
}

/// A family registered under a free name is found under that name, and
/// what is found under any other name is what was found before.
pub proof fn law_register_then_lookup(
    entries: Seq<(Seq<char>, CfPtr)>,
    name: Seq<char>,
    handle: CfPtr,
    other: Seq<char>,
)
    requires
        !registered(entries, name),
        other != name,
    ensures
        lookup(entries.push((name, handle)), name) == Some(handle),
        lookup(entries.push((name, handle)), other) == lookup(entries, other),
    decreases entries.len(),
{
    let grown = entries.push((name, handle));
    if entries.len() == 0 {
        assert(grown.drop_first() =~= entries);
    } else {
        assert(entries[0].0 != name);
        assert(grown.drop_first() =~= entries.drop_first().push((name, handle)));
        assert(!registered(entries.drop_first(), name)) by {
            if registered(entries.drop_first(), name) {
                let i = choose|i: int|
                    0 <= i < entries.drop_first().len() && entries.drop_first()[i].0 == name;
                assert(entries[i + 1].0 == name);
            }
        }
        law_register_then_lookup(entries.drop_first(), name, handle, other);
    }
}

/// Once a family is removed from a registry without repeated names,
/// nothing is found under its name, and what is found under any other name
/// is what was found before.
pub proof fn law_remove_then_lookup(
    entries: Seq<(Seq<char>, CfPtr)>,
    name: Seq<char>,
    other: Seq<char>,
)
    requires
        distinct_names(entries),
        other != name,
    ensures
        lookup(without(entries, name), name) is None,
        lookup(without(entries, name), other) == lookup(entries, other),
    decreases entries.len(),
{
    if entries.len() > 0 {
        let rest = entries.drop_first();
        assert(distinct_names(rest)) by {
            assert forall|i: int, j: int| 0 <= i < j < rest.len() implies rest[i].0 != rest[j].0 by {
                assert(entries[i + 1].0 != entries[j + 1].0);
            }
        }
        if entries[0].0 == name {
            assert(!registered(rest, name)) by {
                if registered(rest, name) {
                    let i = choose|i: int| 0 <= i < rest.len() && rest[i].0 == name;
                    assert(entries[0].0 != entries[i + 1].0);
                }
            }
            lemma_not_found(rest, name);
        } else {
            law_remove_then_lookup(rest, name, other);
            let kept = seq![entries[0]] + without(rest, name);
            assert(kept.drop_first() =~= without(rest, name));
        }
    }
}

/// The open column families of one database, by name.
///
/// The registry owns the handles. It gives out borrows, which end before
/// the registry does, and gives a handle up only by removing it, so that
/// each is released once.
#[derive(Debug)]
pub struct ColumnFamilies {
    entries: Vec<(String, ColumnFamily)>,
}

impl View for ColumnFamilies {
    type V = Seq<(Seq<char>, CfPtr)>;

    /// Name and address of each registered family, in the order in which
    /// they came.
    closed spec fn view(&self) -> Seq<(Seq<char>, CfPtr)> {
        Seq::new(self.entries@.len(), |i: int| (self.entries@[i].0@, self.entries@[i].1.raw()))
    }
}

impl ColumnFamilies {
    /// A registry with nothing in it.
    pub fn new() -> (cfs: ColumnFamilies)
        ensures
            cfs@ == Seq::<(Seq<char>, CfPtr)>::empty(),
    {
        let cfs = ColumnFamilies { entries: Vec::new() };
        assert(cfs@ =~= Seq::empty());
        cfs
    }

    /// How many families are registered.
    pub fn len(&self) -> (n: usize)
        ensures
            n == self@.len(),
    {
        self.entries.len()
    }

    fn find(&self, name: &str) -> (r: Option<usize>)
        ensures
            match r {
                Some(i) => {
                    &&& i < self@.len()
                    &&& self@[i as int].0 == name@
                    &&& lookup(self@, name@) == Some(self@[i as int].1)
                    &&& without(self@, name@) == self@.remove(i as int)
                    &&& registered(self@, name@)
                },
                None => {
                    &&& !registered(self@, name@)
                    &&& lookup(self@, name@) is None
                    &&& without(self@, name@) == self@
                },
            },
    {
        let mut i: usize = 0;
        while i < self.entries.len()
            invariant
                i <= self.entries@.len(),
                forall|j: int| 0 <= j < i ==> self@[j].0 != name@,
            decreases self.entries@.len() - i,
        {
            if str_eq(self.entries[i].0.as_str(), name) {
                proof {
                    lemma_found(self@, name@, i as int);
                }
                return Some(i);
            }
            i += 1;
        }
        proof {
            lemma_not_found(self@, name@);
        }
        None
    }

    /// The family registered under `name`, if there is one.
    pub fn get(&self, name: &str) -> (r: Option<&ColumnFamily>)
        ensures
            cf_ptr(r) == lookup(self@, name@),
    {
        match self.find(name) {
            Some(i) => Some(&self.entries[i].1),
            None => None,
        }
    }

    /// Registers the family at `handle` under `name`. A taken name is an
    /// error, and nothing is registered then.
    pub fn insert(&mut self, name: &str, handle: CfPtr) -> (r: Result<(), Error>)
        ensures
            distinct_names(old(self)@) ==> distinct_names(final(self)@),
            registered(old(self)@, name@) ==> r is Err && r->Err_0@ == already_open_message(name@)
                && final(self)@ == old(self)@,
            !registered(old(self)@, name@) ==> r is Ok && final(self)@ == old(self)@.push(
                (name@, handle),
            ),
    {
        match self.find(name) {
            Some(_) => {
                let message = String::from_str("a column family named \"").concat(name).concat(
                    "\" is already open",
                );
                Err(Error::new(message))
            },
            None => {
                self.entries.push((String::from_str(name), ColumnFamily::new(handle)));
                assert(self@ =~= old(self)@.push((name@, handle)));
                Ok(())
            },
        }
    }

    /// Takes the family registered under `name` out of the registry and
    /// hands it over, for the one release it is owed.
    pub fn remove(&mut self, name: &str) -> (r: Option<ColumnFamily>)
        ensures
            distinct_names(old(self)@) ==> distinct_names(final(self)@),
            match r {
                Some(cf) => Some(cf.raw()) == lookup(old(self)@, name@),
                None => lookup(old(self)@, name@) is None,
            },
            final(self)@ == without(old(self)@, name@),
    {
        match self.find(name) {
            Some(i) => {
                let entry = self.entries.remove(i);
                assert(self@ =~= old(self)@.remove(i as int));
                Some(entry.1)
            },
            None => None,
        }
    }

    /// Gives up every family: the calls that destroy their handles, in the
    /// order in which the families were registered.
    pub fn close(self) -> (calls: Vec<Call>)
        ensures
            call_views(calls@) == destroy_calls(self@),
    {
        let mut calls: Vec<Call> = Vec::new();
        let mut i: usize = 0;
        while i < self.entries.len()
            invariant
                i <= self.entries@.len(),
                calls@.len() == i,
                forall|j: int|
                    0 <= j < i ==> calls@[j]@ == (CallView::ColumnFamilyHandleDestroy {
                        cf: self@[j].1,
                    }),
            decreases self.entries@.len() - i,
        {
            calls.push(Call::ColumnFamilyHandleDestroy { cf: self.entries[i].1.handle() });
            i += 1;
        }
        assert(call_views(calls@) =~= destroy_calls(self@));
        calls
    }
}

/// What comes of registering `rest`, entry by entry, into a registry that
/// holds `done`: all of them registered, or the complaint about the first
/// whose name is taken.
pub open spec fn registering(
    done: Seq<(Seq<char>, CfPtr)>,
    rest: Seq<(Seq<char>, CfPtr)>,
) -> Result<Seq<(Seq<char>, CfPtr)>, Seq<char>>
    decreases rest.len(),
{
    if rest.len() == 0 {
        Ok(done)
    } else if registered(done, rest[0].0) {
        Err(already_open_message(rest[0].0))
    } else {
        registering(done.push(rest[0]), rest.drop_first())
    }
}

/// Names and addresses of a run of families, in order.
pub open spec fn handle_views(families: Seq<(String, CfPtr)>) -> Seq<(Seq<char>, CfPtr)> {
    Seq::new(families.len(), |i: int| (families[i].0@, families[i].1))
}

/// Registration succeeds exactly when no name is taken twice, and then
/// registers the entries as they stand.
pub proof fn lemma_registering(done: Seq<(Seq<char>, CfPtr)>, rest: Seq<(Seq<char>, CfPtr)>)
    requires
        distinct_names(done),
    ensures
        registering(done, rest) is Ok <==> distinct_names(done + rest),
        registering(done, rest) is Ok ==> registering(done, rest)->Ok_0 == done + rest,
    decreases rest.len(),
{
    if rest.len() == 0 {
        assert(done + rest =~= done);
    } else if registered(done, rest[0].0) {
        let i = choose|i: int| 0 <= i < done.len() && done[i].0 == rest[0].0;
        assert((done + rest)[i].0 == (done + rest)[done.len() as int].0);
    } else {
        let next = done.push(rest[0]);
        assert(next + rest.drop_first() =~= done + rest);
        assert(distinct_names(next)) by {
            assert forall|i: int, j: int| 0 <= i < j < next.len() implies next[i].0 != next[j].0 by {
                if j == done.len() {
                    assert(done[i].0 != rest[0].0);
                }
            }
        }
        lemma_registering(next, rest.drop_first());
        if distinct_names(done + rest) {
            assert(distinct_names(next + rest.drop_first()));
        }
    }
}

impl ColumnFamilies {
    /// A registry of the families in `families`, each under its name. A
    /// name that comes twice is an error.
    pub fn from_handles(families: Vec<(String, CfPtr)>) -> (r: Result<ColumnFamilies, Error>)
        ensures
            match registering(Seq::empty(), handle_views(families@)) {
                Ok(entries) => r is Ok && r->Ok_0@ == entries,
                Err(message) => r is Err && r->Err_0@ == message,
            },
            r is Ok ==> r->Ok_0@ == handle_views(families@) && distinct_names(r->Ok_0@),
    {
        let ghost all = handle_views(families@);
        let mut cfs = ColumnFamilies::new();
        let n = families.len();
        let mut i: usize = 0;
        assert(all.subrange(0, n as int) =~= all);
        while i < n
            invariant
                i <= n,
                n == families@.len(),
                all == handle_views(families@),
                distinct_names(cfs@),
                cfs@ == all.subrange(0, i as int),
                registering(Seq::empty(), all) == registering(
                    cfs@,
                    all.subrange(i as int, n as int),
                ),
            decreases n - i,
        {
            proof {
                assert(all.subrange(i as int, n as int).drop_first() =~= all.subrange(
                    i + 1,
                    n as int,
                ));
                assert(all.subrange(i as int, n as int)[0] == all[i as int]);
                assert(all.subrange(0, i as int).push(all[i as int]) =~= all.subrange(0, i + 1));
            }
            match cfs.insert(families[i].0.as_str(), families[i].1) {
                Err(e) => {
                    return Err(e);
                },
                Ok(()) => {},
            }
            i += 1;
        }
        assert(all.subrange(0, n as int) =~= all);
        Ok(cfs)
    }
}

/// The calls that destroy the handles of `entries`, one for each entry, in
/// order.
pub open spec fn destroy_calls(entries: Seq<(Seq<char>, CfPtr)>) -> Seq<CallView> {
    Seq::new(entries.len(), |i: int| CallView::ColumnFamilyHandleDestroy { cf: entries[i].1 })
}

} // verus!
