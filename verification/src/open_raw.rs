//! Opening a database: what every variant is opened from, and the two
//! steps each variant supplies.

use vstd::prelude::*;

use vstd::string::*;
use vstd::utf8::encode_utf8;

use crate::column_family::{
    descriptor_views, distinct_names, handle_views, registering, ColumnFamilyDescriptor,
    DescriptorView,
};
use crate::db_options::{Options, OptionsView};
use crate::engine::{family_views, ffi_try, Call, CallView, Reply};
use crate::error::Error;
use crate::ffi_util::{has_nul, to_cpath, utf8_lossy};
use crate::handle::{CfPtr, DbPtr, Handle};
use crate::ops::column_family::GetColumnFamilys;

verus! {

/// What the error says when the path of a database cannot go into a C
/// string.
pub open spec fn bad_path_message() -> Seq<char> {
    "Failed to convert path to CString when opening database."@
}

/// What the error says when the name of a column family cannot go into a C
/// string.
pub open spec fn bad_name_message() -> Seq<char> {
    "Failed to convert column family name to CString when opening database."@
}

/// What the error says when the engine handed back a column family without
/// a handle.
pub open spec fn null_handle_message() -> Seq<char> {
    "Received null column family handle from database."@
}

/// What the error says when the engine handed back another number of
/// handles than families were asked for.
pub open spec fn handle_count_message() -> Seq<char> {
    "Received a wrong number of column family handles from database."@
}

/// Name and options of each described family, the name as the bytes of
/// its text.
pub open spec fn described_families(descriptors: Seq<DescriptorView>) -> Seq<(Seq<u8>, OptionsView)> {
    Seq::new(descriptors.len(), |i: int| (encode_utf8(descriptors[i].name), descriptors[i].options))
}

/// Whether the name of some described family holds a zero byte.
pub open spec fn some_name_has_nul(descriptors: Seq<DescriptorView>) -> bool {
    exists|i: int| 0 <= i < descriptors.len() && has_nul(encode_utf8(descriptors[i].name))
}

/// Whether some handle of `handles` is null.
pub open spec fn some_handle_is_null(handles: Seq<CfPtr>) -> bool {
    exists|i: int| 0 <= i < handles.len() && handles[i].0 == 0
}

/// Each name of `names` with the handle at the same place in `handles`.
pub open spec fn named_handles(names: Seq<String>, handles: Seq<CfPtr>) -> Seq<(Seq<char>, CfPtr)> {
    Seq::new(names.len(), |i: int| (names[i]@, handles[i]))
}

/// What the engine hands back when it has opened a database: the address
/// of the database, and the handle of each column family it was asked to
/// open, in the order in which they were asked for.
#[derive(Debug)]
pub struct Opened {
    pub db: DbPtr,
    pub column_families: Vec<CfPtr>,
}

/// What an open call is made from.
pub struct OpenRawFFI<'a, D> {
    /// The options of the database.
    pub options: &'a Options,
    /// The path of the database, as it goes into a C string.
    pub path: Vec<u8>,
    /// What is particular to the variant being opened.
    pub open_descriptor: D,
    /// Name and options of each column family to open, the name as it goes
    /// into a C string.
    pub column_families: Vec<(Vec<u8>, Options)>,
}

pub trait OpenRaw: Sized + Handle<DbPtr> + GetColumnFamilys {
    /// What is particular to opening this variant.
    type Descriptor;

    /// What `open_ffi` answers: the call that opens the database, or the
    /// complaint about the descriptor.
    spec fn open_call(
        options: OptionsView,
        path: Seq<u8>,
        open_descriptor: Self::Descriptor,
        column_families: Seq<(Seq<u8>, OptionsView)>,
    ) -> Result<CallView, Seq<char>>;

    /// The path the database was opened at.
    spec fn path_text(&self) -> Seq<char>;

    /// The call that opens the database.
    fn open_ffi(input: OpenRawFFI<'_, Self::Descriptor>) -> (r: Result<Call, Error>)
        ensures
            match Self::open_call(
                input.options@,
                input.path@,
                input.open_descriptor,
                family_views(input.column_families@),
            ) {
                Ok(call) => r is Ok && r->Ok_0@ == call,
                Err(message) => r is Err && r->Err_0@ == message,
            },
    ;

    /// The call that opens the database at `path` with the described
    /// column families. A path or a name that holds a zero byte is an error,
    /// and so is whatever the variant finds wrong with its descriptor.
    fn open_raw(
        options: &Options,
        path: &str,
        column_families: &Vec<ColumnFamilyDescriptor>,
        open_descriptor: Self::Descriptor,
    ) -> (r: Result<Call, Error>)
        ensures
            ({
                let descriptors = descriptor_views(column_families@);
                let expected = if has_nul(encode_utf8(path@)) {
                    Err(bad_path_message())
                } else if some_name_has_nul(descriptors) {
                    Err(bad_name_message())
                } else {
                    Self::open_call(
                        options@,
                        encode_utf8(path@),
                        open_descriptor,
                        described_families(descriptors),
                    )
                };
                match expected {
                    Ok(call) => r is Ok && r->Ok_0@ == call,
                    Err(message) => r is Err && r->Err_0@ == message,
                }
            }),
    {
        let cpath = match to_cpath(
            path,
            "Failed to convert path to CString when opening database.",
        ) {
            Ok(p) => p,
            Err(e) => {
                return Err(e);
            },
        };
        let ghost descriptors = descriptor_views(column_families@);
        let mut families: Vec<(Vec<u8>, Options)> = Vec::new();
        let mut i: usize = 0;
        while i < column_families.len()
            invariant
                i <= column_families@.len(),
                descriptors == descriptor_views(column_families@),
                !has_nul(encode_utf8(path@)),
                families@.len() == i,
                forall|j: int| 0 <= j < i ==> !has_nul(encode_utf8(descriptors[j].name)),
                forall|j: int|
                    0 <= j < i ==> (families@[j].0@, families@[j].1@) == described_families(
                        descriptors,
                    )[j],
            decreases column_families@.len() - i,
        {
            let cfd = &column_families[i];
            let name = match to_cpath(
                cfd.name(),
                "Failed to convert column family name to CString when opening database.",
            ) {
                Ok(n) => n,
                Err(e) => {
                    assert(has_nul(encode_utf8(descriptors[i as int].name)));
                    assert(some_name_has_nul(descriptors));
                    return Err(e);
                },
            };
            families.push((name, cfd.options().clone()));
            i += 1;
        }
        assert(family_views(families@) =~= described_families(descriptors));
        Self::open_ffi(
            OpenRawFFI { options, path: cpath, open_descriptor, column_families: families },
        )
    }

    /// Completes `open_raw` with the engine's reply: takes the opened
    /// database over, with each family of `names` under the handle at the
    /// same place in the reply. The engine's error, another number of
    /// handles than names, a null handle, or two families under one name
    /// are errors.
    fn opened(
        path: String,
        open_descriptor: Self::Descriptor,
        reply: Reply<Opened>,
        names: Vec<String>,
    ) -> (r: Result<Self, Error>)
        ensures
            ({
                let handles = reply.value.column_families@;
                let entries = named_handles(names@, handles);
                let expected: Result<Seq<(Seq<char>, CfPtr)>, Seq<char>> = match reply.error {
                    Some(message) => Err(utf8_lossy(message@)),
                    None => if handles.len() != names@.len() {
                        Err(handle_count_message())
                    } else if some_handle_is_null(handles) {
                        Err(null_handle_message())
                    } else {
                        registering(Seq::empty(), entries)
                    },
                };
                match expected {
                    Ok(registered) => {
                        &&& r is Ok
                        &&& r->Ok_0.raw() == reply.value.db
                        &&& r->Ok_0.path_text() == path@
                        &&& r->Ok_0.cfs() == registered
                        &&& registered == entries
                        &&& distinct_names(registered)
                    },
                    Err(message) => r is Err && r->Err_0@ == message,
                }
            }),
    {
        let opened = match ffi_try(reply) {
            Ok(o) => o,
            Err(e) => {
                return Err(e);
            },
        };
        let Opened { db, column_families: handles } = opened;
        if handles.len() != names.len() {
            return Err(
                Error::new(
                    String::from_str(
                        "Received a wrong number of column family handles from database.",
                    ),
                ),
            );
        }
        let ghost entries = named_handles(names@, handles@);
        let mut families: Vec<(String, CfPtr)> = Vec::new();
        let mut i: usize = 0;
        while i < names.len()
            invariant
                i <= names@.len(),
                names@.len() == handles@.len(),
                reply.error is None,
                handles@ == reply.value.column_families@,
                entries == named_handles(names@, handles@),
                families@.len() == i,
                forall|j: int| 0 <= j < i ==> handles@[j].0 != 0,
                forall|j: int| 0 <= j < i ==> (families@[j].0@, families@[j].1) == entries[j],
            decreases names@.len() - i,
        {
            if handles[i].0 == 0 {
                assert(some_handle_is_null(handles@));
                return Err(
                    Error::new(
                        String::from_str("Received null column family handle from database."),
                    ),
                );
            }
            families.push((names[i].clone(), handles[i]));
            i += 1;
        }
        assert(handle_views(families@) =~= entries);
        Self::build(path, open_descriptor, db, families)
    }

    /// Takes over an opened database: its address, and the handle of each
    /// column family it was opened with. Two families under one name are an
    /// error, and nothing is taken over then.
    fn build(
        path: String,
        open_descriptor: Self::Descriptor,
        pointer: DbPtr,
        column_families: Vec<(String, CfPtr)>,
    ) -> (r: Result<Self, Error>)
        ensures
            match registering(Seq::empty(), handle_views(column_families@)) {
                Ok(entries) => {
                    &&& r is Ok
                    &&& r->Ok_0.raw() == pointer
                    &&& r->Ok_0.path_text() == path@
                    &&& r->Ok_0.cfs() == entries
                    &&& entries == handle_views(column_families@)
                    &&& distinct_names(entries)
                },
                Err(message) => r is Err && r->Err_0@ == message,
            },
    ;
}

} // verus!
