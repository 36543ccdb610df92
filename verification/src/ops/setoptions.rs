//! Changing options of an open database by name and value.

use vstd::prelude::*;
use vstd::slice::slice_to_vec;
use vstd::string::*;

use crate::column_family::ColumnFamily;
use crate::engine::{byte_strings, Call, CallView};
use crate::error::Error;
use crate::ffi_util::{find_nul, first_nul, lemma_first_nul};
use crate::handle::{DbPtr, Handle};
use crate::text::{decimal, push_decimal};

verus! {

/// Names and values of a run of options, as the bytes of their text.
pub open spec fn option_bytes(opts: Seq<(&str, &str)>) -> Seq<(Seq<u8>, Seq<u8>)> {
    Seq::new(opts.len(), |i: int| (opts[i].0.spec_bytes(), opts[i].1.spec_bytes()))
}

/// What is said of a zero byte at `position`.
pub open spec fn nul_error_text(position: int) -> Seq<char> {
    "nul byte found in provided data at position: "@ + decimal(position as nat)
}

/// What the error says when an option's name holds a zero byte.
pub open spec fn invalid_name_message(position: int) -> Seq<char> {
    "Invalid option name `"@ + nul_error_text(position) + "`"@
}

/// What the error says when an option's value holds a zero byte.
pub open spec fn invalid_value_message(position: int) -> Seq<char> {
    "Invalid option value: `"@ + nul_error_text(position) + "`"@
}

/// The complaint about the first name or value of `opts` that cannot go
/// into a C string, names before values and earlier options first.
pub open spec fn coptions_error(opts: Seq<(Seq<u8>, Seq<u8>)>) -> Option<Seq<char>>
    decreases opts.len(),
{
    if opts.len() == 0 {
        None
    } else if let Some(position) = first_nul(opts[0].0) {
        Some(invalid_name_message(position))
    } else if let Some(position) = first_nul(opts[0].1) {
        Some(invalid_value_message(position))
    } else {
        coptions_error(opts.drop_first())
    }
}

/// The names of `opts`, in order.
pub open spec fn names(opts: Seq<(Seq<u8>, Seq<u8>)>) -> Seq<Seq<u8>> {
    Seq::new(opts.len(), |i: int| opts[i].0)
}

/// The values of `opts`, in order.
pub open spec fn values(opts: Seq<(Seq<u8>, Seq<u8>)>) -> Seq<Seq<u8>> {
    Seq::new(opts.len(), |i: int| opts[i].1)
}

/// What setting options gives: the complaint about the first name or value
/// that holds a zero byte, or else the call, from `call`, that carries all
/// names and all values.
pub open spec fn options_set(
    opts: Seq<(&str, &str)>,
    call: spec_fn(Seq<Seq<u8>>, Seq<Seq<u8>>) -> CallView,
    r: Result<Call, Error>,
) -> bool {
    match coptions_error(option_bytes(opts)) {
        Some(message) => r is Err && r->Err_0@ == message,
        None => r is Ok && r->Ok_0@ == call(
            names(option_bytes(opts)),
            values(option_bytes(opts)),
        ),
    }
}

pub trait SetOptions {
    /// The address of the database whose options are set.
    spec fn options_target(&self) -> DbPtr;

    fn set_options(&self, opts: &[(&str, &str)]) -> (r: Result<Call, Error>)
        ensures
            options_set(
                opts@,
                |names: Seq<Seq<u8>>, values: Seq<Seq<u8>>|
                    CallView::SetOptions { db: self.options_target(), names, values },
                r,
            ),
    ;

    fn set_options_cf(&self, cf: &ColumnFamily, opts: &[(&str, &str)]) -> (r: Result<Call, Error>)
        ensures
            options_set(
                opts@,
                |names: Seq<Seq<u8>>, values: Seq<Seq<u8>>|
                    CallView::SetOptionsCf { db: self.options_target(), cf: cf.raw(), names, values },
                r,
            ),
    ;
}

impl<T> SetOptions for T where T: Handle<DbPtr> {
    open spec fn options_target(&self) -> DbPtr {
        self.raw()
    }

    fn set_options(&self, opts: &[(&str, &str)]) -> (r: Result<Call, Error>) {
        match build_coptions(opts) {
            Err(e) => Err(e),
            Ok((names, values)) => Ok(Call::SetOptions { db: self.handle(), names, values }),
        }
    }

    fn set_options_cf(&self, cf: &ColumnFamily, opts: &[(&str, &str)]) -> (r: Result<Call, Error>) {
        match build_coptions(opts) {
            Err(e) => Err(e),
            Ok((names, values)) => Ok(
                Call::SetOptionsCf { db: self.handle(), cf: cf.handle(), names, values },
            ),
        }
    }
}

fn nul_error(prefix: &str, position: usize) -> (e: Error)
    ensures
        e@ == prefix@ + nul_error_text(position as int) + "`"@,
{
    let mut message = String::from_str(prefix);
    message.append("nul byte found in provided data at position: ");
    push_decimal(&mut message, position);
    message.append("`");
    assert(message@ =~= prefix@ + nul_error_text(position as int) + "`"@);
    Error::new(message)
}

/// The names and the values of `opts` as they go into C strings, or the
/// complaint about the first of them that holds a zero byte.
pub fn build_coptions(opts: &[(&str, &str)]) -> (r: Result<(Vec<Vec<u8>>, Vec<Vec<u8>>), Error>)
    ensures
        match coptions_error(option_bytes(opts@)) {
            Some(message) => r is Err && r->Err_0@ == message,
            None => {
                &&& r is Ok
                &&& byte_strings(r->Ok_0.0@) == names(option_bytes(opts@))
                &&& byte_strings(r->Ok_0.1@) == values(option_bytes(opts@))
            },
        },
{
    let ghost all = option_bytes(opts@);
    let mut cnames: Vec<Vec<u8>> = Vec::new();
    let mut cvalues: Vec<Vec<u8>> = Vec::new();
    let n = opts.len();
    let mut i: usize = 0;
    assert(all.subrange(0, n as int) =~= all);
    while i < n
        invariant
            i <= n,
            n == opts@.len(),
            all == option_bytes(opts@),
            coptions_error(all) == coptions_error(all.subrange(i as int, n as int)),
            cnames@.len() == i,
            cvalues@.len() == i,
            forall|j: int| 0 <= j < i ==> cnames@[j]@ == all[j].0 && cvalues@[j]@ == all[j].1,
        decreases n - i,
    {
        proof {
            assert(all.subrange(i as int, n as int).drop_first() =~= all.subrange(i + 1, n as int));
            assert(all.subrange(i as int, n as int)[0] == all[i as int]);
            lemma_first_nul(all[i as int].0);
            lemma_first_nul(all[i as int].1);
        }
        let name = opts[i].0.as_bytes();
        let value = opts[i].1.as_bytes();
        match find_nul(name) {
            Some(position) => {
                return Err(nul_error("Invalid option name `", position));
            },
            None => {},
        }
        match find_nul(value) {
            Some(position) => {
                return Err(nul_error("Invalid option value: `", position));
            },
            None => {},
        }
        cnames.push(slice_to_vec(name));
        cvalues.push(slice_to_vec(value));
        i += 1;
    }
    assert(byte_strings(cnames@) =~= names(all));
    assert(byte_strings(cvalues@) =~= values(all));
    Ok((cnames, cvalues))
}

} // verus!
