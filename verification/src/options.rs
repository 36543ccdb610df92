//! The full configuration of a database: its own options and one
//! descriptor for each of its column families.

use vstd::prelude::*;
use vstd::string::*;

use crate::column_family::{descriptor_views, ColumnFamilyDescriptor, DescriptorView};
use crate::db_options::{default_options, Options, OptionsView};
use crate::engine::{ffi_try, Call, CallView, Reply};
use crate::error::Error;
use crate::ffi_util::{error_message, has_nul, to_cpath, utf8_lossy};
use crate::handle::OptionsPtr;
use crate::text::str_eq;

verus! {

/// Options of a database together with the descriptors of its column
/// families.
#[derive(Debug, PartialEq, Eq)]
pub struct FullOptions {
    pub db_opts: Options,
    pub cf_descriptors: Vec<ColumnFamilyDescriptor>,
}

/// The name of the column family that every database has.
pub open spec fn default_name() -> Seq<char> {
    "default"@
}

/// The texts of a run of string slices, in order.
pub open spec fn names_of(names: Seq<&str>) -> Seq<Seq<char>> {
    Seq::new(names.len(), |i: int| names[i]@)
}

/// Whether some descriptor of `descriptors` carries `name`.
pub open spec fn described(descriptors: Seq<DescriptorView>, name: Seq<char>) -> bool {
    exists|i: int| 0 <= i < descriptors.len() && descriptors[i].name == name
}

/// A described family is unknown when it is neither the default one nor
/// among the requested names.
pub open spec fn is_unknown(name: Seq<char>, requested: Seq<Seq<char>>) -> bool {
    name != default_name() && !requested.contains(name)
}

/// Name of the first unknown family among `descriptors`.
pub open spec fn first_unknown(
    descriptors: Seq<DescriptorView>,
    requested: Seq<Seq<char>>,
) -> Option<Seq<char>>
    decreases descriptors.len(),
{
    if descriptors.len() == 0 {
        None
    } else if is_unknown(descriptors[0].name, requested) {
        Some(descriptors[0].name)
    } else {
        first_unknown(descriptors.drop_first(), requested)
    }
}

/// Options of the last descriptor of the default family, if it is
/// described at all.
pub open spec fn described_template(descriptors: Seq<DescriptorView>) -> Option<OptionsView>
    decreases descriptors.len(),
{
    if descriptors.len() == 0 {
        None
    } else if descriptors.last().name == default_name() {
        Some(descriptors.last().options)
    } else {
        described_template(descriptors.drop_last())
    }
}

/// The options that a newly added family gets: those of the default
/// family, or the engine's defaults when that family is not described.
pub open spec fn template(descriptors: Seq<DescriptorView>) -> OptionsView {
    match described_template(descriptors) {
        Some(options) => options,
        None => default_options(),
    }
}

/// `descriptors`, led by a descriptor of the default family when they
/// lack one.
pub open spec fn with_default(descriptors: Seq<DescriptorView>) -> Seq<DescriptorView> {
    if described_template(descriptors) is None {
        seq![DescriptorView { name: default_name(), options: default_options() }] + descriptors
    } else {
        descriptors
    }
}

/// `descriptors`, followed by one descriptor with the options `template`
/// for each name of `requested` that was not described when its turn came.
/// The walk through `requested` ends at the default family's name.
pub open spec fn supplemented(
    descriptors: Seq<DescriptorView>,
    requested: Seq<Seq<char>>,
    template: OptionsView,
) -> Seq<DescriptorView>
    decreases requested.len(),
{
    if requested.len() == 0 || requested[0] == default_name() {
        descriptors
    } else if described(descriptors, requested[0]) {
        supplemented(descriptors, requested.drop_first(), template)
    } else {
        supplemented(
            descriptors.push(DescriptorView { name: requested[0], options: template }),
            requested.drop_first(),
            template,
        )
    }
}

/// What supplementing does and leaves alone: the descriptors it was given
/// stay, in their places; each descriptor it adds is for a requested name
/// that was not described, carries the template, and is added once; and
/// when the walk through the requested names ends at none of them, every
/// one of them is described in the end.
pub proof fn lemma_supplemented(
    descriptors: Seq<DescriptorView>,
    requested: Seq<Seq<char>>,
    template: OptionsView,
)
    ensures
        ({
            let out = supplemented(descriptors, requested, template);
            &&& descriptors.len() <= out.len()
            &&& out.subrange(0, descriptors.len() as int) == descriptors
            &&& forall|i: int|
                descriptors.len() <= i < out.len() ==> {
                    &&& (#[trigger] out[i]).options == template
                    &&& requested.contains(out[i].name)
                    &&& !described(descriptors, out[i].name)
                    &&& out[i].name != default_name()
                }
            &&& forall|i: int, j: int|
                descriptors.len() <= i < j < out.len() ==> out[i].name != out[j].name
            &&& !requested.contains(default_name()) ==> forall|k: int|
                0 <= k < requested.len() ==> described(out, #[trigger] requested[k])
        }),
    decreases requested.len(),
{
    let out = supplemented(descriptors, requested, template);
    if requested.len() == 0 || requested[0] == default_name() {
        assert(out.subrange(0, descriptors.len() as int) =~= descriptors);
    } else {
        let rest = requested.drop_first();
        let added = DescriptorView { name: requested[0], options: template };
        let next = if described(descriptors, requested[0]) {
            descriptors
        } else {
            descriptors.push(added)
        };
        lemma_supplemented(next, rest, template);
        assert(out == supplemented(next, rest, template));
        assert(out.subrange(0, descriptors.len() as int) =~= descriptors) by {
            assert(out.subrange(0, next.len() as int) == next);
            assert forall|i: int| 0 <= i < descriptors.len() implies out[i] == descriptors[i] by {
                assert(out.subrange(0, next.len() as int)[i] == next[i]);
            }
        }
        assert forall|i: int| descriptors.len() <= i < out.len() implies {
            &&& (#[trigger] out[i]).options == template
            &&& requested.contains(out[i].name)
            &&& !described(descriptors, out[i].name)
            &&& out[i].name != default_name()
        } by {
            if i < next.len() {
                assert(out.subrange(0, next.len() as int)[i] == next[i]);
                assert(out[i] == added);
                assert(requested[0] == added.name);
            } else {
                assert(rest.contains(out[i].name));
                let k = choose|k: int| 0 <= k < rest.len() && rest[k] == out[i].name;
                assert(requested[k + 1] == out[i].name);
                if described(descriptors, out[i].name) {
                    let w = choose|w: int|
                        0 <= w < descriptors.len() && descriptors[w].name == out[i].name;
                    assert(next[w].name == out[i].name);
                }
            }
        }
        assert forall|i: int, j: int| descriptors.len() <= i < j < out.len() implies out[i].name
            != out[j].name by {
            if i < next.len() {
                assert(out.subrange(0, next.len() as int)[i] == next[i]);
                assert(!described(next, out[j].name));
                assert(next[i].name != out[j].name);
            }
        }
        if !requested.contains(default_name()) {
            assert(!rest.contains(default_name())) by {
                if rest.contains(default_name()) {
                    let k = choose|k: int| 0 <= k < rest.len() && rest[k] == default_name();
                    assert(requested[k + 1] == default_name());
                }
            }
            assert forall|k: int| 0 <= k < requested.len() implies described(
                out,
                #[trigger] requested[k],
            ) by {
                if k == 0 {
                    assert(described(next, requested[0])) by {
                        if !described(descriptors, requested[0]) {
                            assert(next[descriptors.len() as int].name == requested[0]);
                        }
                    }
                    let w = choose|w: int| 0 <= w < next.len() && next[w].name == requested[0];
                    assert(out.subrange(0, next.len() as int)[w] == next[w]);
                    assert(out[w].name == requested[0]);
                } else {
                    assert(rest[k - 1] == requested[k]);
                }
            }
        }
    }
}

/// What the error says when a described family was not asked for.
pub open spec fn unknown_family_message(name: Seq<char>) -> Seq<char> {
    "an unknown column family named \""@ + name + "\""@
}

/// What the error says when the default family's name is asked for.
pub open spec fn reserved_name_message() -> Seq<char> {
    "don't name a user-defined column family as \""@ + default_name() + "\""@
}

impl Clone for FullOptions {
    fn clone(&self) -> (o: FullOptions)
        ensures
            o.db_opts@ == self.db_opts@,
            descriptor_views(o.cf_descriptors@) == descriptor_views(self.cf_descriptors@),
    {
        let mut cf_descriptors: Vec<ColumnFamilyDescriptor> = Vec::new();
        let mut i: usize = 0;
        while i < self.cf_descriptors.len()
            invariant
                i <= self.cf_descriptors.len(),
                cf_descriptors@.len() == i,
                forall|j: int| 0 <= j < i ==> cf_descriptors@[j]@ == self.cf_descriptors@[j]@,
            decreases self.cf_descriptors.len() - i,
        {
            cf_descriptors.push(self.cf_descriptors[i].clone());
            i += 1;
        }
        assert(descriptor_views(cf_descriptors@) =~= descriptor_views(self.cf_descriptors@));
        FullOptions { db_opts: self.db_opts.clone(), cf_descriptors }
    }
}

fn requests(cf_names: &[&str], name: &str) -> (r: bool)
    ensures
        r == names_of(cf_names@).contains(name@),
{
    let mut i: usize = 0;
    while i < cf_names.len()
        invariant
            i <= cf_names.len(),
            forall|j: int| 0 <= j < i ==> names_of(cf_names@)[j] != name@,
        decreases cf_names.len() - i,
    {
        if str_eq(cf_names[i], name) {
            assert(names_of(cf_names@)[i as int] == name@);
            return true;
        }
        i += 1;
    }
    false
}

fn describes(descriptors: &Vec<ColumnFamilyDescriptor>, name: &str) -> (r: bool)
    ensures
        r == described(descriptor_views(descriptors@), name@),
{
    let mut i: usize = 0;
    while i < descriptors.len()
        invariant
            i <= descriptors.len(),
            forall|j: int| 0 <= j < i ==> descriptor_views(descriptors@)[j].name != name@,
        decreases descriptors.len() - i,
    {
        if str_eq(descriptors[i].name(), name) {
            assert(descriptor_views(descriptors@)[i as int].name == name@);
            return true;
        }
        i += 1;
    }
    false
}

/// What the engine found in an options file: the address of the options
/// of the database, and name and address of the options of each column
/// family, the name as the file has it.
#[derive(Debug)]
pub struct LoadedOptions {
    pub db_opts: OptionsPtr,
    pub cf_descs: Vec<(Vec<u8>, OptionsPtr)>,
}

/// The options that start from the engine-side object at `base`.
pub open spec fn native_options(base: OptionsPtr) -> OptionsView {
    OptionsView { base: Some(base), settings: Seq::empty() }
}

/// The descriptors that loaded column families are given: for each its
/// name, decoded leniently, and the options the engine built for it.
pub open spec fn loaded_descriptors(cf_descs: Seq<(Vec<u8>, OptionsPtr)>) -> Seq<DescriptorView> {
    Seq::new(
        cf_descs.len(),
        |i: int|
            DescriptorView {
                name: utf8_lossy(cf_descs[i].0@),
                options: native_options(cf_descs[i].1),
            },
    )
}

/// What the error says when the path of an options file cannot go into a C
/// string.
pub open spec fn bad_file_path_message() -> Seq<char> {
    "Failed to convert path to CString when load config file."@
}

impl FullOptions {
    /// The call that loads the options kept in `file`, with a block cache
    /// of `cache_size` bytes if one is asked for, and passing over options
    /// the engine does not know if `ignore_unknown_options` is set. A path
    /// that holds a zero byte is an error.
    pub fn load_from_file(
        file: &str,
        cache_size: Option<usize>,
        ignore_unknown_options: bool,
    ) -> (r: Result<Call, Error>)
        ensures
            has_nul(file.spec_bytes()) ==> r is Err && r->Err_0@ == bad_file_path_message(),
            !has_nul(file.spec_bytes()) ==> r is Ok && r->Ok_0@ == (CallView::OptionsLoadFromFile {
                path: file.spec_bytes(),
                cache_size,
                ignore_unknown_options,
            }),
    {
        match to_cpath(file, "Failed to convert path to CString when load config file.") {
            Err(e) => Err(e),
            Ok(path) => Ok(Call::OptionsLoadFromFile { path, cache_size, ignore_unknown_options }),
        }
    }

    /// Completes `load_from_file` with the engine's reply: the error the
    /// engine reported, or the configuration it found.
    pub fn from_loaded(reply: Reply<LoadedOptions>) -> (r: Result<FullOptions, Error>)
        ensures
            match reply.error {
                Some(message) => r is Err && r->Err_0@ == utf8_lossy(message@),
                None => {
                    &&& r is Ok
                    &&& r->Ok_0.db_opts@ == native_options(reply.value.db_opts)
                    &&& descriptor_views(r->Ok_0.cf_descriptors@) == loaded_descriptors(
                        reply.value.cf_descs@,
                    )
                },
            },
    {
        let result = match ffi_try(reply) {
            Err(e) => {
                return Err(e);
            },
            Ok(result) => result,
        };
        let mut cf_descriptors: Vec<ColumnFamilyDescriptor> = Vec::new();
        let mut index: usize = 0;
        while index < result.cf_descs.len()
            invariant
                index <= result.cf_descs@.len(),
                cf_descriptors@.len() == index,
                forall|j: int|
                    0 <= j < index ==> cf_descriptors@[j]@ == loaded_descriptors(
                        result.cf_descs@,
                    )[j],
            decreases result.cf_descs@.len() - index,
        {
            let name = error_message(result.cf_descs[index].0.as_slice());
            let cf_opts = Options::from_native(result.cf_descs[index].1);
            cf_descriptors.push(ColumnFamilyDescriptor::new(name.as_str(), cf_opts));
            index += 1;
        }
        assert(descriptor_views(cf_descriptors@) =~= loaded_descriptors(result.cf_descs@));
        Ok(FullOptions { db_opts: Options::from_native(result.db_opts), cf_descriptors })
    }

    /// Makes the descriptors fit the column families `cf_names` that the
    /// caller means to open, beside the default family.
    ///
    /// A described family that is neither the default one nor requested is
    /// an error, unless `ignore_unknown_column_families` is set; nothing is
    /// changed then. Otherwise the default family is described first if it
    /// was not, and every requested family that lacks a descriptor gets one,
    /// with the default family's options. Asking for the default family by
    /// name is an error, found when its turn comes: the names before it
    /// have been dealt with by then.
    pub fn complete_column_families(
        &mut self,
        cf_names: &[&str],
        ignore_unknown_column_families: bool,
    ) -> (r: Result<(), Error>)
        ensures
            final(self).db_opts@ == old(self).db_opts@,
            ({
                let before = descriptor_views(old(self).cf_descriptors@);
                let after = descriptor_views(final(self).cf_descriptors@);
                let requested = names_of(cf_names@);
                if !ignore_unknown_column_families && first_unknown(before, requested) is Some {
                    &&& r is Err
                    &&& r->Err_0@ == unknown_family_message(first_unknown(before, requested)->0)
                    &&& after == before
                } else {
                    &&& after == supplemented(with_default(before), requested, template(before))
                    &&& r is Ok <==> !requested.contains(default_name())
                    &&& r is Err ==> r->Err_0@ == reserved_name_message()
                }
            }),
    {
        let cf_name_default = "default";
        let ghost before = descriptor_views(self.cf_descriptors@);
        let ghost requested = names_of(cf_names@);
        let mut options_default: Option<Options> = None;
        let n = self.cf_descriptors.len();
        let mut i: usize = 0;
        assert(before.subrange(0, n as int) =~= before);
        while i < n
            invariant
                i <= n,
                n == self.cf_descriptors@.len(),
                *self == *old(self),
                before == descriptor_views(self.cf_descriptors@),
                requested == names_of(cf_names@),
                cf_name_default@ == default_name(),
                !ignore_unknown_column_families ==> first_unknown(before, requested)
                    == first_unknown(before.subrange(i as int, n as int), requested),
                match options_default {
                    Some(o) => described_template(before.subrange(0, i as int)) == Some(o@),
                    None => described_template(before.subrange(0, i as int)) is None,
                },
            decreases n - i,
        {
            proof {
                assert(before.subrange(0, i + 1).drop_last() =~= before.subrange(0, i as int));
                assert(before.subrange(i as int, n as int).drop_first() =~= before.subrange(
                    i + 1,
                    n as int,
                ));
            }
            let cfd = &self.cf_descriptors[i];
            if str_eq(cfd.name(), cf_name_default) {
                options_default = Some(cfd.options().clone());
            } else if !requests(cf_names, cfd.name()) {
                if !ignore_unknown_column_families {
                    let message = String::from_str("an unknown column family named \"").concat(
                        cfd.name(),
                    ).concat("\"");
                    return Err(Error::new(message));
                }
            }
            i += 1;
        }
        assert(before.subrange(n as int, n as int).len() == 0);
        let options_default = match options_default {
            Some(o) => o,
            None => {
                let cf = ColumnFamilyDescriptor::new(cf_name_default, Options::default());
                let o = cf.options().clone();
                self.cf_descriptors.insert(0, cf);
                assert(descriptor_views(self.cf_descriptors@) =~= with_default(before));
                o
            },
        };
        let ghost base = with_default(before);
        let m = cf_names.len();
        let mut j: usize = 0;
        assert(requested.subrange(0, m as int) =~= requested);
        while j < m
            invariant
                j <= m,
                ignore_unknown_column_families || first_unknown(before, requested) is None,
                before == descriptor_views(old(self).cf_descriptors@),
                base == with_default(before),
                m == cf_names@.len(),
                self.db_opts == old(self).db_opts,
                requested == names_of(cf_names@),
                cf_name_default@ == default_name(),
                options_default@ == template(before),
                forall|k: int| 0 <= k < j ==> requested[k] != default_name(),
                supplemented(
                    descriptor_views(self.cf_descriptors@),
                    requested.subrange(j as int, m as int),
                    template(before),
                ) == supplemented(base, requested, template(before)),
            decreases m - j,
        {
            proof {
                assert(requested.subrange(j as int, m as int).drop_first() =~= requested.subrange(
                    j + 1,
                    m as int,
                ));
                assert(requested.subrange(j as int, m as int)[0] == requested[j as int]);
            }
            let cf_name = cf_names[j];
            if str_eq(cf_name, cf_name_default) {
                let message = String::from_str(
                    "don't name a user-defined column family as \"",
                ).concat(cf_name).concat("\"");
                assert(requested[j as int] == default_name());
                return Err(Error::new(message));
            }
            if !describes(&self.cf_descriptors, cf_name) {
                let ghost listed = descriptor_views(self.cf_descriptors@);
                let cf = ColumnFamilyDescriptor::new(cf_name, options_default.clone());
                self.cf_descriptors.push(cf);
                assert(descriptor_views(self.cf_descriptors@) =~= listed.push(
                    DescriptorView { name: requested[j as int], options: template(before) },
                ));
            }
            j += 1;
        }
        Ok(())
    }
}

} // verus!
