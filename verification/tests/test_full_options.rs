use ckb_rocksdb::column_family::ColumnFamilyDescriptor;
use ckb_rocksdb::db::DB;
use ckb_rocksdb::db_options::Options;
use ckb_rocksdb::engine::{Call, Reply};
use ckb_rocksdb::handle::{CfPtr, DbPtr, OptionsPtr};
use ckb_rocksdb::open_raw::{OpenRaw, Opened};
use ckb_rocksdb::ops::GetColumnFamily;
use ckb_rocksdb::options::{FullOptions, LoadedOptions};

/// What the engine finds in an options file that describes the default
/// family and `col_fam_A`.
fn loaded() -> Reply<LoadedOptions> {
    Reply::ok(LoadedOptions {
        db_opts: OptionsPtr(0x10),
        cf_descs: vec![
            (b"default".to_vec(), OptionsPtr(0x20)),
            (b"col_fam_A".to_vec(), OptionsPtr(0x30)),
        ],
    })
}

fn described(names: &[&str]) -> FullOptions {
    FullOptions {
        db_opts: Options::default(),
        cf_descriptors: names
            .iter()
            .map(|name| ColumnFamilyDescriptor::new(name, Options::default()))
            .collect(),
    }
}

fn names(opts: &FullOptions) -> Vec<String> {
    opts.cf_descriptors.iter().map(|d| d.name().to_string()).collect()
}

#[test]
fn test_options_load_from_file() {
    let full_opts = {
        let config_file = "tests/resources/OPTIONS-000001";
        let call = FullOptions::load_from_file(config_file, None, false);
        assert!(call.is_ok());
        assert_eq!(
            call.unwrap(),
            Call::OptionsLoadFromFile {
                path: config_file.as_bytes().to_vec(),
                cache_size: None,
                ignore_unknown_options: false,
            }
        );
        let opts_res = FullOptions::from_loaded(loaded());
        assert!(opts_res.is_ok());
        opts_res.unwrap()
    };

    assert_eq!(full_opts.cf_descriptors.len(), 2);
    let cf_default_name = "default";
    assert!(
        full_opts
            .cf_descriptors
            .iter()
            .any(|cfd| cfd.name() == cf_default_name),
        "there must be column family named \"{}\"",
        cf_default_name
    );

    {
        let cfs_0: &[&str] = &[];
        let cfs_1: &[&str] = &["col_fam_A"];
        let cfs_2: &[&str] = &["col_fam_A", "col_fam_B"];
        let cfs_3: &[&str] = &["col_fam_B"];
        let mut fopts_0 = full_opts.clone();
        let mut fopts_1 = full_opts.clone();
        let mut fopts_2 = full_opts.clone();
        let mut fopts_3 = full_opts.clone();

        let res_0 = fopts_0.complete_column_families(cfs_0, false);
        let res_1 = fopts_1.complete_column_families(cfs_1, false);
        let res_2 = fopts_2.complete_column_families(cfs_2, false);
        let res_3 = fopts_3.complete_column_families(cfs_3, false);
        assert!(res_0.is_err(), "no column family was expected");
        assert!(res_1.is_ok(), "error: {}", res_1.unwrap_err().to_string());
        assert!(res_2.is_ok(), "error: {}", res_2.unwrap_err().to_string());
        assert!(res_3.is_err(), "expect \"col_fam_B\"; has \"col_fam_A\"");
        assert_eq!(fopts_1.cf_descriptors.len(), 2);
        assert_eq!(fopts_2.cf_descriptors.len(), 3);

        let res_1_0 = fopts_1.clone().complete_column_families(cfs_0, false);
        let res_1_1 = fopts_1.clone().complete_column_families(cfs_1, false);
        let res_1_2 = fopts_1.clone().complete_column_families(cfs_2, false);
        let res_1_3 = fopts_1.clone().complete_column_families(cfs_3, false);
        assert!(res_1_0.is_err(), "no column family was expected");
        assert!(res_1_1.is_ok(), "error: {}", res_1_1.unwrap_err().to_string());
        assert!(res_1_2.is_ok(), "error: {}", res_1_2.unwrap_err().to_string());
        assert!(res_1_3.is_err(), "expect \"col_fam_B\"; has \"col_fam_A\"");
        let res_1_0 = fopts_1.clone().complete_column_families(cfs_0, true);
        let res_1_3 = fopts_1.clone().complete_column_families(cfs_3, true);
        assert!(res_1_0.is_ok(), "error: {}", res_1_0.unwrap_err().to_string());
        assert!(res_1_3.is_ok(), "error: {}", res_1_3.unwrap_err().to_string());

        let res_2_0 = fopts_2.clone().complete_column_families(cfs_0, false);
        let res_2_1 = fopts_2.clone().complete_column_families(cfs_1, false);
        let res_2_2 = fopts_2.clone().complete_column_families(cfs_2, false);
        let res_2_3 = fopts_2.clone().complete_column_families(cfs_3, false);
        assert!(res_2_0.is_err(), "no column family was expected");
        assert!(res_2_1.is_err(), "1 column family was expected but has 2");
        assert!(res_2_2.is_ok(), "error: {}", res_2_2.unwrap_err().to_string());
        assert!(res_2_3.is_err(), "should not has \"col_fam_A\"");
        let res_2_0 = fopts_2.clone().complete_column_families(cfs_0, true);
        let res_2_1 = fopts_2.clone().complete_column_families(cfs_1, true);
        let res_2_3 = fopts_2.clone().complete_column_families(cfs_3, true);
        assert!(res_2_0.is_ok(), "error: {}", res_2_0.unwrap_err().to_string());
        assert!(res_2_1.is_ok(), "error: {}", res_2_1.unwrap_err().to_string());
        assert!(res_2_3.is_ok(), "error: {}", res_2_3.unwrap_err().to_string());
    }

    {
        let mut fopts = full_opts.clone();
        let cf_names: &[&str] = &["col_fam_A", "col_fam_C"];
        assert!(fopts.complete_column_families(cf_names, false).is_ok());
        assert_eq!(fopts.cf_descriptors.len(), 3);

        let FullOptions {
            mut db_opts,
            cf_descriptors,
        } = fopts;
        db_opts.set("create_if_missing", "true");
        db_opts.set("create_missing_column_families", "true");
        let call = DB::open_raw(&db_opts, "a/path", &cf_descriptors, ()).unwrap();
        match call {
            Call::OpenColumnFamilies { options, path, families } => {
                assert_eq!(options, db_opts);
                assert_eq!(path, b"a/path".to_vec());
                let opened: Vec<Vec<u8>> = families.iter().map(|f| f.0.clone()).collect();
                assert_eq!(
                    opened,
                    vec![b"default".to_vec(), b"col_fam_A".to_vec(), b"col_fam_C".to_vec()]
                );
            }
            other => panic!("unexpected call: {:?}", other),
        }
        let names: Vec<String> = cf_descriptors.iter().map(|d| d.name().to_string()).collect();
        let reply = Reply::ok(Opened {
            db: DbPtr(0x1000),
            column_families: vec![CfPtr(0x1), CfPtr(0x2), CfPtr(0x3)],
        });
        let db = DB::opened("a/path".to_string(), (), reply, names).unwrap();
        let cf_a_opt = db.cf_handle("col_fam_A");
        let cf_b_opt = db.cf_handle("col_fam_B");
        let cf_c_opt = db.cf_handle("col_fam_C");
        assert!(cf_a_opt.is_some());
        assert!(cf_b_opt.is_none());
        assert!(cf_c_opt.is_some());
    }
}

#[test]
fn complete_keeps_two_descriptors_when_the_requested_family_is_described() {
    let mut opts = described(&["default", "A"]);
    let res = opts.complete_column_families(&["A"], false);
    assert!(res.is_ok());
    assert_eq!(opts.cf_descriptors.len(), 2);
    assert_eq!(names(&opts), vec!["default", "A"]);
}

#[test]
fn complete_fails_on_a_described_family_that_was_not_requested() {
    let mut opts = described(&["default", "A"]);
    let before = opts.clone();
    let res = opts.complete_column_families(&["B"], false);
    assert_eq!(
        res.unwrap_err().to_string(),
        "an unknown column family named \"A\""
    );
    assert_eq!(opts, before);
}

#[test]
fn complete_reports_the_first_unknown_family() {
    let mut opts = described(&["X", "default", "A", "Y"]);
    let res = opts.complete_column_families(&["A"], false);
    assert_eq!(
        res.unwrap_err().to_string(),
        "an unknown column family named \"X\""
    );
}

#[test]
fn complete_adds_a_family_with_the_options_of_the_default_one() {
    let mut template = Options::default();
    template.set("write_buffer_size", "1048576");
    let mut opts = FullOptions {
        db_opts: Options::default(),
        cf_descriptors: vec![
            ColumnFamilyDescriptor::new("default", template.clone()),
            ColumnFamilyDescriptor::new("A", Options::default()),
        ],
    };
    let res = opts.complete_column_families(&["A", "C"], false);
    assert!(res.is_ok());
    assert_eq!(names(&opts), vec!["default", "A", "C"]);
    assert_eq!(opts.cf_descriptors[2].options(), &template);
    assert_eq!(opts.cf_descriptors[1].options(), &Options::default());
}

#[test]
fn complete_takes_the_options_of_the_last_default_descriptor() {
    let mut first = Options::default();
    first.set("k", "1");
    let mut last = Options::default();
    last.set("k", "2");
    let mut opts = FullOptions {
        db_opts: Options::default(),
        cf_descriptors: vec![
            ColumnFamilyDescriptor::new("default", first),
            ColumnFamilyDescriptor::new("default", last.clone()),
        ],
    };
    assert!(opts.complete_column_families(&["C"], false).is_ok());
    assert_eq!(names(&opts), vec!["default", "default", "C"]);
    assert_eq!(opts.cf_descriptors[2].options(), &last);
}

#[test]
fn complete_describes_the_default_family_first_when_it_is_missing() {
    let mut opts = described(&["A"]);
    let res = opts.complete_column_families(&["A", "B"], false);
    assert!(res.is_ok());
    assert_eq!(names(&opts), vec!["default", "A", "B"]);
    assert_eq!(opts.cf_descriptors[0].options(), &Options::default());
    assert_eq!(opts.cf_descriptors[2].options(), &Options::default());
}

#[test]
fn complete_on_nothing_describes_the_default_family() {
    let mut opts = described(&[]);
    assert!(opts.complete_column_families(&[], false).is_ok());
    assert_eq!(names(&opts), vec!["default"]);
}

#[test]
fn complete_adds_a_repeated_name_once() {
    let mut opts = described(&["default"]);
    assert!(opts.complete_column_families(&["B", "B"], false).is_ok());
    assert_eq!(names(&opts), vec!["default", "B"]);
}

#[test]
fn complete_ignores_unknown_families_when_told_to() {
    let mut opts = described(&["default", "A", "Z"]);
    assert!(opts.complete_column_families(&["B"], true).is_ok());
    assert_eq!(names(&opts), vec!["default", "A", "Z", "B"]);
}

#[test]
fn complete_refuses_the_default_name_after_dealing_with_the_names_before_it() {
    let mut opts = described(&["A"]);
    let res = opts.complete_column_families(&["A", "B", "default", "C"], false);
    assert_eq!(
        res.unwrap_err().to_string(),
        "don't name a user-defined column family as \"default\""
    );
    assert_eq!(names(&opts), vec!["default", "A", "B"]);
}

#[test]
fn complete_leaves_the_database_options_alone() {
    let mut db_opts = Options::default();
    db_opts.set("max_open_files", "64");
    let mut opts = FullOptions { db_opts: db_opts.clone(), cf_descriptors: vec![] };
    assert!(opts.complete_column_families(&["A"], false).is_ok());
    assert_eq!(opts.db_opts, db_opts);
}

#[test]
fn load_from_file_refuses_a_path_with_a_zero_byte() {
    let res = FullOptions::load_from_file("bad\0path", Some(1000), true);
    assert_eq!(
        res.unwrap_err().to_string(),
        "Failed to convert path to CString when load config file."
    );
}

#[test]
fn load_from_file_passes_cache_size_and_lenience_on() {
    let res = FullOptions::load_from_file("OPTIONS", Some(1000), true);
    assert_eq!(
        res.unwrap(),
        Call::OptionsLoadFromFile {
            path: b"OPTIONS".to_vec(),
            cache_size: Some(1000),
            ignore_unknown_options: true,
        }
    );
}

#[test]
fn from_loaded_surfaces_names_and_options_of_each_family() {
    let opts = FullOptions::from_loaded(loaded()).unwrap();
    assert_eq!(opts.db_opts, Options::from_native(OptionsPtr(0x10)));
    assert_eq!(names(&opts), vec!["default", "col_fam_A"]);
    assert_eq!(opts.cf_descriptors[0].options(), &Options::from_native(OptionsPtr(0x20)));
    assert_eq!(opts.cf_descriptors[1].options(), &Options::from_native(OptionsPtr(0x30)));
}

#[test]
fn from_loaded_decodes_names_leniently() {
    let reply = Reply::ok(LoadedOptions {
        db_opts: OptionsPtr(1),
        cf_descs: vec![(vec![b'a', 0xff, b'b'], OptionsPtr(2))],
    });
    let opts = FullOptions::from_loaded(reply).unwrap();
    assert_eq!(names(&opts), vec!["a\u{fffd}b"]);
}

#[test]
fn from_loaded_surfaces_the_engine_error() {
    let reply = Reply::failed(
        LoadedOptions { db_opts: OptionsPtr(0), cf_descs: vec![] },
        b"Invalid argument: unknown option".to_vec(),
    );
    let res = FullOptions::from_loaded(reply);
    assert_eq!(res.unwrap_err().to_string(), "Invalid argument: unknown option");
}
