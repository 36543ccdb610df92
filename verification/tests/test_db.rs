use ckb_rocksdb::column_family::{ColumnFamilies, ColumnFamilyDescriptor};
use ckb_rocksdb::db::DB;
use ckb_rocksdb::db_options::Options;
use ckb_rocksdb::engine::{Call, Reply};
use ckb_rocksdb::handle::{CfPtr, DbPtr, Handle, OptionsPtr};
use ckb_rocksdb::open_raw::{OpenRaw, OpenRawFFI, Opened};
use ckb_rocksdb::ops::{GetColumnFamily, GetColumnFamilys};
use ckb_rocksdb::read_only_db::{ReadOnlyDB, ReadOnlyOpenDescriptor};
use ckb_rocksdb::secondary_db::{SecondaryDB, SecondaryOpenDescriptor};

fn input<'a, D>(
    options: &'a Options,
    descriptor: D,
    families: Vec<(Vec<u8>, Options)>,
) -> OpenRawFFI<'a, D> {
    OpenRawFFI {
        options,
        path: b"db".to_vec(),
        open_descriptor: descriptor,
        column_families: families,
    }
}

fn two_families() -> Vec<(Vec<u8>, Options)> {
    vec![
        (b"default".to_vec(), Options::default()),
        (b"A".to_vec(), Options::from_native(OptionsPtr(4))),
    ]
}

#[test]
fn a_read_only_database_opens_without_families_by_the_plain_call() {
    let options = Options::default();
    let call = ReadOnlyDB::open_ffi(input(&options, ReadOnlyOpenDescriptor::default(), vec![]));
    assert_eq!(
        call,
        Ok(Call::OpenForReadOnly {
            options: Options::default(),
            path: b"db".to_vec(),
            error_if_log_file_exists: false,
        })
    );
}

#[test]
fn a_read_only_database_opens_with_families_by_the_call_that_takes_them() {
    let mut options = Options::default();
    options.set("max_open_files", "16");
    let call =
        ReadOnlyDB::open_ffi(input(&options, ReadOnlyOpenDescriptor::new(true), two_families()));
    assert_eq!(
        call,
        Ok(Call::OpenForReadOnlyColumnFamilies {
            options: options.clone(),
            path: b"db".to_vec(),
            families: two_families(),
            error_if_log_file_exists: true,
        })
    );
}

#[test]
fn a_follower_needs_a_path_of_its_own() {
    let options = Options::default();
    let err = SecondaryDB::open_ffi(input(&options, SecondaryOpenDescriptor::default(), vec![]))
        .unwrap_err();
    assert_eq!(err.to_string(), "Secondary DB must have secondary path provided!");
    let err = SecondaryDB::open_ffi(input(
        &options,
        SecondaryOpenDescriptor::new(String::new()),
        two_families(),
    ))
    .unwrap_err();
    assert_eq!(err.to_string(), "Secondary DB must have secondary path provided!");
}

#[test]
fn a_follower_path_with_a_zero_byte_is_refused() {
    let options = Options::default();
    let err = SecondaryDB::open_ffi(input(
        &options,
        SecondaryOpenDescriptor::new("se\0cond".to_string()),
        vec![],
    ))
    .unwrap_err();
    assert_eq!(err.to_string(), "Failed to convert path to CString when opening database.");
}

#[test]
fn a_follower_opens_by_the_call_that_fits_its_families() {
    let options = Options::default();
    let descriptor = || SecondaryOpenDescriptor::new("second".to_string());
    assert_eq!(
        SecondaryDB::open_ffi(input(&options, descriptor(), vec![])),
        Ok(Call::OpenAsSecondary {
            options: Options::default(),
            path: b"db".to_vec(),
            secondary_path: b"second".to_vec(),
        })
    );
    assert_eq!(
        SecondaryDB::open_ffi(input(&options, descriptor(), two_families())),
        Ok(Call::OpenAsSecondaryColumnFamilies {
            options: Options::default(),
            path: b"db".to_vec(),
            secondary_path: b"second".to_vec(),
            families: two_families(),
        })
    );
}

#[test]
fn the_primary_opens_by_the_call_that_fits_its_families() {
    let options = Options::default();
    assert_eq!(
        DB::open_ffi(input(&options, (), vec![])),
        Ok(Call::Open { options: Options::default(), path: b"db".to_vec() })
    );
    assert_eq!(
        DB::open_ffi(input(&options, (), two_families())),
        Ok(Call::OpenColumnFamilies {
            options: Options::default(),
            path: b"db".to_vec(),
            families: two_families(),
        })
    );
}

#[test]
fn open_raw_marshals_path_and_names() {
    let options = Options::default();
    let descriptors = vec![
        ColumnFamilyDescriptor::new("default", Options::default()),
        ColumnFamilyDescriptor::new("A", Options::from_native(OptionsPtr(4))),
    ];
    let call =
        ReadOnlyDB::open_raw(&options, "db", &descriptors, ReadOnlyOpenDescriptor::default());
    assert_eq!(
        call,
        Ok(Call::OpenForReadOnlyColumnFamilies {
            options: Options::default(),
            path: b"db".to_vec(),
            families: two_families(),
            error_if_log_file_exists: false,
        })
    );
    let none: Vec<ColumnFamilyDescriptor> = vec![];
    assert_eq!(
        DB::open_raw(&options, "db", &none, ()),
        Ok(Call::Open { options: Options::default(), path: b"db".to_vec() })
    );
}

#[test]
fn open_raw_refuses_zero_bytes_in_path_and_names() {
    let options = Options::default();
    let none: Vec<ColumnFamilyDescriptor> = vec![];
    let err = DB::open_raw(&options, "d\0b", &none, ()).unwrap_err();
    assert_eq!(err.to_string(), "Failed to convert path to CString when opening database.");
    let bad = vec![
        ColumnFamilyDescriptor::new("default", Options::default()),
        ColumnFamilyDescriptor::new("A\0", Options::default()),
    ];
    let err = DB::open_raw(&options, "db", &bad, ()).unwrap_err();
    assert_eq!(
        err.to_string(),
        "Failed to convert column family name to CString when opening database."
    );
    let err = SecondaryDB::open_raw(&options, "db", &none, SecondaryOpenDescriptor::default())
        .unwrap_err();
    assert_eq!(err.to_string(), "Secondary DB must have secondary path provided!");
}

fn reply(handles: Vec<usize>) -> Reply<Opened> {
    Reply::ok(Opened {
        db: DbPtr(0x40),
        column_families: handles.into_iter().map(CfPtr).collect(),
    })
}

fn strings(names: &[&str]) -> Vec<String> {
    names.iter().map(|n| n.to_string()).collect()
}

#[test]
fn opened_takes_the_database_and_its_families_over() {
    let db = ReadOnlyDB::opened(
        "db".to_string(),
        ReadOnlyOpenDescriptor::default(),
        reply(vec![1, 2]),
        strings(&["default", "A"]),
    )
    .unwrap();
    assert_eq!(db.path(), "db");
    assert_eq!(db.handle(), DbPtr(0x40));
    assert_eq!(db.get_cfs().len(), 2);
    assert_eq!(db.cf_handle("default").map(|cf| cf.handle()), Some(CfPtr(1)));
    assert_eq!(db.cf_handle("A").map(|cf| cf.handle()), Some(CfPtr(2)));
    assert!(db.cf_handle("B").is_none());
}

#[test]
fn opened_surfaces_what_went_wrong() {
    let failed = Reply::failed(
        Opened { db: DbPtr(0), column_families: vec![] },
        b"IO error: No such file or directory".to_vec(),
    );
    let err = DB::opened("db".to_string(), (), failed, vec![]).unwrap_err();
    assert_eq!(err.to_string(), "IO error: No such file or directory");
    let err = DB::opened("db".to_string(), (), reply(vec![1]), strings(&["default", "A"]))
        .unwrap_err();
    assert_eq!(
        err.to_string(),
        "Received a wrong number of column family handles from database."
    );
    let err = DB::opened("db".to_string(), (), reply(vec![1, 0]), strings(&["default", "A"]))
        .unwrap_err();
    assert_eq!(err.to_string(), "Received null column family handle from database.");
    let err = DB::opened("db".to_string(), (), reply(vec![1, 2]), strings(&["A", "A"]))
        .unwrap_err();
    assert_eq!(err.to_string(), "a column family named \"A\" is already open");
}

#[test]
fn build_refuses_two_families_under_one_name() {
    let families = vec![
        ("A".to_string(), CfPtr(1)),
        ("B".to_string(), CfPtr(2)),
        ("A".to_string(), CfPtr(3)),
    ];
    let err = ReadOnlyDB::build(
        "db".to_string(),
        ReadOnlyOpenDescriptor::default(),
        DbPtr(5),
        families,
    )
    .unwrap_err();
    assert_eq!(err.to_string(), "a column family named \"A\" is already open");
}

#[test]
fn teardown_destroys_every_family_before_it_closes_the_database() {
    let families = || vec![("b".to_string(), CfPtr(2)), ("a".to_string(), CfPtr(1))];
    let expected = vec![
        Call::ColumnFamilyHandleDestroy { cf: CfPtr(2) },
        Call::ColumnFamilyHandleDestroy { cf: CfPtr(1) },
        Call::Close { db: DbPtr(5) },
    ];
    let ro = ReadOnlyDB::build("db".to_string(), ReadOnlyOpenDescriptor::default(), DbPtr(5), families())
        .unwrap();
    assert_eq!(ro.close(), expected);
    let second = SecondaryDB::build(
        "db".to_string(),
        SecondaryOpenDescriptor::new("s".to_string()),
        DbPtr(5),
        families(),
    )
    .unwrap();
    assert_eq!(second.path(), "db");
    assert_eq!(second.close(), expected);
    let db = DB::build("db".to_string(), (), DbPtr(5), families()).unwrap();
    assert_eq!(db.close(), expected);
    let bare = DB::build("db".to_string(), (), DbPtr(6), vec![]).unwrap();
    assert_eq!(bare.close(), vec![Call::Close { db: DbPtr(6) }]);
}

#[test]
fn the_registry_looks_up_registers_and_removes_by_name() {
    let mut cfs = ColumnFamilies::new();
    assert_eq!(cfs.len(), 0);
    assert!(cfs.get("A").is_none());
    assert_eq!(cfs.insert("A", CfPtr(1)), Ok(()));
    assert_eq!(cfs.insert("B", CfPtr(2)), Ok(()));
    let err = cfs.insert("A", CfPtr(3)).unwrap_err();
    assert_eq!(err.to_string(), "a column family named \"A\" is already open");
    assert_eq!(cfs.len(), 2);
    assert_eq!(cfs.get("A").map(|cf| cf.handle()), Some(CfPtr(1)));
    assert_eq!(cfs.get("B").map(|cf| cf.handle()), Some(CfPtr(2)));
    let removed = cfs.remove("A").unwrap();
    assert_eq!(removed.handle(), CfPtr(1));
    assert!(cfs.remove("A").is_none());
    assert!(cfs.get("A").is_none());
    assert_eq!(cfs.len(), 1);
    assert_eq!(cfs.insert("A", CfPtr(4)), Ok(()));
    assert_eq!(
        cfs.close(),
        vec![
            Call::ColumnFamilyHandleDestroy { cf: CfPtr(2) },
            Call::ColumnFamilyHandleDestroy { cf: CfPtr(4) },
        ]
    );
}

#[test]
fn the_registry_of_a_database_can_be_changed_in_place() {
    let mut db = ReadOnlyDB::build(
        "db".to_string(),
        ReadOnlyOpenDescriptor::default(),
        DbPtr(5),
        vec![("A".to_string(), CfPtr(1))],
    )
    .unwrap();
    assert_eq!(db.get_mut_cfs().insert("B", CfPtr(2)), Ok(()));
    assert_eq!(db.cf_handle("B").map(|cf| cf.handle()), Some(CfPtr(2)));
    assert!(db.get_mut_cfs().remove("A").is_some());
    assert!(db.cf_handle("A").is_none());
    assert_eq!(db.handle(), DbPtr(5));
    assert_eq!(db.path(), "db");
}

#[test]
fn a_column_family_is_created_registered_and_dropped() {
    let mut db = DB::build("db".to_string(), (), DbPtr(5), vec![("A".to_string(), CfPtr(1))])
        .unwrap();
    let mut opts = Options::default();
    opts.set("ttl", "60");
    assert_eq!(
        db.create_cf("B", &opts),
        Ok(Call::CreateColumnFamily { db: DbPtr(5), options: opts.clone(), name: b"B".to_vec() })
    );
    assert_eq!(db.register_cf("B", Reply::ok(CfPtr(2))), Ok(()));
    assert_eq!(db.cf_handle("B").map(|cf| cf.handle()), Some(CfPtr(2)));

    let err = db.create_cf("B", &opts).unwrap_err();
    assert_eq!(err.to_string(), "a column family named \"B\" is already open");
    let err = db.create_cf("C\0", &opts).unwrap_err();
    assert_eq!(err.to_string(), "Failed to convert path to CString when opening rocksdb");
    let err = db.register_cf("C", Reply::failed(CfPtr(0), b"Invalid argument".to_vec()))
        .unwrap_err();
    assert_eq!(err.to_string(), "Invalid argument");
    assert!(db.cf_handle("C").is_none());
    let err = db.register_cf("A", Reply::ok(CfPtr(9))).unwrap_err();
    assert_eq!(err.to_string(), "a column family named \"A\" is already open");

    assert_eq!(
        db.drop_cf("A"),
        Ok(vec![
            Call::DropColumnFamily { db: DbPtr(5), cf: CfPtr(1) },
            Call::ColumnFamilyHandleDestroy { cf: CfPtr(1) },
        ])
    );
    assert!(db.cf_handle("A").is_none());
    let err = db.drop_cf("A").unwrap_err();
    assert_eq!(err.to_string(), "Invalid column family: A");
    assert_eq!(
        db.close(),
        vec![Call::ColumnFamilyHandleDestroy { cf: CfPtr(2) }, Call::Close { db: DbPtr(5) }]
    );
}

#[test]
fn options_are_recipes_of_settings_over_a_base() {
    let mut opts = Options::default();
    assert_eq!(opts.base(), None);
    assert_eq!(opts.len(), 0);
    opts.set("a", "1");
    opts.set("b", "2");
    opts.set("a", "3");
    assert_eq!(opts.len(), 3);
    assert_eq!(opts.setting(0), ("a", "1"));
    assert_eq!(opts.setting(1), ("b", "2"));
    assert_eq!(opts.setting(2), ("a", "3"));
    let copy = opts.clone();
    assert_eq!(copy, opts);
    let native = Options::from_native(OptionsPtr(8));
    assert_eq!(native.base(), Some(OptionsPtr(8)));
    assert_eq!(native.len(), 0);
    assert_ne!(native, Options::default());
    let d = ColumnFamilyDescriptor::new("cf", copy);
    assert_eq!(d.name(), "cf");
    assert_eq!(d.options(), &opts);
    assert_eq!(d.clone(), d);
}
