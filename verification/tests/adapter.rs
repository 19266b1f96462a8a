use r2d2_jfs::JfsConnectionManager;
use r2d2_jfs::StoreConfig;
use tempdir::TempDir;

#[test]
fn file_manager_shares_dataset() {
    let dir = TempDir::new("r2d2-jfs-test").expect("Could not create temporary directory");
    let path = dir.path().join("db.json");
    let m = JfsConnectionManager::file(path.to_str().unwrap()).unwrap();
    let s1 = m.connect().unwrap();
    let s2 = m.connect().unwrap();
    let a: i32 = 7;
    let b: i32 = -3;
    s1.save_with_id(&a, "a").unwrap();
    assert_eq!(s2.get::<i32>("a").unwrap(), 7);
    s2.save_with_id(&b, "b").unwrap();
    assert_eq!(s1.get::<i32>("b").unwrap(), -3);
}

#[test]
fn memory_manager_shares_dataset() {
    let m = JfsConnectionManager::memory();
    let s1 = m.connect().unwrap();
    let s2 = m.connect().unwrap();
    let x: i32 = 42;
    s1.save_with_id(&x, "x").unwrap();
    assert_eq!(s2.get::<i32>("x").unwrap(), 42);
    let y: i32 = 1;
    s2.save_with_id(&y, "x").unwrap();
    assert_eq!(s1.get::<i32>("x").unwrap(), 1);
}

#[test]
fn always_valid_never_broken() {
    let mem = JfsConnectionManager::memory();
    let mut conn = mem.connect().unwrap();
    assert!(mem.is_valid(&mut conn).is_ok());
    assert!(!mem.has_broken(&mut conn));

    let dir = TempDir::new("r2d2-jfs-test").expect("Could not create temporary directory");
    let path = dir.path().join("db.json");
    let file = JfsConnectionManager::file(path.to_str().unwrap()).unwrap();
    let mut conn = file.connect().unwrap();
    assert!(file.is_valid(&mut conn).is_ok());
    assert!(!file.has_broken(&mut conn));
}

#[test]
fn bad_path_is_io_error() {
    let r = JfsConnectionManager::file("/no-such-directory-r2d2-jfs/db.json");
    assert!(r.is_err());
    let cfg = StoreConfig { single: true, pretty: false, indent: 2 };
    let r = JfsConnectionManager::new_with_cfg("/no-such-directory-r2d2-jfs/db.json", cfg);
    assert!(r.is_err());
}

#[test]
fn sentinel_path_gives_memory_manager() {
    let m = JfsConnectionManager::new_with_cfg("::memory::", StoreConfig::default()).unwrap();
    let s1 = m.connect().unwrap();
    let s2 = m.connect().unwrap();
    let x: i32 = 9;
    s1.save_with_id(&x, "x").unwrap();
    assert_eq!(s2.get::<i32>("x").unwrap(), 9);
    assert!(JfsConnectionManager::file("::memory::").is_ok());
}

#[test]
fn sentinel_prefixed_path_is_rejected() {
    assert!(JfsConnectionManager::file("::memory::extra").is_err());
    assert!(JfsConnectionManager::dir("::memory::/sub").is_err());
}

#[test]
fn default_config_matches_store_defaults() {
    let cfg = StoreConfig::default();
    assert!(!cfg.single);
    assert!(!cfg.pretty);
    assert_eq!(cfg.indent, 2);
}

#[test]
fn explicit_config_is_used() {
    let dir = TempDir::new("r2d2-jfs-test").expect("Could not create temporary directory");
    let path = dir.path().join("pretty-db.json");
    let cfg = StoreConfig { single: true, pretty: true, indent: 4 };
    let m = JfsConnectionManager::new_with_cfg(path.to_str().unwrap(), cfg).unwrap();
    let s1 = m.connect().unwrap();
    let v: i32 = 5;
    s1.save_with_id(&v, "v").unwrap();
    let s2 = m.connect().unwrap();
    assert_eq!(s2.get::<i32>("v").unwrap(), 5);
}

#[test]
fn dir_manager_stores_records() {
    let dir = TempDir::new("r2d2-jfs-test").expect("Could not create temporary directory");
    let m = JfsConnectionManager::dir(dir.path().to_str().unwrap()).unwrap();
    let s = m.connect().unwrap();
    for i in 0i32..3i32 {
        s.save_with_id(&i, &i.to_string()).unwrap();
    }
    let all = s.all::<i32>().unwrap();
    assert_eq!(all.len(), 3);
    for (id, data) in all {
        assert_eq!(data.to_string(), id);
    }
}
