use vmadm::jails::{parse_listing, JailOSEntry, OsJails};
use vmadm::jdb::{header, print_entry, DbError, IdxEntry, Index, JailConfig, Settings, JDB};

fn settings() -> Settings {
    Settings {
        conf_dir: String::from("/etc/jails"),
        pool: String::from("zroot/jails"),
        devfs_ruleset: 4,
    }
}

fn config_with_uuid(u: &str) -> JailConfig {
    JailConfig {
        uuid: String::from(u),
        image_uuid: String::from("img"),
        alias: String::from("web"),
        hostname: String::from("web.local"),
        max_physical_memory: 1024,
        cpu_cap: 100,
        quota: 5,
        autostart: false,
        nics: Vec::new(),
        brand: String::from("jail"),
    }
}

fn empty_db() -> JDB {
    JDB::open(settings(), Index::new(), OsJails::new()).unwrap()
}

#[test]
fn insert_then_get() {
    let mut db = empty_db();
    let e = db.insert(&config_with_uuid("u1")).unwrap();
    assert_eq!(e.root, "zroot/jails/u1");
    assert_eq!(e.state, "installing");
    assert_eq!(e.jail_type, "base");
    assert_eq!(e.version, 0);
    let j = db.get("u1").unwrap();
    assert_eq!(j.idx.root, "zroot/jails/u1");
    assert_eq!(j.idx.state, "installing");
    assert!(j.os.is_none());
}

#[test]
fn insert_twice_conflicts() {
    let mut db = empty_db();
    db.insert(&config_with_uuid("u1")).unwrap();
    match db.insert(&config_with_uuid("u1")) {
        Err(DbError::Conflict(u)) => assert_eq!(u, "u1"),
        other => panic!("expected a conflict, got {:?}", other),
    }
    let n = db.index().entries.iter().filter(|e| e.uuid == "u1").count();
    assert_eq!(n, 1);
    assert_eq!(db.index().entries.len(), 1);
}

#[test]
fn remove_unknown_is_not_found() {
    let mut db = empty_db();
    db.insert(&config_with_uuid("u1")).unwrap();
    match db.remove("nope") {
        Err(DbError::NotFound(u)) => assert_eq!(u, "nope"),
        other => panic!("expected not found, got {:?}", other),
    }
    assert_eq!(db.index().entries.len(), 1);
    assert_eq!(db.index().entries[0].uuid, "u1");
}

#[test]
fn remove_then_get_is_none() {
    let mut db = empty_db();
    db.insert(&config_with_uuid("u1")).unwrap();
    db.insert(&config_with_uuid("u2")).unwrap();
    assert_eq!(db.remove("u1").unwrap(), 0);
    assert!(db.get("u1").is_none());
    assert!(db.get("u2").is_some());
    assert_eq!(db.find("u2"), Some(0));
}

#[test]
fn open_refuses_duplicate_uuids() {
    let e = IdxEntry {
        version: 0,
        uuid: String::from("d"),
        root: String::from("p/d"),
        state: String::from("installing"),
        jail_type: String::from("base"),
    };
    let idx = Index { version: 0, entries: vec![e.clone(), e] };
    match JDB::open(settings(), idx, OsJails::new()) {
        Err(DbError::Duplicate(u)) => assert_eq!(u, "d"),
        other => panic!("expected a duplicate, got {:?}", other),
    }
}

#[test]
fn get_joins_running_jail() {
    let mut jails = OsJails::new();
    jails.insert(JailOSEntry { uuid: String::from("u1"), id: 9 });
    let mut db = JDB::open(settings(), Index::new(), jails).unwrap();
    db.insert(&config_with_uuid("u1")).unwrap();
    let j = db.get("u1").unwrap();
    assert_eq!(j.os.unwrap().id, 9);
    let (state, id) = db.live_state("u1", "installing");
    assert_eq!(state, "running");
    assert_eq!(id, 9);
    let (state, id) = db.live_state("u2", "stopped");
    assert_eq!(state, "stopped");
    assert_eq!(id, 0);
}

#[test]
fn print_rows() {
    let jails = parse_listing("12 u1\n").unwrap();
    let mut db = JDB::open(settings(), Index::new(), jails).unwrap();
    db.insert(&config_with_uuid("u1")).unwrap();
    db.insert(&config_with_uuid("u2")).unwrap();
    let rows = db.print(&vec![config_with_uuid("u1"), config_with_uuid("u2")]);
    assert_eq!(rows.len(), 3);
    assert_eq!(rows[0], format!("{:37} {:5} {:8} {:17} {:5} {}", "UUID", "TYPE", "RAM", "STATE", "ID", "ALIAS"));
    assert_eq!(rows[0], header());
    assert_eq!(rows[1], format!("{:37} {:5} {:8} {:17} {:5} {}", "u1", "OS", 1024, "running", 12, "web"));
    assert_eq!(rows[2], format!("{:37} {:5} {:8} {:17} {:5} {}", "u2", "OS", 1024, "installing", 0, "web"));
    assert_eq!(print_entry("x", 5, "s", 3, "a"), format!("{:37} {:5} {:8} {:17} {:5} {}", "x", "OS", 5, "s", 3, "a"));
}
