use fireup::error::FailureKind;
use fireup::state::create_connection_pool;
use fireup::state::ledger::{alterations, script_sql, statement_sql, Alteration, Column};
use fireup::state::entity::drive::Drive;
use fireup::state::entity::virtual_machine::VirtualMachine;
use fireup::state::migration::{after_migration, database_path, ledger, tolerates, Migration};
use fireup::state::repo::drive as drives;
use fireup::state::repo::drive::Drives;
use fireup::state::repo::virtual_machine::uniqueness_violation;
use fireup::state::repo::virtual_machine::{
    all, create, create_with_id, delete, find, find_by_api_socket, find_by_project_dir, update,
    update_all_status, update_status, Inventory,
};

fn vm(name: &str, n: u32) -> VirtualMachine {
    VirtualMachine {
        name: name.into(),
        status: "NEW".into(),
        vcpu: 2,
        memory: 512,
        distro: "alpine".into(),
        pid: Some(1000 + n),
        mac_address: format!("02:00:00:00:00:{:02X}", n),
        bridge: "fcbr0".into(),
        tap: format!("tap{}", n),
        api_socket: format!("/tmp/firecracker-{}.sock", name),
        ..Default::default()
    }
}

fn two() -> Inventory {
    let mut inv = Inventory::new();
    create_with_id(&mut inv, vm("a", 0), "id-a".into(), Some("/p/a".into()), 100).unwrap();
    create_with_id(&mut inv, vm("b", 1), "id-b".into(), None, 200).unwrap();
    inv
}

#[test]
fn create_assigns_id_status_project_dir_and_time() {
    let inv = two();
    let rows = all(&inv);
    assert_eq!(rows.len(), 2);
    assert_eq!(inv.len(), 2);
    assert_eq!(rows[0].id, "id-a");
    assert_eq!(rows[0].status, "RUNNING");
    assert_eq!(rows[0].project_dir, Some("/p/a".to_string()));
    assert_eq!(rows[0].created_at, 100);
    assert_eq!(rows[0].updated_at, 100);
    assert_eq!(rows[0].tap, "tap0");
    assert_eq!(rows[1].id, "id-b");
    assert_eq!(rows[1].project_dir, None);
    assert_eq!(rows[1].pid, Some(1001));
}

#[test]
fn create_generates_distinct_ids() {
    let mut inv = Inventory::new();
    let a = create(&mut inv, vm("a", 0), None, 1).unwrap();
    let b = create(&mut inv, vm("b", 1), None, 1).unwrap();
    assert_ne!(a, b);
    assert_eq!(a.len(), 20);
    assert_eq!(find(&inv, &a).unwrap().name, "a");
    assert_eq!(find(&inv, "b").unwrap().id, b);
    assert!(create(&mut inv, vm("b", 2), None, 1).is_err());
    assert_eq!(inv.len(), 2);
}

#[test]
fn every_conflict_is_refused_and_changes_nothing() {
    let base = two();
    let fresh = || vm("c", 2);
    let cases: Vec<(VirtualMachine, &str, Option<String>, FailureKind, &str)> = vec![
        (fresh(), "id-a", None, FailureKind::IdInUse, "id-a"),
        (VirtualMachine { name: "a".into(), ..fresh() }, "id-c", None, FailureKind::NameInUse, "a"),
        (
            VirtualMachine { api_socket: "/tmp/firecracker-b.sock".into(), ..fresh() },
            "id-c",
            None,
            FailureKind::ApiSocketInUse,
            "/tmp/firecracker-b.sock",
        ),
        (VirtualMachine { tap: "tap1".into(), ..fresh() }, "id-c", None, FailureKind::TapInUse, "tap1"),
        (
            VirtualMachine { mac_address: "02:00:00:00:00:00".into(), ..fresh() },
            "id-c",
            None,
            FailureKind::MacInUse,
            "02:00:00:00:00:00",
        ),
        (fresh(), "id-c", Some("/p/a".into()), FailureKind::ProjectDirAlreadyBound, "/p/a"),
    ];
    for (row, id, dir, kind, subject) in cases {
        let mut inv = base.clone();
        let err = create_with_id(&mut inv, row, id.into(), dir, 300).unwrap_err();
        assert_eq!(err.kind, kind);
        assert_eq!(err.subject, subject);
        assert_eq!(all(&inv), all(&base));
    }
    let mut inv = base.clone();
    create_with_id(&mut inv, fresh(), "id-c".into(), None, 300).unwrap();
    create_with_id(&mut inv, vm("d", 3), "id-d".into(), None, 300).unwrap();
    assert_eq!(inv.len(), 4);
}

#[test]
fn load_accepts_consistent_rows_only() {
    let rows = all(&two());
    let inv = Inventory::load(rows.clone()).unwrap();
    assert_eq!(all(&inv), rows);
    assert_eq!(Inventory::load(vec![]).unwrap().len(), 0);
    let mut clash = rows.clone();
    clash[1].tap = "tap0".into();
    assert_eq!(Inventory::load(clash).unwrap_err().kind, FailureKind::TapInUse);
    let mut clash = rows.clone();
    clash[1].mac_address = clash[0].mac_address.clone();
    assert_eq!(Inventory::load(clash).unwrap_err().kind, FailureKind::MacInUse);
    let mut clash = rows;
    clash[1].api_socket = clash[0].api_socket.clone();
    assert_eq!(Inventory::load(clash).unwrap_err().kind, FailureKind::ApiSocketInUse);
}

#[test]
fn find_by_name_id_project_dir_and_socket() {
    let inv = two();
    assert_eq!(find(&inv, "a").unwrap().id, "id-a");
    assert_eq!(find(&inv, "id-b").unwrap().name, "b");
    assert_eq!(find(&inv, "c"), None);
    assert_eq!(find(&inv, ""), None);
    assert_eq!(find_by_project_dir(&inv, "/p/a").unwrap().name, "a");
    assert_eq!(find_by_project_dir(&inv, "/p/b"), None);
    assert_eq!(find_by_api_socket(&inv, "/tmp/firecracker-b.sock").unwrap().name, "b");
    assert_eq!(find_by_api_socket(&inv, "/tmp/firecracker-c.sock"), None);
    let mut named_like_id = two();
    create_with_id(&mut named_like_id, vm("id-a", 9), "id-z".into(), None, 1).unwrap();
    assert_eq!(find(&named_like_id, "id-a").unwrap().name, "a");
}

#[test]
fn update_replaces_fields_but_keeps_id_name_and_creation() {
    let mut inv = two();
    let new = VirtualMachine {
        id: "ignored".into(),
        name: "ignored".into(),
        status: "RUNNING".into(),
        vcpu: 4,
        memory: 2048,
        distro: "nixos".into(),
        pid: Some(77),
        mac_address: "02:11:11:11:11:11".into(),
        bridge: "br1".into(),
        tap: "tap9".into(),
        api_socket: "/tmp/firecracker-a2.sock".into(),
        project_dir: None,
        ip_address: Some("172.16.0.9".into()),
        vmlinux: Some("/k".into()),
        rootfs: Some("/r".into()),
        bootargs: Some("quiet".into()),
        ssh_keys: Some("ssh-ed25519 BBB b".into()),
        created_at: 9999,
        updated_at: 9999,
    };
    update(&mut inv, "id-a", new.clone(), 500).unwrap();
    let rows = all(&inv);
    assert_eq!(
        rows[0],
        VirtualMachine {
            id: "id-a".into(),
            name: "a".into(),
            created_at: 100,
            updated_at: 500,
            ..new
        }
    );
    assert_eq!(rows[1], all(&two())[1]);
}

#[test]
fn update_by_unknown_id_or_by_name_changes_nothing() {
    let mut inv = two();
    update(&mut inv, "nope", vm("x", 5), 1).unwrap();
    update(&mut inv, "a", vm("x", 5), 1).unwrap();
    assert_eq!(all(&inv), all(&two()));
}

#[test]
fn update_keeps_the_rows_own_values_and_refuses_anothers() {
    let mut inv = two();
    let same = all(&inv)[0].clone();
    update(&mut inv, "id-a", same, 7).unwrap();
    assert_eq!(all(&inv)[0].tap, "tap0");
    for (row, kind) in [
        (VirtualMachine { tap: "tap1".into(), ..vm("a", 0) }, FailureKind::TapInUse),
        (VirtualMachine { mac_address: "02:00:00:00:00:01".into(), ..vm("a", 0) }, FailureKind::MacInUse),
        (VirtualMachine { api_socket: "/tmp/firecracker-b.sock".into(), ..vm("a", 0) }, FailureKind::ApiSocketInUse),
    ] {
        let before = all(&inv);
        assert_eq!(update(&mut inv, "id-a", row, 8).unwrap_err().kind, kind);
        assert_eq!(all(&inv), before);
    }
    // A MAC address that no other row has replaces the row's.
    let before = all(&inv);
    update(&mut inv, "id-a", VirtualMachine { mac_address: "02:00:00:00:00:BB".into(), ..before[0].clone() }, 8).unwrap();
    assert_eq!(all(&inv)[0].mac_address, "02:00:00:00:00:BB");
    assert_eq!(all(&inv)[1], before[1]);
    let bound = VirtualMachine { project_dir: Some("/p/a".into()), ..vm("b", 1) };
    assert_eq!(update(&mut inv, "id-b", bound, 8).unwrap_err().kind, FailureKind::ProjectDirAlreadyBound);
}

#[test]
fn status_updates_touch_status_only() {
    let mut inv = two();
    update_status(&mut inv, "a", "STOPPED");
    let rows = all(&inv);
    assert_eq!(rows[0].status, "STOPPED");
    assert_eq!(rows[1].status, "RUNNING");
    assert_eq!(VirtualMachine { status: "RUNNING".into(), ..rows[0].clone() }, all(&two())[0]);
    update_status(&mut inv, "id-b", "DELETED");
    assert_eq!(all(&inv)[1].status, "DELETED");
    update_status(&mut inv, "nobody", "X");
    update_all_status(&mut inv, "STOPPED");
    assert!(all(&inv).iter().all(|r| r.status == "STOPPED"));
    let mut none = Inventory::new();
    update_all_status(&mut none, "STOPPED");
    assert_eq!(none.len(), 0);
}

#[test]
fn delete_removes_by_name_or_id() {
    let mut inv = two();
    delete(&mut inv, "nobody");
    assert_eq!(inv.len(), 2);
    delete(&mut inv, "a");
    assert_eq!(all(&inv).iter().map(|r| r.name.clone()).collect::<Vec<_>>(), vec!["b"]);
    delete(&mut inv, "id-b");
    assert_eq!(inv.len(), 0);
    let mut both = two();
    create_with_id(&mut both, vm("id-a", 9), "id-z".into(), None, 1).unwrap();
    delete(&mut both, "id-a");
    assert_eq!(all(&both).iter().map(|r| r.name.clone()).collect::<Vec<_>>(), vec!["b"]);
}

#[test]
fn stop_then_start_keeps_id_tap_and_mac() {
    let mut inv = two();
    let before = find(&inv, "a").unwrap();
    update_status(&mut inv, "a", "STOPPED");
    let stopped = find(&inv, "a").unwrap();
    let again = VirtualMachine { status: "RUNNING".into(), pid: Some(5), ..stopped.clone() };
    update(&mut inv, &stopped.id, again, 900).unwrap();
    let after = find(&inv, "a").unwrap();
    assert_eq!(after.id, before.id);
    assert_eq!(after.tap, before.tap);
    assert_eq!(after.mac_address, before.mac_address);
    assert_eq!(after.status, "RUNNING");
    assert_eq!(after.created_at, before.created_at);
}

fn drive(id: &str, name: &str, vm_id: Option<&str>) -> Drive {
    Drive {
        id: id.into(),
        name: name.into(),
        vm_id: vm_id.map(|s| s.to_string()),
        path_on_host: format!("/d/{}", name),
        is_root_device: false,
        is_read_only: false,
        size_in_gb: Some(1),
        created_at: 1,
        updated_at: 1,
    }
}

#[test]
fn drives_are_created_found_attached_renamed_and_deleted() {
    let mut d = Drives::new();
    drives::create(&mut d, &drive("d1", "data", Some("id-a"))).unwrap();
    drives::create(&mut d, &drive("d2", "logs", None)).unwrap();
    drives::create(&mut d, &drive("d3", "more", Some("id-a"))).unwrap();
    assert_eq!(drives::create(&mut d, &drive("d1", "x", None)).unwrap_err().kind, FailureKind::IdInUse);
    assert_eq!(drives::create(&mut d, &drive("d9", "logs", None)).unwrap_err().kind, FailureKind::NameInUse);
    assert_eq!(drives::all(&d).len(), 3);
    assert_eq!(drives::find(&d, "logs").unwrap().id, "d2");
    assert_eq!(drives::find(&d, "d3").unwrap().name, "more");
    assert_eq!(drives::find(&d, "none"), None);
    let attached: Vec<String> = drives::find_by_vm_id(&d, "id-a").iter().map(|x| x.id.clone()).collect();
    assert_eq!(attached, vec!["d1", "d3"]);
    assert!(drives::find_by_vm_id(&d, "id-b").is_empty());
    drives::update_vm_id(&mut d, "logs", Some("id-b".into()), 50);
    assert_eq!(drives::find(&d, "d2").unwrap().vm_id, Some("id-b".to_string()));
    assert_eq!(drives::find(&d, "d2").unwrap().updated_at, 50);
    drives::update_vm_id(&mut d, "d1", None, 60);
    assert_eq!(drives::find(&d, "data").unwrap().vm_id, None);
    drives::update_name(&mut d, "d1", "renamed", 70).unwrap();
    assert_eq!(drives::find(&d, "d1").unwrap().name, "renamed");
    assert_eq!(drives::find(&d, "d1").unwrap().updated_at, 70);
    assert_eq!(drives::update_name(&mut d, "d1", "logs", 80).unwrap_err().kind, FailureKind::NameInUse);
    drives::update_name(&mut d, "d1", "renamed", 90).unwrap();
    drives::update_name(&mut d, "nobody", "x", 90).unwrap();
    drives::delete(&mut d, "logs");
    drives::delete(&mut d, "d3");
    let left: Vec<String> = drives::all(&d).iter().map(|x| x.id.clone()).collect();
    assert_eq!(left, vec!["d1"]);
}

#[test]
fn ledger_lists_six_scripts_in_order() {
    let l = ledger();
    let names: Vec<&str> = l.iter().map(|m| m.name.as_str()).collect();
    assert_eq!(
        names,
        vec![
            "20250804092946_init",
            "20250910164344_ip_address",
            "20250910202353_add_vmlinux_rootfs_bootargs",
            "20250911084132_ensure_unique_columns",
            "20250917153615_add_ssh_keys",
            "20250919184944_add_drives",
        ]
    );
    let mut sorted = names.clone();
    sorted.sort();
    assert_eq!(sorted, names);
    assert!(l[0].additive.is_empty());
    assert_eq!(l[1].additive, vec!["ip_address"]);
    assert_eq!(l[2].additive, vec!["vmlinux", "rootfs", "bootargs"]);
    assert!(l[3].additive.is_empty());
    assert_eq!(l[4].additive, vec!["ssh_keys"]);
    assert!(l[5].additive.is_empty());
}

#[test]
fn only_duplicate_columns_of_additive_scripts_are_passed_over() {
    let l = ledger();
    let dup = |c: &str| format!("error returned from database: (code: 1) duplicate column name: {}", c);
    assert!(tolerates(&l[1], &dup("ip_address")));
    assert!(!tolerates(&l[1], &dup("vmlinux")));
    assert!(!tolerates(&l[1], "no such table: virtual_machines"));
    assert!(!tolerates(&l[1], ""));
    for c in ["vmlinux", "rootfs", "bootargs"] {
        assert!(tolerates(&l[2], &dup(c)));
    }
    assert!(!tolerates(&l[2], &dup("ip_address")));
    assert!(tolerates(&l[4], &dup("ssh_keys")));
    for i in [0, 3, 5] {
        assert!(!tolerates(&l[i], &dup("ip_address")));
        assert!(!tolerates(&l[i], &dup("id")));
    }
}

#[test]
fn a_second_run_of_the_ledger_succeeds() {
    let l = ledger();
    // The first run: every script succeeds.
    for m in &l {
        assert_eq!(after_migration(m, &Ok(())), Ok(()));
    }
    // The second run: additive scripts find their first column there already.
    for m in &l {
        let outcome = match m.additive.first() {
            Some(c) => Err(format!("duplicate column name: {}", c)),
            None => Ok(()),
        };
        assert_eq!(after_migration(m, &outcome), Ok(()));
    }
}

#[test]
fn any_other_failure_ends_the_run() {
    let l = ledger();
    let err = after_migration(&l[3], &Err("UNIQUE constraint failed".into())).unwrap_err();
    assert_eq!(err.kind, FailureKind::MigrationFailed);
    assert_eq!(err.subject, "20250911084132_ensure_unique_columns");
    assert_eq!(err.detail, "UNIQUE constraint failed");
    assert_eq!(err.message(), "Failed to apply migration: 20250911084132_ensure_unique_columns");
    assert!(after_migration(&l[1], &Err("disk I/O error".into())).is_err());
    let custom = Migration { name: "x".into(), additive: vec!["a".into(), "ab".into()] };
    assert!(tolerates(&custom, "duplicate column name: ab"));
    assert!(!tolerates(&custom, "duplicate column name: b"));
}

#[test]
fn pool_lives_in_the_state_directory_and_is_journalled() {
    let p = create_connection_pool("/home/u/.fireup");
    assert_eq!(p.filename, "/home/u/.fireup/firecracker_state.db");
    assert!(p.create_if_missing);
    assert_eq!(p.migrations, ledger());
    assert_eq!(p.journal_mode, "WAL");
    assert_eq!(database_path("/s"), "/s/firecracker_state.db");
}

#[test]
fn a_uniqueness_violation_is_the_conflict_of_its_column() {
    let row = VirtualMachine { project_dir: Some("/p/a".into()), ..vm("a", 3) };
    let kind = |message: &str| uniqueness_violation(message, &row).map(|f| (f.kind, f.subject));
    assert_eq!(
        kind("error returned from database: (code: 2067) UNIQUE constraint failed: virtual_machines.tap"),
        Some((FailureKind::TapInUse, "tap3".to_string()))
    );
    assert_eq!(
        kind("UNIQUE constraint failed: virtual_machines.mac_address"),
        Some((FailureKind::MacInUse, "02:00:00:00:00:03".to_string()))
    );
    assert_eq!(
        kind("UNIQUE constraint failed: virtual_machines.api_socket"),
        Some((FailureKind::ApiSocketInUse, "/tmp/firecracker-a.sock".to_string()))
    );
    assert_eq!(
        kind("UNIQUE constraint failed: virtual_machines.project_dir"),
        Some((FailureKind::ProjectDirAlreadyBound, "/p/a".to_string()))
    );
    assert_eq!(kind("UNIQUE constraint failed: virtual_machines.name"), Some((FailureKind::NameInUse, "a".to_string())));
    assert_eq!(kind("UNIQUE constraint failed: virtual_machines.id"), Some((FailureKind::IdInUse, String::new())));
    assert_eq!(kind("UNIQUE constraint failed: drives.name"), None);
    assert_eq!(kind("NOT NULL constraint failed: virtual_machines.tap"), None);
    assert_eq!(kind("database is locked"), None);
    assert_eq!(kind(""), None);
}

#[test]
fn the_ledger_is_run_as_the_sql_of_its_alterations() {
    assert_eq!(
        script_sql(0),
        "CREATE TABLE IF NOT EXISTS virtual_machines (id VARCHAR(255) PRIMARY KEY, \
name VARCHAR(255) UNIQUE NOT NULL, status VARCHAR(255) NOT NULL, vcpu INT NOT NULL, \
memory INT NOT NULL, distro VARCHAR(255) NOT NULL, pid INT, mac_address VARCHAR(255) NOT NULL, \
bridge VARCHAR(255) NOT NULL, tap VARCHAR(255) NOT NULL, api_socket VARCHAR(255) UNIQUE NOT NULL, \
project_dir VARCHAR(255) UNIQUE, created_at TIMESTAMP DEFAULT CURRENT_TIMESTAMP, \
updated_at TIMESTAMP DEFAULT CURRENT_TIMESTAMP);"
    );
    assert_eq!(script_sql(1), "ALTER TABLE virtual_machines ADD COLUMN ip_address VARCHAR(255);");
    assert_eq!(
        script_sql(2),
        "ALTER TABLE virtual_machines ADD COLUMN vmlinux VARCHAR(255);\n\
ALTER TABLE virtual_machines ADD COLUMN rootfs VARCHAR(255);\n\
ALTER TABLE virtual_machines ADD COLUMN bootargs VARCHAR(255);"
    );
    assert_eq!(
        script_sql(3),
        "CREATE UNIQUE INDEX IF NOT EXISTS unique_mac_address ON virtual_machines (mac_address);\n\
CREATE UNIQUE INDEX IF NOT EXISTS unique_tap ON virtual_machines (tap);"
    );
    assert_eq!(script_sql(4), "ALTER TABLE virtual_machines ADD COLUMN ssh_keys TEXT;");
    assert_eq!(
        script_sql(5),
        "CREATE TABLE IF NOT EXISTS drives (id VARCHAR(255) PRIMARY KEY, name VARCHAR(255) UNIQUE NOT NULL, \
vm_id VARCHAR(255), path_on_host VARCHAR(255) NOT NULL, is_root_device BOOLEAN NOT NULL DEFAULT 0, \
is_read_only BOOLEAN NOT NULL DEFAULT 0, size_in_gb INT, created_at TIMESTAMP DEFAULT CURRENT_TIMESTAMP, \
updated_at TIMESTAMP DEFAULT CURRENT_TIMESTAMP, \
FOREIGN KEY (vm_id) REFERENCES virtual_machines (id) ON DELETE SET NULL);"
    );
    assert_eq!(script_sql(6), "");
    assert!(alterations(6).is_empty());
    // Every script that the ledger calls additive adds exactly the columns that it names.
    let l = ledger();
    for (k, migration) in l.iter().enumerate() {
        let added: Vec<String> = alterations(k)
            .iter()
            .filter_map(|a| match a {
                Alteration::AddColumn { column, .. } => Some(column.name.clone()),
                _ => None,
            })
            .collect();
        assert_eq!(added, migration.additive);
    }
    let plan = create_connection_pool("/home/u/.fireup");
    assert_eq!(plan.scripts.len(), plan.migrations.len());
    for k in 0..plan.scripts.len() {
        assert_eq!(plan.scripts[k], script_sql(k));
    }
    let table = Alteration::CreateTable {
        table: "t".into(),
        columns: vec![Column { name: "a".into(), definition: "INT".into() }],
        constraint: None,
    };
    assert_eq!(statement_sql(&table), "CREATE TABLE IF NOT EXISTS t (a INT);");
    let empty = Alteration::CreateTable { table: "t".into(), columns: vec![], constraint: Some("CHECK (1)".into()) };
    assert_eq!(statement_sql(&empty), "CREATE TABLE IF NOT EXISTS t (, CHECK (1));");
}
