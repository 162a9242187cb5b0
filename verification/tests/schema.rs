use fireup::state::create_connection_pool;
use fireup::state::ledger::script_sql;
use fireup::state::migration::after_migration;
use fireup::state::repo::virtual_machine::uniqueness_violation;
use fireup::state::entity::virtual_machine::VirtualMachine;
use fireup::error::FailureKind;
use sqlx::sqlite::SqlitePoolOptions;
use sqlx::{Executor, Pool, Row, Sqlite};

fn wait<F: std::future::Future>(work: F) -> F::Output {
    tokio::runtime::Builder::new_current_thread().enable_all().build().unwrap().block_on(work)
}

async fn database() -> Pool<Sqlite> {
    SqlitePoolOptions::new().max_connections(1).connect("sqlite::memory:").await.unwrap()
}

/// Runs the scripts from `from` on as the inventory does when it is opened.
async fn migrate(pool: &Pool<Sqlite>, from: usize) {
    let plan = create_connection_pool("/unused");
    for (migration, sql) in plan.migrations.iter().zip(plan.scripts.iter()).skip(from) {
        let outcome = pool.execute(sql.as_str()).await.map(|_| ()).map_err(|e| e.to_string());
        after_migration(migration, &outcome).unwrap();
    }
}

async fn schema(pool: &Pool<Sqlite>) -> Vec<String> {
    sqlx::query("SELECT type || ' ' || name || ' ' || COALESCE(sql, '') FROM sqlite_master ORDER BY type, name")
        .fetch_all(pool)
        .await
        .unwrap()
        .iter()
        .map(|row| row.get::<String, _>(0))
        .collect()
}

async fn columns(pool: &Pool<Sqlite>, table: &str) -> Vec<String> {
    sqlx::query(&format!("SELECT name FROM pragma_table_info('{}')", table))
        .fetch_all(pool)
        .await
        .unwrap()
        .iter()
        .map(|row| row.get::<String, _>(0))
        .collect()
}

#[test]
fn running_the_ledger_twice_on_a_fresh_database_changes_nothing() {
    wait(async {
        let pool = database().await;
        migrate(&pool, 0).await;
        let once = schema(&pool).await;
        assert!(!once.is_empty());
        migrate(&pool, 0).await;
        assert_eq!(schema(&pool).await, once);
        migrate(&pool, 0).await;
        assert_eq!(schema(&pool).await, once);
    });
}

#[test]
fn a_database_at_the_first_script_is_brought_up_to_date() {
    wait(async {
        let pool = database().await;
        pool.execute(script_sql(0).as_str()).await.unwrap();
        let before = columns(&pool, "virtual_machines").await;
        assert_eq!(before.len(), 14);
        for added in ["ip_address", "vmlinux", "rootfs", "bootargs", "ssh_keys"] {
            assert!(!before.contains(&added.to_string()));
        }
        migrate(&pool, 0).await;
        let after = columns(&pool, "virtual_machines").await;
        assert_eq!(&after[..14], &before[..]);
        assert_eq!(&after[14..], &["ip_address", "vmlinux", "rootfs", "bootargs", "ssh_keys"]);
        assert_eq!(
            columns(&pool, "drives").await,
            vec!["id", "name", "vm_id", "path_on_host", "is_root_device", "is_read_only", "size_in_gb", "created_at", "updated_at"]
        );
        let up_to_date = schema(&pool).await;
        migrate(&pool, 0).await;
        assert_eq!(schema(&pool).await, up_to_date);
    });
}

#[test]
fn the_database_refuses_a_second_row_with_the_same_tap() {
    wait(async {
        let pool = database().await;
        migrate(&pool, 0).await;
        let insert = "INSERT INTO virtual_machines (id, name, status, vcpu, memory, distro, mac_address, bridge, tap, api_socket) \
VALUES (?, ?, 'RUNNING', 1, 512, 'alpine', ?, 'fcbr0', ?, ?)";
        let write = |id: &'static str, mac: &'static str, tap: &'static str| {
            sqlx::query(insert).bind(id).bind(id).bind(mac).bind(tap).bind(format!("/tmp/firecracker-{}.sock", id))
        };
        write("a", "02:00:00:00:00:01", "tap0").execute(&pool).await.unwrap();
        let row = VirtualMachine { tap: "tap0".into(), mac_address: "02:00:00:00:00:02".into(), ..Default::default() };
        let refused = write("b", "02:00:00:00:00:02", "tap0").execute(&pool).await.unwrap_err();
        let conflict = uniqueness_violation(&refused.to_string(), &row).unwrap();
        assert_eq!((conflict.kind, conflict.subject.as_str()), (FailureKind::TapInUse, "tap0"));
        let refused = write("c", "02:00:00:00:00:01", "tap1").execute(&pool).await.unwrap_err();
        let row = VirtualMachine { tap: "tap1".into(), mac_address: "02:00:00:00:00:01".into(), ..Default::default() };
        let conflict = uniqueness_violation(&refused.to_string(), &row).unwrap();
        assert_eq!(conflict.kind, FailureKind::MacInUse);
    });
}
