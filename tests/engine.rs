use dbbench::config::{batch_size_for, parse_workload, Config, ConfigError, Workload, MAX_TASKS};
use dbbench::controller::ConcurrencyController;
use dbbench::cursor::{batch_at, Batch, TaskCursor};
use dbbench::runner::{plan, SchemaChange, Step};
use dbbench::worker::{check_row, row_for, Action, CorrectnessFault, Worker};
use std::collections::HashMap;
use std::collections::HashSet;

/// An in-memory stand-in for the database that records what it was asked.
struct FakeStore {
    rows: HashMap<i64, (i64, i64)>,
    inserts: Vec<i64>,
    selects: Vec<i64>,
}

impl FakeStore {
    fn new() -> FakeStore {
        FakeStore { rows: HashMap::new(), inserts: Vec::new(), selects: Vec::new() }
    }
}

/// Runs `workers` workers over one cursor, one action at a time in turn,
/// until all have finished; returns the first fault, if any.
fn run_workers(
    cursor: &TaskCursor,
    workload: Workload,
    workers: usize,
    store: &mut FakeStore,
    corrupt: Option<i64>,
) -> Result<(), CorrectnessFault> {
    let mut pool: Vec<Worker> = (0..workers).map(|_| Worker::new(workload)).collect();
    loop {
        let mut all_finished = true;
        for w in pool.iter_mut() {
            match w.next_action() {
                Action::Finish => {}
                Action::FetchBatch => {
                    all_finished = false;
                    w.on_batch(cursor.next_batch());
                }
                Action::Insert { pk, v1, v2 } => {
                    all_finished = false;
                    store.inserts.push(pk);
                    store.rows.insert(pk, (v1, v2));
                    w.on_inserted();
                }
                Action::Select { pk } => {
                    all_finished = false;
                    store.selects.push(pk);
                    let (v1, mut v2) = store.rows[&pk];
                    if corrupt == Some(pk) {
                        v2 += 1;
                    }
                    w.on_selected(v1, v2)?;
                }
            }
        }
        if all_finished {
            return Ok(());
        }
    }
}

#[test]
fn batch_size_shrinks_for_many_workers() {
    assert_eq!(batch_size_for(1000, 10), 100);
    let cursor = TaskCursor::new(1000, batch_size_for(1000, 10));
    let mut batches = Vec::new();
    while let Some(b) = cursor.next_batch() {
        batches.push(b);
    }
    assert_eq!(batches.len(), 10);
    assert_eq!(batches[9], Batch { start: 900, end: 1000 });
}

#[test]
fn batch_size_default_and_floor() {
    assert_eq!(batch_size_for(1_000_000, 256), 256);
    assert_eq!(batch_size_for(256 * 10, 10), 256);
    assert_eq!(batch_size_for(256 * 10 - 1, 10), 255);
    assert_eq!(batch_size_for(3, 10), 1);
    assert_eq!(batch_size_for(1, 1), 1);
}

#[test]
fn workload_names() {
    assert_eq!(parse_workload(&"inserts".to_string()), Ok(Workload::Inserts));
    assert_eq!(parse_workload(&"selects".to_string()), Ok(Workload::Selects));
    assert_eq!(parse_workload(&"mixed".to_string()), Ok(Workload::Mixed));
    assert_eq!(
        parse_workload(&"updates".to_string()),
        Err(ConfigError::InvalidWorkload("updates".to_string()))
    );
    assert_eq!(
        parse_workload(&"Mixed".to_string()),
        Err(ConfigError::InvalidWorkload("Mixed".to_string()))
    );
}

#[test]
fn config_validation_errors() {
    let a = "scylla:9042".to_string();
    assert_eq!(
        Config::new(a.clone(), Workload::Mixed, 0, 4, false).unwrap_err(),
        ConfigError::InvalidTasks(0)
    );
    assert_eq!(
        Config::new(a.clone(), Workload::Mixed, MAX_TASKS + 1, 4, false).unwrap_err(),
        ConfigError::InvalidTasks(MAX_TASKS + 1)
    );
    assert_eq!(
        Config::new(a.clone(), Workload::Mixed, 10, 0, false).unwrap_err(),
        ConfigError::InvalidConcurrency(0)
    );
    let c = Config::new(a, Workload::Inserts, 1000, 10, true).unwrap();
    assert_eq!(c.batch_size, 100);
    assert_eq!(c.workload, Workload::Inserts);
    assert!(c.no_prepare);
}

#[test]
fn config_defaults() {
    let c = Config::from_options(None, None, None, None, false).unwrap();
    assert_eq!(c.node_address, "scylla:9042");
    assert_eq!(c.workload, Workload::Mixed);
    assert_eq!(c.tasks, 1_000_000);
    assert_eq!(c.concurrency, 256);
    assert_eq!(c.batch_size, 256);
    assert!(!c.no_prepare);
    let d = Config::from_options(
        Some("10.0.0.1:9042".to_string()),
        Some("selects".to_string()),
        Some(1000),
        Some(10),
        true,
    )
    .unwrap();
    assert_eq!(d.node_address, "10.0.0.1:9042");
    assert_eq!(d.workload, Workload::Selects);
    assert_eq!(d.batch_size, 100);
    assert!(d.no_prepare);
    assert_eq!(
        Config::from_options(None, Some("deletes".to_string()), None, None, false).unwrap_err(),
        ConfigError::InvalidWorkload("deletes".to_string())
    );
    assert_eq!(
        Config::from_options(None, None, Some(-5), None, false).unwrap_err(),
        ConfigError::InvalidTasks(-5)
    );
    assert_eq!(
        Config::from_options(None, None, None, Some(-1), false).unwrap_err(),
        ConfigError::InvalidConcurrency(-1)
    );
}

#[test]
fn cursor_truncates_last_batch() {
    let cursor = TaskCursor::new(10, 3);
    assert_eq!(cursor.next_batch(), Some(Batch { start: 0, end: 3 }));
    assert_eq!(cursor.next_batch(), Some(Batch { start: 3, end: 6 }));
    assert_eq!(cursor.next_batch(), Some(Batch { start: 6, end: 9 }));
    assert_eq!(cursor.next_batch(), Some(Batch { start: 9, end: 10 }));
    assert_eq!(cursor.next_batch(), None);
    assert_eq!(cursor.next_batch(), None);
}

#[test]
fn cursor_covers_task_space_once() {
    for &(total, size) in &[(1i64, 1i64), (7, 7), (8, 7), (100, 3), (1000, 256)] {
        let cursor = TaskCursor::new(total, size);
        let mut seen = vec![0u32; total as usize];
        while let Some(b) = cursor.next_batch() {
            assert!(b.start < b.end && b.end - b.start <= size);
            for pk in b.start..b.end {
                seen[pk as usize] += 1;
            }
        }
        assert!(seen.iter().all(|&n| n == 1));
    }
}

#[test]
fn batch_at_bounds() {
    assert_eq!(batch_at(0, 5, 12), Some(Batch { start: 0, end: 5 }));
    assert_eq!(batch_at(10, 5, 12), Some(Batch { start: 10, end: 12 }));
    assert_eq!(batch_at(12, 5, 12), None);
    assert_eq!(batch_at(-5, 5, 12), None);
    assert_eq!(batch_at(i64::MAX - 1, 5, i64::MAX), Some(Batch { start: i64::MAX - 1, end: i64::MAX }));
}

#[test]
fn row_values() {
    assert_eq!(row_for(0), (0, 0));
    assert_eq!(row_for(5), (10, 15));
    assert_eq!(check_row(5, 10, 15), Ok(()));
    assert_eq!(
        check_row(5, 10, 16),
        Err(CorrectnessFault { pk: 5, expected_v1: 10, expected_v2: 15, observed_v1: 10, observed_v2: 16 })
    );
}

#[test]
fn insert_then_select_round_trip() {
    let mut store = FakeStore::new();
    let cursor = TaskCursor::new(50, 8);
    run_workers(&cursor, Workload::Inserts, 3, &mut store, None).unwrap();
    for pk in 0..50 {
        for _ in 0..3 {
            let (v1, v2) = store.rows[&pk];
            assert_eq!(check_row(pk, v1, v2), Ok(()));
        }
    }
}

#[test]
fn mixed_task_inserts_then_selects() {
    let mut w = Worker::new(Workload::Mixed);
    assert_eq!(w.next_action(), Action::FetchBatch);
    w.on_batch(Some(Batch { start: 7, end: 8 }));
    assert_eq!(w.next_action(), Action::Insert { pk: 7, v1: 14, v2: 21 });
    w.on_inserted();
    assert_eq!(w.next_action(), Action::Select { pk: 7 });
    assert_eq!(w.on_selected(14, 21), Ok(()));
    assert_eq!(w.next_action(), Action::FetchBatch);
    w.on_batch(None);
    assert_eq!(w.next_action(), Action::Finish);
}

#[test]
fn mixed_task_detects_wrong_row() {
    let mut w = Worker::new(Workload::Mixed);
    w.on_batch(Some(Batch { start: 7, end: 8 }));
    w.on_inserted();
    assert_eq!(
        w.on_selected(14, 22),
        Err(CorrectnessFault { pk: 7, expected_v1: 14, expected_v2: 21, observed_v1: 14, observed_v2: 22 })
    );
    assert_eq!(w.next_action(), Action::Finish);
}

#[test]
fn corrupted_store_fails_the_run() {
    let mut store = FakeStore::new();
    let cursor = TaskCursor::new(20, 4);
    let r = run_workers(&cursor, Workload::Mixed, 2, &mut store, Some(13));
    assert_eq!(r.unwrap_err().pk, 13);
}

#[test]
fn select_worker_only_reads() {
    let mut w = Worker::new(Workload::Selects);
    w.on_batch(Some(Batch { start: 3, end: 5 }));
    assert_eq!(w.next_action(), Action::Select { pk: 3 });
    assert_eq!(w.on_selected(6, 9), Ok(()));
    assert_eq!(w.next_action(), Action::Select { pk: 4 });
    assert_eq!(w.on_selected(8, 12), Ok(()));
    assert_eq!(w.next_action(), Action::FetchBatch);
}

#[test]
fn concurrency_bound_holds() {
    let mut c = ConcurrencyController::new(4);
    let mut remaining: i64 = 1000;
    let mut running: Vec<i64> = Vec::new();
    while remaining > 0 || !running.is_empty() {
        while remaining > 0 && c.try_admit() {
            running.push(remaining);
            remaining -= 1;
            assert!(c.active() <= 4);
        }
        running.pop();
        c.finish();
    }
    assert_eq!(c.peak(), 4);
    assert!(c.is_drained());
    let mut full = ConcurrencyController::new(2);
    assert!(full.try_admit());
    assert!(full.try_admit());
    assert!(!full.try_admit());
    assert_eq!(full.active(), 2);
    assert_eq!(full.limit(), 2);
}

#[test]
fn end_to_end_inserts() {
    let config =
        Config::from_options(None, Some("inserts".to_string()), Some(100), Some(5), false).unwrap();
    let cursor = TaskCursor::new(config.tasks, config.batch_size);
    let mut store = FakeStore::new();
    run_workers(&cursor, config.workload, config.concurrency as usize, &mut store, None).unwrap();
    assert_eq!(store.inserts.len(), 100);
    let keys: HashSet<i64> = store.inserts.iter().copied().collect();
    assert_eq!(keys, (0..100).collect::<HashSet<i64>>());
    assert!(store.selects.is_empty());
}

#[test]
fn selects_plan_populates_before_timed_run() {
    let config =
        Config::from_options(None, Some("selects".to_string()), Some(1000), Some(8), false).unwrap();
    let steps = plan(&config);
    let populate = steps.iter().position(|s| matches!(s, Step::Populate { .. })).unwrap();
    let timer = steps.iter().position(|s| *s == Step::StartTimer).unwrap();
    let run = steps.iter().position(|s| matches!(s, Step::Run { .. })).unwrap();
    assert!(populate < timer && timer < run);
    assert_eq!(steps[populate], Step::Populate { workers: 1024 });
    assert_eq!(steps[run], Step::Run { workload: Workload::Selects, workers: 8 });
    assert_eq!(steps[0], Step::Connect);
    assert_eq!(steps.last(), Some(&Step::Report));

    // The filled table then passes every read of the timed run.
    let mut store = FakeStore::new();
    let fill = TaskCursor::new(config.tasks, config.batch_size);
    run_workers(&fill, Workload::Inserts, 16, &mut store, None).unwrap();
    let timed = TaskCursor::new(config.tasks, config.batch_size);
    run_workers(&timed, Workload::Selects, 8, &mut store, None).unwrap();
    assert_eq!(store.selects.len(), 1000);
}

#[test]
fn plans_without_populate() {
    let inserts = Config::from_options(None, Some("inserts".to_string()), None, None, false).unwrap();
    let steps = plan(&inserts);
    assert!(!steps.iter().any(|s| matches!(s, Step::Populate { .. })));
    assert_eq!(
        steps[1..7].to_vec(),
        vec![
            Step::ChangeSchema(SchemaChange::DropKeyspace),
            Step::AwaitSchemaAgreement,
            Step::ChangeSchema(SchemaChange::CreateKeyspace),
            Step::AwaitSchemaAgreement,
            Step::ChangeSchema(SchemaChange::CreateTable),
            Step::AwaitSchemaAgreement,
        ]
    );
    let skipped = Config::from_options(None, Some("selects".to_string()), None, None, true).unwrap();
    let steps = plan(&skipped);
    assert_eq!(
        steps,
        vec![
            Step::Connect,
            Step::PrepareStatements,
            Step::StartTimer,
            Step::Run { workload: Workload::Selects, workers: 256 },
            Step::Report,
        ]
    );
}

#[test]
fn schema_statements() {
    assert_eq!(SchemaChange::DropKeyspace.statement(), "DROP KEYSPACE IF EXISTS benchks");
    assert!(SchemaChange::CreateTable.statement().contains("pk bigint PRIMARY KEY"));
    assert!(SchemaChange::CreateKeyspace.statement().contains("'replication_factor' : 1"));
}
