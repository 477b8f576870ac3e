use vstd::prelude::*;
use crate::config::{Config, Workload};

verus! {

/// The statement that inserts one row.
pub const INSERT_STATEMENT: &'static str = "INSERT INTO benchks.benchtab (pk, v1, v2) VALUES(?, ?, ?)";

/// The statement that reads one row back.
pub const SELECT_STATEMENT: &'static str = "SELECT v1, v2 FROM benchks.benchtab WHERE pk = ?";

/// The least number of workers of the untimed pass that fills the table.
pub const MIN_POPULATE_WORKERS: i64 = 1024;

/// One schema change made while provisioning.
#[derive(Clone, Copy, PartialEq, Eq, Structural, Debug)]
pub enum SchemaChange {
    DropKeyspace,
    CreateKeyspace,
    CreateTable,
}

impl SchemaChange {
    /// The statement that makes the change.
    pub open spec fn spec_statement(&self) -> &'static str {
        match self {
            SchemaChange::DropKeyspace => "DROP KEYSPACE IF EXISTS benchks",
            SchemaChange::CreateKeyspace => "CREATE KEYSPACE IF NOT EXISTS benchks WITH REPLICATION = {'class' : 'SimpleStrategy', 'replication_factor' : 1}",
            SchemaChange::CreateTable => "CREATE TABLE IF NOT EXISTS benchks.benchtab (pk bigint PRIMARY KEY, v1 bigint, v2 bigint)",
        }
    }

    /// The statement that makes the change.
    pub fn statement(&self) -> (r: &'static str)
        ensures
            r@ == self.spec_statement()@,
    {
        match self {
            SchemaChange::DropKeyspace => "DROP KEYSPACE IF EXISTS benchks",
            SchemaChange::CreateKeyspace => "CREATE KEYSPACE IF NOT EXISTS benchks WITH REPLICATION = {'class' : 'SimpleStrategy', 'replication_factor' : 1}",
            SchemaChange::CreateTable => "CREATE TABLE IF NOT EXISTS benchks.benchtab (pk bigint PRIMARY KEY, v1 bigint, v2 bigint)",
        }
    }
}

/// One step of a benchmark run. The steps run in order, each after the one
/// before has succeeded; a failure aborts the run.
#[derive(Clone, Copy, PartialEq, Eq, Structural, Debug)]
pub enum Step {
    /// Open the session to the database.
    Connect,
    /// Make one schema change.
    ChangeSchema(SchemaChange),
    /// Wait until all nodes agree on the schema.
    AwaitSchemaAgreement,
    /// Prepare the insert and select statements.
    PrepareStatements,
    /// Insert the row of every key, with this many workers, untimed.
    Populate { workers: i64 },
    /// Start the clock.
    StartTimer,
    /// Run the workload over every key with this many workers.
    Run { workload: Workload, workers: i64 },
    /// Stop the clock and report the elapsed time.
    Report,
}

/// The steps that provision the schema, each followed by a wait for agreement.
pub open spec fn spec_provisioning() -> Seq<Step> {
    seq![
        Step::ChangeSchema(SchemaChange::DropKeyspace),
        Step::AwaitSchemaAgreement,
        Step::ChangeSchema(SchemaChange::CreateKeyspace),
        Step::AwaitSchemaAgreement,
        Step::ChangeSchema(SchemaChange::CreateTable),
        Step::AwaitSchemaAgreement,
    ]
}

/// Whether a run fills the table before it is timed: a read-only run on a
/// freshly provisioned schema.
pub open spec fn spec_populates(workload: Workload, no_prepare: bool) -> bool {
    workload == Workload::Selects && !no_prepare
}

/// The number of workers of the filling pass.
pub open spec fn spec_populate_workers(concurrency: int) -> int {
    if concurrency > MIN_POPULATE_WORKERS {
        concurrency
    } else {
        MIN_POPULATE_WORKERS as int
    }
}

/// The steps of a run with these settings.
pub open spec fn spec_plan(workload: Workload, concurrency: int, no_prepare: bool) -> Seq<Step> {
    seq![Step::Connect] + (if no_prepare {
        Seq::empty()
    } else {
        spec_provisioning()
    }) + seq![Step::PrepareStatements] + (if spec_populates(workload, no_prepare) {
        seq![Step::Populate { workers: spec_populate_workers(concurrency) as i64 }]
    } else {
        Seq::empty()
    }) + seq![
        Step::StartTimer,
        Step::Run { workload: workload, workers: concurrency as i64 },
        Step::Report,
    ]
}

/// The steps of a benchmark run: connect; unless told not to, provision the
/// schema; prepare the statements; for a read-only run on a fresh schema,
/// fill the table untimed; then run the workload between the clock's start
/// and the report.
pub fn plan(config: &Config) -> (r: Vec<Step>)
    requires
        config.wf(),
    ensures
        r@ == spec_plan(config.workload, config.concurrency as int, config.no_prepare),
{
    let mut steps: Vec<Step> = Vec::new();
    steps.push(Step::Connect);
    if !config.no_prepare {
        steps.push(Step::ChangeSchema(SchemaChange::DropKeyspace));
        steps.push(Step::AwaitSchemaAgreement);
        steps.push(Step::ChangeSchema(SchemaChange::CreateKeyspace));
        steps.push(Step::AwaitSchemaAgreement);
        steps.push(Step::ChangeSchema(SchemaChange::CreateTable));
        steps.push(Step::AwaitSchemaAgreement);
    }
    steps.push(Step::PrepareStatements);
    if config.workload == Workload::Selects && !config.no_prepare {
        let workers = if config.concurrency > MIN_POPULATE_WORKERS {
            config.concurrency
        } else {
            MIN_POPULATE_WORKERS
        };
        steps.push(Step::Populate { workers });
    }
    steps.push(Step::StartTimer);
    steps.push(Step::Run { workload: config.workload, workers: config.concurrency });
    steps.push(Step::Report);
    assert(steps@ =~= spec_plan(config.workload, config.concurrency as int, config.no_prepare));
    steps
}

/// A read-only run on a freshly provisioned schema fills the table before
/// its timed pass: the plan holds one filling step, and it comes before the
/// clock starts and before the only run of the workload.
pub proof fn lemma_populate_before_timed_run(concurrency: int, no_prepare: bool)
    requires
        !no_prepare,
        0 < concurrency <= i64::MAX,
    ensures
        ({
            let p = spec_plan(Workload::Selects, concurrency, no_prepare);
            exists|i: int|
                #![trigger p[i]]
                0 <= i < p.len() && p[i] is Populate && (forall|j: int|
                    0 <= j < p.len() && (p[j] is Run || p[j] is StartTimer) ==> i < j)
        }),
{
    let p = spec_plan(Workload::Selects, concurrency, no_prepare);
    assert(p.len() == 12);
    assert(p[8] is Populate);
    assert forall|j: int| 0 <= j < p.len() && (p[j] is Run || p[j] is StartTimer) implies 8 < j by {
        assert(p[0] == Step::Connect);
        assert(p[7] == Step::PrepareStatements);
        assert(p[8] is Populate);
        if j < 7 {
            assert(p[j] == spec_provisioning()[j - 1] || j == 0);
        }
    }
}

/// Every other run is timed without a filling pass.
pub proof fn lemma_no_populate_otherwise(workload: Workload, concurrency: int, no_prepare: bool)
    requires
        !spec_populates(workload, no_prepare),
    ensures
        forall|j: int|
            #![trigger spec_plan(workload, concurrency, no_prepare)[j]]
            0 <= j < spec_plan(workload, concurrency, no_prepare).len() ==> !(spec_plan(
                workload,
                concurrency,
                no_prepare,
            )[j] is Populate),
{
    let p = spec_plan(workload, concurrency, no_prepare);
    let prov: Seq<Step> = if no_prepare {
        Seq::empty()
    } else {
        spec_provisioning()
    };
    assert forall|j: int| 0 <= j < p.len() implies !(p[j] is Populate) by {
        if 1 <= j < 1 + prov.len() {
            assert(p[j] == prov[j - 1]);
        }
    }
}

} // verus!
