use vstd::prelude::*;

verus! {

/// The default batch size, used unless it would leave workers without a batch.
pub const DEFAULT_BATCH_SIZE: i64 = 256;

/// The default number of tasks.
pub const DEFAULT_TASKS: i64 = 1000000;

/// The default number of concurrent workers.
pub const DEFAULT_CONCURRENCY: i64 = 256;

/// The largest task count: every key `pk` below it has `3 * pk` within `i64`.
pub const MAX_TASKS: i64 = 3074457345618258602;

/// The kind of work each task performs.
#[derive(Clone, Copy, PartialEq, Eq, Structural, Debug)]
pub enum Workload {
    Inserts,
    Selects,
    Mixed,
}

/// Why a configuration could not be built.
#[derive(Clone, PartialEq, Eq, Debug)]
pub enum ConfigError {
    /// The workload name is none of `inserts`, `selects`, `mixed`.
    InvalidWorkload(String),
    /// The task count is not in `1..=MAX_TASKS`.
    InvalidTasks(i64),
    /// The concurrency is not positive.
    InvalidConcurrency(i64),
}

/// The benchmark's settings, fixed for the whole run.
#[derive(Clone, Debug)]
pub struct Config {
    pub node_address: String,
    pub workload: Workload,
    pub tasks: i64,
    pub concurrency: i64,
    pub batch_size: i64,
    pub no_prepare: bool,
}

/// The batch size for `tasks` tasks shared by `concurrency` workers.
pub open spec fn spec_batch_size(tasks: int, concurrency: int) -> int {
    if tasks / DEFAULT_BATCH_SIZE as int >= concurrency {
        DEFAULT_BATCH_SIZE as int
    } else if tasks / concurrency >= 1 {
        tasks / concurrency
    } else {
        1
    }
}

/// The workload that a name stands for, if any.
pub open spec fn spec_workload_named(name: Seq<char>) -> Option<Workload> {
    if name == "inserts"@ {
        Some(Workload::Inserts)
    } else if name == "selects"@ {
        Some(Workload::Selects)
    } else if name == "mixed"@ {
        Some(Workload::Mixed)
    } else {
        None
    }
}

impl Config {
    /// A configuration is well formed when its counts are in range and its
    /// batch size is the one derived from them.
    pub open spec fn wf(&self) -> bool {
        &&& 0 < self.tasks <= MAX_TASKS
        &&& 0 < self.concurrency
        &&& self.batch_size == spec_batch_size(self.tasks as int, self.concurrency as int)
    }

    /// Builds the configuration from resolved values, validating the counts
    /// and deriving the batch size.
    pub fn new(
        node_address: String,
        workload: Workload,
        tasks: i64,
        concurrency: i64,
        no_prepare: bool,
    ) -> (r: Result<Config, ConfigError>)
        ensures
            !(0 < tasks <= MAX_TASKS) ==> r == Err::<Config, ConfigError>(
                ConfigError::InvalidTasks(tasks),
            ),
            (0 < tasks <= MAX_TASKS && concurrency <= 0) ==> r == Err::<Config, ConfigError>(
                ConfigError::InvalidConcurrency(concurrency),
            ),
            (0 < tasks <= MAX_TASKS && 0 < concurrency) ==> (r matches Ok(c) && c.wf()
                && c.node_address == node_address && c.workload == workload && c.tasks == tasks
                && c.concurrency == concurrency && c.no_prepare == no_prepare),
    {
        if tasks <= 0 || tasks > MAX_TASKS {
            return Err(ConfigError::InvalidTasks(tasks));
        }
        if concurrency <= 0 {
            return Err(ConfigError::InvalidConcurrency(concurrency));
        }
        let batch_size = batch_size_for(tasks, concurrency);
        Ok(Config { node_address, workload, tasks, concurrency, batch_size, no_prepare })
    }

    /// Resolves the configuration from the options given on the command line,
    /// applying the defaults to those left out: address `scylla:9042`,
    /// workload `mixed`, one million tasks, concurrency 256.
    pub fn from_options(
        address: Option<String>,
        workload: Option<String>,
        tasks: Option<i64>,
        concurrency: Option<i64>,
        no_prepare: bool,
    ) -> (r: Result<Config, ConfigError>)
        ensures
            ({
                let w = match workload {
                    Some(name) => spec_workload_named(name@),
                    None => Some(Workload::Mixed),
                };
                let t = match tasks {
                    Some(t) => t,
                    None => DEFAULT_TASKS,
                };
                let c = match concurrency {
                    Some(c) => c,
                    None => DEFAULT_CONCURRENCY,
                };
                &&& w is None ==> r == Err::<Config, ConfigError>(
                    ConfigError::InvalidWorkload(workload->Some_0),
                )
                &&& (w is Some && !(0 < t <= MAX_TASKS)) ==> r == Err::<Config, ConfigError>(
                    ConfigError::InvalidTasks(t),
                )
                &&& (w is Some && 0 < t <= MAX_TASKS && c <= 0) ==> r == Err::<
                    Config,
                    ConfigError,
                >(ConfigError::InvalidConcurrency(c))
                &&& (w is Some && 0 < t <= MAX_TASKS && 0 < c) ==> (r matches Ok(cfg) && cfg.wf()
                    && cfg.workload == w->Some_0 && cfg.tasks == t && cfg.concurrency == c
                    && cfg.no_prepare == no_prepare && (address matches Some(a) ==> cfg.node_address
                    == a) && (address is None ==> cfg.node_address@ == "scylla:9042"@))
            }),
    {
        let w = match workload {
            Some(name) => match parse_workload(&name) {
                Ok(w) => w,
                Err(e) => return Err(e),
            },
            None => Workload::Mixed,
        };
        let t = match tasks {
            Some(t) => t,
            None => DEFAULT_TASKS,
        };
        let c = match concurrency {
            Some(c) => c,
            None => DEFAULT_CONCURRENCY,
        };
        let node_address = match address {
            Some(a) => a,
            None => "scylla:9042".to_owned(),
        };
        Config::new(node_address, w, t, c, no_prepare)
    }
}

/// Maps a workload name to its workload; any other name is refused with the
/// name itself.
pub fn parse_workload(name: &String) -> (r: Result<Workload, ConfigError>)
    ensures
        spec_workload_named(name@) matches Some(w) ==> r == Ok::<Workload, ConfigError>(w),
        spec_workload_named(name@) is None ==> r == Err::<Workload, ConfigError>(
            ConfigError::InvalidWorkload(*name),
        ),
{
    if *name == "inserts".to_owned() {
        Ok(Workload::Inserts)
    } else if *name == "selects".to_owned() {
        Ok(Workload::Selects)
    } else if *name == "mixed".to_owned() {
        Ok(Workload::Mixed)
    } else {
        Err(ConfigError::InvalidWorkload(name.clone()))
    }
}

/// Derives the batch size: 256, unless that yields fewer batches than there are
/// workers; then `max(1, tasks / concurrency)`.
pub fn batch_size_for(tasks: i64, concurrency: i64) -> (r: i64)
    requires
        tasks > 0,
        concurrency > 0,
    ensures
        r == spec_batch_size(tasks as int, concurrency as int),
        1 <= r <= DEFAULT_BATCH_SIZE,
{
    if tasks / DEFAULT_BATCH_SIZE >= concurrency {
        DEFAULT_BATCH_SIZE
    } else {
        let per_worker = tasks / concurrency;
        proof {
            let t = tasks as int;
            let c = concurrency as int;
            assert(t / c < 256) by (nonlinear_arith)
                requires
                    t > 0,
                    c > 0,
                    t / 256 < c,
            ;
        }
        if per_worker >= 1 {
            per_worker
        } else {
            1
        }
    }
}

} // verus!
