use vstd::prelude::*;

verus! {

/// The schedule used when none is given: every day at midnight.
pub const DEFAULT_CRON: &'static str = "0 0 0 * * * *";

/// Why a cleanup of log files failed.
pub struct RemoveFilesError {
    pub details: String,
}

/// Handles the failures of scheduled cleanups.
pub trait LogCleanerErrorHandler {
    fn handle_error(&self, error: RemoveFilesError);
}

/// Removes the files of `dir` that were last modified more than `days` days
/// ago, on the schedule `cron_expression`.
pub struct LogCleaner<P, H> {
    pub dir: P,
    pub days: i64,
    pub cron_expression: Option<String>,
    pub error_handler: H,
}

impl<P, H> LogCleaner<P, H> {
    pub fn new(dir: P, days: i64, cron_expression: Option<String>, error_handler: H) -> (r: Self)
        ensures
            r.dir == dir,
            r.days == days,
            r.cron_expression == cron_expression,
            r.error_handler == error_handler,
    {
        LogCleaner { dir, days, cron_expression, error_handler }
    }

    /// The schedule of the cleanups: the one given, or the default one.
    pub fn schedule(&self) -> (r: String)
        ensures
            r@ == match self.cron_expression {
                Some(c) => c@,
                None => DEFAULT_CRON@,
            },
    {
        match &self.cron_expression {
            Some(c) => c.clone(),
            None => DEFAULT_CRON.to_owned(),
        }
    }

    /// Whether a file last modified `age_days` whole days ago is to be removed.
    pub fn is_expired(&self, age_days: i64) -> (r: bool)
        ensures
            r == (age_days > self.days),
    {
        age_days > self.days
    }
}

/// How much the logger lets through.
#[derive(Clone, Copy, Debug, PartialEq, Eq, Structural)]
pub enum LevelFilter {
    Off,
    Error,
    Warn,
    Info,
    Debug,
    Trace,
}

/// The severity of a log record.
#[derive(Clone, Copy, Debug, PartialEq, Eq, Structural)]
pub enum Level {
    Error,
    Warn,
    Info,
    Debug,
    Trace,
}

/// The filter that lets through records of `level` and more severe ones.
pub open spec fn filter_of(level: Level) -> LevelFilter {
    match level {
        Level::Error => LevelFilter::Error,
        Level::Warn => LevelFilter::Warn,
        Level::Info => LevelFilter::Info,
        Level::Debug => LevelFilter::Debug,
        Level::Trace => LevelFilter::Trace,
    }
}

/// How the logger is set up: the crates it logs (the program's own first),
/// their level, the directory of the log files if any, and their format.
pub struct LogConfig {
    pub level: LevelFilter,
    pub crates_to_log: Vec<String>,
    pub directory: Option<String>,
    pub json_format: bool,
}

impl LogConfig {
    pub fn new(crates_to_log: &[&str]) -> (r: Self)
        requires
            crates_to_log@.len() > 0,
        ensures
            r.level == LevelFilter::Info,
            r.crates_to_log@.len() == crates_to_log@.len(),
            forall|i: int| 0 <= i < crates_to_log@.len() ==> #[trigger] r.crates_to_log@[i]@ == crates_to_log@[i]@,
            r.directory is None,
            !r.json_format,
    {
        let mut names: Vec<String> = Vec::new();
        let mut i: usize = 0;
        while i < crates_to_log.len()
            invariant
                i <= crates_to_log@.len(),
                names@.len() == i,
                forall|j: int| 0 <= j < i ==> #[trigger] names@[j]@ == crates_to_log@[j]@,
            decreases crates_to_log@.len() - i,
        {
            names.push(crates_to_log[i].to_owned());
            i = i + 1;
        }
        LogConfig { level: LevelFilter::Info, crates_to_log: names, directory: None, json_format: false }
    }

    /// The name the log files start with: the program's own crate, then `.log`.
    pub fn log_file_prefix(&self) -> (r: String)
        requires
            self.crates_to_log@.len() > 0,
        ensures
            r@ == self.crates_to_log@[0]@ + ".log"@,
    {
        let mut prefix = self.crates_to_log[0].clone();
        prefix.push_str(".log");
        prefix
    }

    pub fn level(self, level: Level) -> (r: Self)
        ensures
            r.level == filter_of(level),
            r.crates_to_log == self.crates_to_log,
            r.directory == self.directory,
            r.json_format == self.json_format,
    {
        let filter = match level {
            Level::Error => LevelFilter::Error,
            Level::Warn => LevelFilter::Warn,
            Level::Info => LevelFilter::Info,
            Level::Debug => LevelFilter::Debug,
            Level::Trace => LevelFilter::Trace,
        };
        LogConfig { level: filter, ..self }
    }

    pub fn directory(self, directory: String) -> (r: Self)
        ensures
            r.directory == Some(directory),
            r.level == self.level,
            r.crates_to_log == self.crates_to_log,
            r.json_format == self.json_format,
    {
        LogConfig { directory: Some(directory), ..self }
    }

    pub fn with_json_format(self) -> (r: Self)
        ensures
            r.json_format,
            r.level == self.level,
            r.crates_to_log == self.crates_to_log,
            r.directory == self.directory,
    {
        LogConfig { json_format: true, ..self }
    }
}

} // verus!
