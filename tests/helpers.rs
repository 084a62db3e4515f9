use busylib::config::value_or_default;
use busylib::logger::{Level, LevelFilter, LogCleaner, LogCleanerErrorHandler, LogConfig, RemoveFilesError};
use busylib::prelude::{ok, ok_ctx, panic_info, some, some_ctx, EnhancedExpect, EnhancedUnwrap};

#[derive(Clone)]
struct Ignore;

impl LogCleanerErrorHandler for Ignore {
    fn handle_error(&self, _error: RemoveFilesError) {}
}

#[test]
fn helpers_take_the_value() {
    assert_eq!(ok::<u8, String>(Ok(3)), 3);
    assert_eq!(some(Some("x")), "x");
    assert_eq!(ok_ctx::<u8, String>(Ok(4), "ctx"), 4);
    assert_eq!(some_ctx(Some(5), "ctx"), 5);
    assert_eq!(Ok::<u8, String>(6).unwp(), 6);
    assert_eq!(Some(7).unwp(), 7);
    assert_eq!(Ok::<u8, String>(8).ex("ctx"), 8);
    assert_eq!(Some(9).ex("ctx"), 9);
}


#[test]
fn cleaner_schedule_and_expiry() {
    let c = LogCleaner::new("/opt/logs/apps/", 30, None, Ignore);
    assert_eq!(c.days, 30);
    assert_eq!(c.schedule(), "0 0 0 * * * *");
    assert!(!c.is_expired(30));
    assert!(c.is_expired(31));
    let c = LogCleaner::new("/tmp", 1, Some("1/5 * * * * * *".to_string()), Ignore);
    assert_eq!(c.schedule(), "1/5 * * * * * *");
}

#[test]
fn log_config_builders() {
    let c = LogConfig::new(&["app", "dep"]);
    assert_eq!(c.level, LevelFilter::Info);
    assert_eq!(c.crates_to_log, vec!["app".to_string(), "dep".to_string()]);
    assert!(c.directory.is_none());
    assert_eq!(c.log_file_prefix(), "app.log");
    let c = c.level(Level::Debug).directory("/var/log".to_string()).with_json_format();
    assert_eq!(c.level, LevelFilter::Debug);
    assert_eq!(c.directory.as_deref(), Some("/var/log"));
    assert!(c.json_format);
}

#[test]
fn panic_message_layout() {
    assert_eq!(
        panic_info("boom", "loading config", "1: app::main\n"),
        "this should never happen: boom, context: loading config, back_trace: 1: app::main\n"
    );
    assert_eq!(panic_info("", "", ""), "this should never happen: , context: , back_trace: ");
}

#[test]
fn setting_falls_back_to_default() {
    assert_eq!(value_or_default(Some("set".to_string()), "dflt"), "set");
    assert_eq!(value_or_default(None, "dflt"), "dflt");
    assert_eq!(value_or_default(Some(String::new()), "dflt"), "");
}
