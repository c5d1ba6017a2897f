use item_service::logs::{LogConfig, Pipeline, Severity, Sink, MAX_LOG_FILES};

fn config(console: bool, file: bool, threshold: Severity) -> LogConfig {
    LogConfig { console_enabled: console, file_enabled: file, threshold }
}

#[test]
fn default_config_is_console_only_at_info() {
    let c = LogConfig::default();
    assert!(c.console_enabled);
    assert!(!c.file_enabled);
    assert!(matches!(c.threshold, Severity::Info));
}

#[test]
fn both_disabled_init_is_a_noop_and_never_errors() {
    let mut p = Pipeline::new();
    assert!(p.init(&config(false, false, Severity::Info)).is_ok());
    assert!(!p.initialized);
    assert_eq!(p.sink_count(), 0);
    // A no-op leaves the pipeline uninitialized, so a later real
    // initialization still succeeds.
    assert!(p.init(&config(true, false, Severity::Info)).is_ok());
    assert!(p.initialized);
}

#[test]
fn second_initialization_fails_loudly_and_changes_nothing() {
    let mut p = Pipeline::new();
    assert!(p.init(&config(true, true, Severity::Debug)).is_ok());
    let n = p.sink_count();
    let r = p.init(&config(false, true, Severity::Error));
    assert!(r.is_err());
    assert!(p.initialized);
    assert_eq!(p.sink_count(), n);
}

#[test]
fn file_output_fans_out_into_four_severity_scoped_sinks() {
    let mut p = Pipeline::new();
    p.init(&config(true, true, Severity::Info)).unwrap();
    assert_eq!(p.sink_count(), 5);
    assert!(matches!(p.sinks[0], Sink::File(Severity::Error)));
    assert!(matches!(p.sinks[1], Sink::File(Severity::Warn)));
    assert!(matches!(p.sinks[2], Sink::File(Severity::Info)));
    assert!(matches!(p.sinks[3], Sink::File(Severity::Debug)));
    assert!(matches!(p.sinks[4], Sink::Console));
}

#[test]
fn console_only_plan_has_one_sink() {
    let mut p = Pipeline::new();
    p.init(&config(true, false, Severity::Info)).unwrap();
    assert_eq!(p.sink_count(), 1);
    assert!(matches!(p.sinks[0], Sink::Console));
}

#[test]
fn an_error_event_is_written_to_every_sink_at_once() {
    let mut p = Pipeline::new();
    p.init(&config(true, true, Severity::Info)).unwrap();
    for i in 0..p.sink_count() {
        assert!(p.sink_records(i, Severity::Error));
    }
}

#[test]
fn the_global_threshold_is_a_first_pass_gate_for_all_sinks() {
    let mut p = Pipeline::new();
    p.init(&config(true, true, Severity::Info)).unwrap();
    for i in 0..p.sink_count() {
        assert!(!p.sink_records(i, Severity::Debug));
    }
}

#[test]
fn per_sink_thresholds_are_a_second_stricter_filter_on_files() {
    let mut p = Pipeline::new();
    p.init(&config(true, true, Severity::Debug)).unwrap();
    // A warn event: the error-only file rejects it, the other three files
    // and the console record it.
    assert!(!p.sink_records(0, Severity::Warn));
    assert!(p.sink_records(1, Severity::Warn));
    assert!(p.sink_records(2, Severity::Warn));
    assert!(p.sink_records(3, Severity::Warn));
    assert!(p.sink_records(4, Severity::Warn));
}

#[test]
fn uninitialized_pipeline_records_nothing() {
    let mut p = Pipeline::new();
    p.init(&config(false, false, Severity::Debug)).unwrap();
    assert_eq!(p.sink_count(), 0);
}

#[test]
fn retention_default_is_fifteen_files() {
    assert_eq!(MAX_LOG_FILES, 15);
}
