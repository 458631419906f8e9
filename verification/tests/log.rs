use matiane::log::Level;
use matiane::log::LoggerBuilder;

#[test]
fn builder_defaults() {
    let builder = LoggerBuilder::new();
    assert_eq!(builder.level, Level::Off);
    assert!(!builder.stderr);
    assert!(!builder.stdout);
    assert!(!builder.thread);
}

#[test]
fn builder_sets_fields() {
    let logger = LoggerBuilder::new()
        .with_level(Level::Debug)
        .to_stderr(true)
        .to_stdout(false)
        .with_threads(true)
        .build();
    assert_eq!(logger.level, Level::Debug);
    assert!(logger.stderr);
    assert!(!logger.stdout);
    assert!(logger.thread);
}

#[test]
fn enabled_respects_level() {
    let logger = LoggerBuilder::new().with_level(Level::Info).build();
    assert!(logger.enabled(Level::Error));
    assert!(logger.enabled(Level::Warn));
    assert!(logger.enabled(Level::Info));
    assert!(!logger.enabled(Level::Debug));
    assert!(!logger.enabled(Level::Trace));

    let off = LoggerBuilder::new().build();
    assert!(!off.enabled(Level::Error));
}

#[test]
fn format_line_exact() {
    let logger = LoggerBuilder::new().with_level(Level::Trace).with_threads(true).build();
    let line = logger.format_line("2025-12-31T23:59:59+00:00", Level::Info, "main", "core", "hello");
    assert_eq!(line, "2025-12-31T23:59:59+00:00 [INFO]  t=main comp=core  hello");
}

#[test]
fn format_line_without_thread() {
    let logger = LoggerBuilder::new().with_level(Level::Trace).build();
    let line = logger.format_line("t0", Level::Error, "?", "mod", "boom");
    assert_eq!(line, "t0 [ERROR] comp=mod  boom");
}
