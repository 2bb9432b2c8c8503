use simple_logger::{Level, LevelFilter, Metadata, SimpleLogger};

struct Installed(SimpleLogger);

fn to_level(level: log::Level) -> Level {
    match level {
        log::Level::Error => Level::Error,
        log::Level::Warn => Level::Warn,
        log::Level::Info => Level::Info,
        log::Level::Debug => Level::Debug,
        log::Level::Trace => Level::Trace,
    }
}

impl log::Log for Installed {
    fn enabled(&self, metadata: &log::Metadata) -> bool {
        self.0.enabled(&Metadata::new(to_level(metadata.level()), metadata.target()))
    }

    fn log(&self, _record: &log::Record) {}

    fn flush(&self) {}
}

fn probe(target: &str, level: log::Level) -> bool {
    let metadata = log::Metadata::builder().target(target).level(level).build();
    log::logger().enabled(&metadata)
}

#[test]
fn second_install_is_refused() {
    let first = SimpleLogger::new()
        .with_level(LevelFilter::Off)
        .with_module_level("my_crate", LevelFilter::Info);
    assert!(log::set_boxed_logger(Box::new(Installed(first))).is_ok());
    let second = SimpleLogger::new();
    assert!(log::set_boxed_logger(Box::new(Installed(second))).is_err());
    assert!(probe("my_crate::module", log::Level::Info));
    assert!(!probe("unrelated", log::Level::Error));
}
