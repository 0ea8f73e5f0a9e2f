use rendezvous_server::logging::{init_tracing, LevelFilter, LogFormat, LogSettings};

#[test]
fn no_logging_where_the_level_is_off() {
    for json in [false, true] {
        for no_timestamp in [false, true] {
            for terminal in [false, true] {
                assert_eq!(
                    init_tracing(LevelFilter::Off, json, no_timestamp, terminal),
                    None
                );
            }
        }
    }
}

#[test]
fn text_with_timestamps_by_default() {
    assert_eq!(
        init_tracing(LevelFilter::Info, false, false, true),
        Some(LogSettings {
            directive: "rendezvous_server=info".to_string(),
            ansi: true,
            target: false,
            time_format: "%F %T".to_string(),
            format: LogFormat::Text,
        })
    );
}

#[test]
fn json_where_asked_for() {
    let settings = init_tracing(LevelFilter::Info, true, false, false).unwrap();
    assert_eq!(settings.format, LogFormat::Json);
    assert!(!settings.ansi);
}

#[test]
fn json_wins_over_no_timestamp() {
    let settings = init_tracing(LevelFilter::Debug, true, true, false).unwrap();
    assert_eq!(settings.format, LogFormat::Json);
    assert_eq!(settings.directive, "rendezvous_server=debug");
}

#[test]
fn text_without_timestamps_where_asked_for() {
    let settings = init_tracing(LevelFilter::Warn, false, true, false).unwrap();
    assert_eq!(settings.format, LogFormat::TextWithoutTime);
    assert_eq!(settings.directive, "rendezvous_server=warn");
}

#[test]
fn colours_only_on_a_terminal() {
    assert!(init_tracing(LevelFilter::Info, false, false, true).unwrap().ansi);
    assert!(!init_tracing(LevelFilter::Info, false, false, false).unwrap().ansi);
}

#[test]
fn levels_are_named_as_tracing_names_them() {
    let pairs = [
        (LevelFilter::Off, tracing::level_filters::LevelFilter::OFF),
        (LevelFilter::Error, tracing::level_filters::LevelFilter::ERROR),
        (LevelFilter::Warn, tracing::level_filters::LevelFilter::WARN),
        (LevelFilter::Info, tracing::level_filters::LevelFilter::INFO),
        (LevelFilter::Debug, tracing::level_filters::LevelFilter::DEBUG),
        (LevelFilter::Trace, tracing::level_filters::LevelFilter::TRACE),
    ];
    for (level, theirs) in pairs {
        assert_eq!(level.name(), theirs.to_string());
    }
}

#[test]
fn every_level_has_its_directive() {
    assert_eq!(
        init_tracing(LevelFilter::Error, false, false, false).unwrap().directive,
        "rendezvous_server=error"
    );
    assert_eq!(
        init_tracing(LevelFilter::Trace, false, false, false).unwrap().directive,
        "rendezvous_server=trace"
    );
}
