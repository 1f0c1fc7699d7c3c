use openstratos::logger::{
    char_is_conversion, format_is_accepted, init_logger, Level, Logger, ENTRY_STAMP, FILE_STAMP,
};

#[test]
fn level_labels() {
    assert_eq!(Level::Error.label(), "ERROR");
    assert_eq!(Level::Warn.label(), "WARN");
    assert_eq!(Level::Info.label(), "INFO");
    assert_eq!(Level::Debug.label(), "DEBUG");
    assert_eq!(Level::Trace.label(), "TRACE");
}

#[test]
fn log_file_is_named_by_stem_and_moment() {
    let logger = Logger::begun_at("GSM", "Modem", "2017-01-02.03-04-05");
    assert_eq!(logger.file_name, "GSM.2017-01-02.03-04-05.log");
    assert_eq!(logger.prefix, "Modem");
}

#[test]
fn entry_has_prefix_level_moment_and_message() {
    let logger = Logger::begun_at("GSM", "GSM", "s");
    assert_eq!(
        logger.entry("Turning GSM on", Level::Info, "01/02/17 03:04:05.000000006"),
        "[GSM][INFO] - 01/02/17 03:04:05.000000006 - Turning GSM on\n"
    );
    assert_eq!(logger.entry("", Level::Error, ""), "[GSM][ERROR] -  - \n");
}

fn all_digits(s: &str) -> bool {
    !s.is_empty() && s.chars().all(|c| c.is_ascii_digit())
}

#[test]
fn new_log_is_named_with_the_present_moment() {
    let logger = Logger::new("Battery", "Battery").unwrap();
    assert_eq!(logger.prefix, "Battery");
    let name = logger.file_name;
    assert!(name.starts_with("Battery."));
    assert!(name.ends_with(".log"));
    let stamp = &name["Battery.".len()..name.len() - ".log".len()];
    assert_ne!(stamp, FILE_STAMP);
    let parts: Vec<&str> = stamp.split('.').collect();
    assert_eq!(parts.len(), 2);
    let date: Vec<&str> = parts[0].split('-').collect();
    let clock: Vec<&str> = parts[1].split('-').collect();
    assert_eq!(date.len(), 3);
    assert_eq!(clock.len(), 3);
    assert!(date.iter().chain(clock.iter()).all(|p| all_digits(p)));
    assert!(date[0].parse::<u32>().unwrap() >= 2017);
}

#[test]
fn logged_entry_carries_the_present_moment() {
    let logger = Logger::begun_at("GSM", "GSM", "s");
    let line = logger.log("hello - world", Level::Warn).unwrap();
    assert!(line.starts_with("[GSM][WARN] - "));
    assert!(line.ends_with(" - hello - world\n"));
    let stamp = &line["[GSM][WARN] - ".len()..line.len() - " - hello - world\n".len()];
    assert_ne!(stamp, ENTRY_STAMP);
    assert!(!stamp.contains('%'));
    let parts: Vec<&str> = stamp.split(' ').collect();
    assert_eq!(parts.len(), 2);
    assert_eq!(parts[0].split('/').count(), 3);
    let clock: Vec<&str> = parts[1].split('.').collect();
    assert_eq!(clock.len(), 2);
    assert_eq!(clock[0].split(':').count(), 3);
    assert!(all_digits(clock[1]));
}

#[test]
fn main_log_set_up() {
    let plan = init_logger(false, "2017-01-02.03-04-05");
    assert_eq!(plan.logger.file_name, "OpenStratos.2017-01-02.03-04-05.log");
    assert_eq!(plan.logger.prefix, "OpenStratos");
    assert!(!plan.console);
    assert_eq!(plan.threshold, Level::Info);
    let plan = init_logger(true, "x");
    assert!(plan.console);
    assert_eq!(plan.threshold, Level::Trace);
}

fn clock_takes(format: &str) -> bool {
    time::strftime(format, &time::now_utc()).is_ok()
}

#[test]
fn conversion_letters_are_those_that_the_clock_takes() {
    for n in 0u32..0x250 {
        if let Some(c) = char::from_u32(n) {
            assert_eq!(char_is_conversion(c), clock_takes(&format!("%{}", c)), "{:?}", c);
        }
    }
}

#[test]
fn accepted_formats_are_those_that_the_clock_takes() {
    let formats = [
        "",
        "plain",
        "%",
        "%%",
        "%%%",
        "%%%%",
        "100%",
        "100%%",
        "%F.%H-%M-%S",
        "%D %T.%f",
        "%F%",
        "%Q",
        "%F %Q",
        "%Y-%m-%dT%H:%M:%SZ",
        "a%%Qb",
        "a%Q%b",
        "%+",
        "% F",
        "\u{e9}%S\u{e9}",
        "%\u{e9}",
    ];
    for format in formats {
        assert_eq!(format_is_accepted(format), clock_takes(format), "{:?}", format);
    }
    assert!(format_is_accepted(FILE_STAMP));
    assert!(format_is_accepted(ENTRY_STAMP));
    assert!(!format_is_accepted("%Q"));
    assert!(!format_is_accepted("%"));
}
