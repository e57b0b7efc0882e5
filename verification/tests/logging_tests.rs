use byte::log::{debug, determine_log_path, error, info, log_line, warn, Level, Logger};
use byte::logger::{LogEntry, categorize_command, extract_command_name, log_file_name, newest, beyond_newest};

#[test]
fn log_lines_and_paths() {
    assert_eq!(
        log_line("2024-01-02 03:04:05", Level::Warn, "EXEC", "slow"),
        "[2024-01-02 03:04:05] WARN [EXEC] slow\n"
    );
    assert_eq!(Level::Debug.as_str(), "DEBUG");
    assert_eq!(determine_log_path(true, Some("/home/u")), ".byte/logs/byte.log");
    assert_eq!(determine_log_path(false, Some("/home/u")), "/home/u/.byte/logs/byte.log");
    assert_eq!(determine_log_path(false, None), "/tmp/byte.log");
    let l = Logger::new("/var/log/byte.log");
    assert_eq!(l.log_path(), "/var/log/byte.log");
    assert_eq!(l.entry("t", Level::Info, "C", "m"), "[t] INFO [C] m\n");
}

#[test]
fn command_logs_are_categorised() {
    assert_eq!(categorize_command("Cargo Build"), "build");
    assert_eq!(categorize_command("npx eslint ."), "lint");
    assert_eq!(categorize_command("git push"), "git");
    assert_eq!(categorize_command(" git push"), "other");
    assert_eq!(categorize_command("make"), "build");
    assert_eq!(categorize_command("make install"), "build");
    assert_eq!(categorize_command("cmake ."), "other");
    assert_eq!(categorize_command("cargo test --all"), "test");
    assert_eq!(categorize_command("go test ./..."), "test");
    assert_eq!(categorize_command("cargo run"), "build");
    assert_eq!(extract_command_name("cargo build --release"), "build");
    assert_eq!(extract_command_name("git commit -m x"), "commit");
    assert_eq!(extract_command_name("npm run dev:web"), "run");
    assert_eq!(extract_command_name("./x.sh"), "xsh");
    assert_eq!(extract_command_name(""), "cmd");
    assert_eq!(log_file_name("2024-01-02-030405", "cargo test"), "2024-01-02-030405-test.log");
    let lg = byte::logger::Logger::for_dir("/p/.byte/logs");
    assert_eq!(lg.log_file(), "/p/.byte/logs/byte.log");
    assert_eq!(lg.info("hi"), "INFO: hi\n");
    assert_eq!(lg.error("no"), "ERROR: no\n");
}

#[test]
fn newest_entries() {
    let v = vec![(5i128, 'a'), (9, 'b'), (5, 'c'), (1, 'd')];
    let n = newest(v.clone(), 2);
    assert_eq!(n, vec![(9, 'b'), (5, 'a')]);
    let rest = beyond_newest(v.clone(), 2);
    assert_eq!(rest, vec![(5, 'c'), (1, 'd')]);
    assert_eq!(newest(v.clone(), 10).len(), 4);
    assert!(beyond_newest(v, 10).is_empty());
}

#[test]
fn level_functions_build_their_lines() {
    assert_eq!(info("T", "CAT", "m"), "[T] INFO [CAT] m\n");
    assert_eq!(warn("T", "CAT", "m"), "[T] WARN [CAT] m\n");
    assert_eq!(error("T", "CAT", "m"), "[T] ERROR [CAT] m\n");
    assert_eq!(debug("T", "CAT", "m"), "[T] DEBUG [CAT] m\n");
}

#[test]
fn log_entries_copy_the_log_record() {
    let f = byte::fs::LogFile {
        path: "/p/.byte/logs/commands/build/x.log".to_string(),
        category: "build".to_string(),
        timestamp: 42,
        filename: "x.log".to_string(),
    };
    let e = LogEntry::of_log_file(&f);
    assert_eq!(e.path, f.path);
    assert_eq!(e.category, "build");
    assert_eq!(e.timestamp, 42);
    assert_eq!(e.filename, "x.log");
}
