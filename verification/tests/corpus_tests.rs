use installer_sim::build_logs::BuildLogs;
use installer_sim::deno_logs::DenoLogs;
use installer_sim::kernel_logs::KernelLogs;

#[test]
fn load_keeps_exactly_the_nonblank_lines_in_order() {
    let source = "first\n\n   \nsecond\n\t\nthird\n";
    let logs = BuildLogs::load(Some(source));
    let all = logs.all_logs();
    assert_eq!(all.len(), 3);
    assert_eq!(all[0], "first");
    assert_eq!(all[1], "second");
    assert_eq!(all[2], "third");
}

#[test]
fn load_splits_windows_line_endings_too() {
    let logs = BuildLogs::load(Some("one\r\ntwo\r\n\r\nthree"));
    let all = logs.all_logs();
    assert_eq!(all.len(), 3);
    assert_eq!(all[0], "one");
    assert_eq!(all[1], "two");
    assert_eq!(all[2], "three");
}

#[test]
fn load_of_empty_source_gives_empty_corpus_not_fallback() {
    let logs = BuildLogs::load(Some(""));
    assert_eq!(logs.all_logs().len(), 0);
    let blank_only = BuildLogs::load(Some("\n  \n\t  \t\n"));
    assert_eq!(blank_only.all_logs().len(), 0);
}

#[test]
fn load_without_source_falls_back_to_defaults() {
    let build = BuildLogs::load(None);
    assert_eq!(build.all_logs().len(), 86);
    assert_eq!(build.all_logs()[0], "  CC      kernel/fork.o");
    let kernel = KernelLogs::load(None);
    assert_eq!(kernel.all_logs().len(), 30);
    // the built-in fallback is kept verbatim, timestamps included
    assert!(kernel.all_logs()[0].starts_with("[    0.000000] Linux version"));
}

#[test]
fn kernel_load_strips_timestamps_from_source_lines() {
    let source = "[    0.000000] alpha\n\n[    1.500000]   beta\nplain\n";
    let logs = KernelLogs::load(Some(source));
    let all = logs.all_logs();
    assert_eq!(all.len(), 3);
    assert_eq!(all[0], "alpha");
    assert_eq!(all[1], "beta");
    assert_eq!(all[2], "plain");
}

#[test]
fn strip_timestamp_removes_first_bracket_pair_and_following_whitespace() {
    assert_eq!(KernelLogs::strip_timestamp("[    0.000000] hello"), "hello");
    assert_eq!(KernelLogs::strip_timestamp("abc [12] def"), "def");
    assert_eq!(KernelLogs::strip_timestamp("[a] [b] c"), "[b] c");
}

#[test]
fn strip_timestamp_keeps_line_without_bracket_pair() {
    assert_eq!(KernelLogs::strip_timestamp("no brackets here"), "no brackets here");
    assert_eq!(KernelLogs::strip_timestamp("[unclosed hello"), "[unclosed hello");
    assert_eq!(KernelLogs::strip_timestamp("closed] only"), "closed] only");
}

#[test]
fn deno_load_handles_both_sources_independently() {
    let both = DenoLogs::load(None, None);
    assert_eq!(both.success_logs().len(), 5);
    assert_eq!(both.error_logs().len(), 5);
    let mixed = DenoLogs::load(Some("ok line\n\n"), None);
    assert_eq!(mixed.success_logs().len(), 1);
    assert_eq!(mixed.success_logs()[0], "ok line");
    assert_eq!(mixed.error_logs().len(), 5);
}

#[test]
fn random_batch_draws_from_the_corpus() {
    let logs = BuildLogs::load(Some("a\nb\nc"));
    let batch = logs.random_batch(12);
    assert_eq!(batch.len(), 12);
    for entry in &batch {
        assert!(entry == "a" || entry == "b" || entry == "c");
    }
    let empty = BuildLogs::load(Some(""));
    assert_eq!(empty.random_batch(4).len(), 0);
}
