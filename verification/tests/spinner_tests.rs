use installer_sim::session::Session;
use installer_sim::ui::spinner::Spinner;

#[test]
fn spinner_next_rotates_through_four_glyphs() {
    let mut spinner = Spinner::new();
    assert_eq!(spinner.next(), '|');
    assert_eq!(spinner.next(), '/');
    assert_eq!(spinner.next(), '-');
    assert_eq!(spinner.next(), '\\');
    assert_eq!(spinner.next(), '|');
}

#[test]
fn animate_uncancelled_renders_one_tick_per_hundred_milliseconds() {
    let sess = Session::new(|| false, |_ms: u64| ());
    let mut spinner = Spinner::new();
    let r = spinner.animate("calibrating", 500, &sess);
    assert!(r.is_ok());
    assert_eq!(spinner.ticks(), 5);
}

#[test]
fn animate_with_cancel_set_from_the_start_renders_nothing() {
    let sess = Session::new(|| true, |_ms: u64| ());
    let mut spinner = Spinner::new();
    let r = spinner.animate("calibrating", 2000, &sess);
    assert!(r.is_err());
    assert_eq!(spinner.ticks(), 0);
}

#[test]
fn animate_zero_duration_succeeds_without_polling() {
    // even a signal that is always set cannot interrupt a zero-step run
    let sess = Session::new(|| true, |_ms: u64| ());
    let mut spinner = Spinner::new();
    let r = spinner.animate("instant", 0, &sess);
    assert!(r.is_ok());
    assert_eq!(spinner.ticks(), 0);
}

#[test]
fn animate_duration_truncates_to_whole_ticks() {
    let sess = Session::new(|| false, |_ms: u64| ());
    let mut spinner = Spinner::new();
    assert!(spinner.animate("fast", 199, &sess).is_ok());
    assert_eq!(spinner.ticks(), 1);
}

#[test]
fn animate_stops_at_the_poll_that_reports_cancellation() {
    let polls = std::cell::Cell::new(0u32);
    let cancel = || {
        let seen = polls.get();
        polls.set(seen + 1);
        seen >= 3
    };
    let sess = Session::new(cancel, |_ms: u64| ());
    let mut spinner = Spinner::new();
    let r = spinner.animate("partial", 1000, &sess);
    assert!(r.is_err());
    assert_eq!(spinner.ticks(), 3);
}
