use installer_sim::session::Session;
use installer_sim::ui::progress::{ProgressBar, ProgressStyle};

fn filled_count(bar: &str, filled: char) -> usize {
    bar.chars().filter(|c| *c == filled).count()
}

#[test]
fn render_length_is_constant_across_fractions_and_styles() {
    let styles = [ProgressStyle::Block, ProgressStyle::Hash, ProgressStyle::Equals];
    for style in styles {
        let bar = ProgressBar::new(style);
        for step in 0..=10u64 {
            assert_eq!(bar.render(step, 10).chars().count(), 22);
        }
    }
}

#[test]
fn render_zero_fraction_has_no_filled_glyphs() {
    let bar = ProgressBar::new(ProgressStyle::Block);
    assert_eq!(bar.render(0, 10), "[....................]");
}

#[test]
fn render_full_fraction_is_entirely_filled() {
    let bar = ProgressBar::new(ProgressStyle::Block);
    assert_eq!(bar.render(10, 10), "[####################]");
    // fractions above one are clamped
    assert_eq!(bar.render(25, 10), "[####################]");
}

#[test]
fn render_styles_differ_only_in_glyphs() {
    let hash = ProgressBar::new(ProgressStyle::Hash);
    assert_eq!(hash.render(2, 4), "[**********----------]");
    let equals = ProgressBar::new(ProgressStyle::Equals);
    assert_eq!(equals.render(2, 4), "[==========          ]");
}

#[test]
fn render_rounds_to_the_nearest_glyph() {
    let bar = ProgressBar::new(ProgressStyle::Block);
    // 1/40 of 20 glyphs is exactly half a glyph, which rounds up
    assert_eq!(filled_count(&bar.render(1, 40), '#'), 1);
    // just under half a glyph rounds down
    assert_eq!(filled_count(&bar.render(1, 41), '#'), 0);
}

#[test]
fn caller_chosen_granularity_still_completes_and_renders_alike() {
    let coarse = ProgressBar::with_steps(ProgressStyle::Hash, 4);
    let sess = Session::new(|| false, |_ms: u64| ());
    assert!(coarse.animate("short bar", 400, &sess).is_ok());
    // the rendered text depends only on the fraction, not on the granularity
    let fine = ProgressBar::new(ProgressStyle::Hash);
    assert_eq!(coarse.render(1, 2), fine.render(1, 2));
}

#[test]
fn render_filled_count_is_monotonic_in_the_fraction() {
    let bar = ProgressBar::new(ProgressStyle::Block);
    let mut last = 0;
    for step in 0..=60u64 {
        let now = filled_count(&bar.render(step, 60), '#');
        assert!(now >= last);
        last = now;
    }
    // monotonic across different denominators too: 1/4 <= 3/8
    assert!(
        filled_count(&bar.render(1, 4), '#') <= filled_count(&bar.render(3, 8), '#')
    );
}
