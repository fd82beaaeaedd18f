use linya::{denomination, Progress};

const ESC: &str = "\u{1b}";

fn text(p: &mut Progress) -> String {
    p.take_output().into_iter().collect()
}

/// A line head on an 80-column terminal: label in 34 columns, magnitude, bracket.
fn head80(label: &str, value: &str, unit: char) -> String {
    format!("{:<34} {:>3}{} [", label, value, unit)
}

fn in_place(offset: usize, line: &str) -> String {
    format!("{}[s{}[{}A\r{}{}[u\r", ESC, ESC, offset, line, ESC)
}

#[test]
fn denomination_examples() {
    assert_eq!(denomination(999), (999, ' '));
    assert_eq!(denomination(1000), (1, 'K'));
    assert_eq!(denomination(1_500_000), (1, 'M'));
    assert_eq!(denomination(2_000_000_000), (2, 'G'));
    assert_eq!(denomination(0), (0, ' '));
    assert_eq!(denomination(999_999), (999, 'K'));
}

#[test]
fn new_bar_prints_empty_line() {
    let mut p = Progress::with_geometry(0, Some((80, 24)));
    let _bar = p.bar(50, "ab");
    let expected = format!("ab{}      [{}]   0%\n", " ".repeat(32), "-".repeat(33));
    assert_eq!(text(&mut p), expected);
    assert_eq!(text(&mut p), "");
}

#[test]
fn set_draw_then_cancel() {
    let mut p = Progress::with_geometry(0, Some((80, 24)));
    let bar = p.bar(50, "Downloading");
    text(&mut p);
    p.set_and_draw(&bar, 25);
    let half = format!(
        "{}{}>{}]  50%",
        head80("Downloading", "25", ' '),
        "#".repeat(16),
        "-".repeat(16)
    );
    assert_eq!(text(&mut p), in_place(1, &half));
    assert!(!p.is_done(&bar));
    p.cancel(bar);
    let cancelled = format!("{}{}] ??? ", head80("Downloading", "50", ' '), "_".repeat(33));
    assert_eq!(text(&mut p), in_place(1, &cancelled));
}

#[test]
fn second_draw_shows_nothing() {
    let mut p = Progress::with_geometry(0, Some((80, 24)));
    let bar = p.bar(10, "x");
    text(&mut p);
    p.set(&bar, 3);
    p.draw(&bar);
    assert!(!text(&mut p).is_empty());
    p.draw(&bar);
    assert_eq!(text(&mut p), "");
}

#[test]
fn redraw_waits_for_a_whole_point() {
    let mut p = Progress::with_geometry(0, Some((80, 24)));
    let bar = p.bar(1000, "x");
    text(&mut p);
    p.inc_and_draw(&bar, 9);
    assert_eq!(text(&mut p), "");
    p.inc_and_draw(&bar, 1);
    assert!(text(&mut p).contains("  1%"));
    p.set_and_draw(&bar, 5);
    assert_eq!(text(&mut p), "");
}

#[test]
fn unknown_geometry_draws_nothing() {
    let mut p = Progress::with_geometry(0, None);
    let bar = p.bar(50, "ab");
    let expected = format!("ab{}      [{}]   0%\n", " ".repeat(42), "-".repeat(43));
    assert_eq!(text(&mut p), expected);
    p.set_and_draw(&bar, 25);
    p.inc_and_draw(&bar, 25);
    assert_eq!(text(&mut p), "");
    assert!(p.is_done(&bar));
    p.cancel(bar);
    assert_eq!(text(&mut p), "");
}

#[test]
fn narrow_terminal_keeps_its_width_for_first_lines() {
    let mut p = Progress::with_geometry(0, Some((15, 24)));
    let _bar = p.bar(4, "ab");
    // Fill field of 0 columns, label of 2.
    assert_eq!(text(&mut p), "ab      []   0%\n");
    let mut q = Progress::with_geometry(0, Some((10, 24)));
    let _bar = q.bar(4, "ab");
    let expected = format!("ab{}      [{}]   0%\n", " ".repeat(42), "-".repeat(43));
    assert_eq!(text(&mut q), expected);
}

#[test]
fn narrow_terminal_draws_nothing() {
    let mut p = Progress::with_geometry(0, Some((15, 24)));
    let bar = p.bar(4, "ab");
    text(&mut p);
    p.set_and_draw(&bar, 2);
    assert_eq!(text(&mut p), "");
}

#[test]
fn cursor_offsets_follow_row_order() {
    let mut p = Progress::with_geometry(0, Some((80, 24)));
    let top = p.bar(10, "a");
    let _mid = p.bar(10, "b");
    let bottom = p.bar(10, "c");
    text(&mut p);
    p.set_and_draw(&top, 5);
    assert!(text(&mut p).starts_with(&format!("{}[s{}[3A\r", ESC, ESC)));
    p.set_and_draw(&bottom, 5);
    assert!(text(&mut p).starts_with(&format!("{}[s{}[1A\r", ESC, ESC)));
}

#[test]
fn rows_above_the_screen_are_not_drawn() {
    let mut p = Progress::with_geometry(0, Some((80, 2)));
    let top = p.bar(10, "a");
    let _mid = p.bar(10, "b");
    let bottom = p.bar(10, "c");
    text(&mut p);
    p.set_and_draw(&top, 5);
    assert_eq!(text(&mut p), "");
    p.set_and_draw(&bottom, 5);
    assert!(!text(&mut p).is_empty());
}

#[test]
fn empty_log_scope_only_clears() {
    let p = Progress::with_geometry(0, Some((80, 24)));
    let scope = p.stderr();
    let mut p = scope.close();
    assert_eq!(text(&mut p), format!("{}[0A{}[2K\r", ESC, ESC));
}

#[test]
fn log_scope_repaints_rows_below_text() {
    let mut p = Progress::with_geometry(0, Some((80, 24)));
    let a = p.bar(10, "a");
    let b = p.bar(4, "b");
    p.set(&a, 10);
    p.set(&b, 1);
    text(&mut p);
    let mut scope = p.stderr();
    scope.write_str("hello\n");
    let mut p = scope.close();
    let line_a = format!("{}{}] 100%", head80("a", "10", ' '), "#".repeat(33));
    let line_b = format!("{}{}>{}]  25%", head80("b", "1", ' '), "#".repeat(8), "-".repeat(24));
    let expected = format!("{}[2A{}[2K\rhello\n{}\n{}\n", ESC, ESC, line_a, line_b);
    assert_eq!(text(&mut p), expected);
    // The repaint recorded the percentages shown.
    p.draw(&a);
    p.draw(&b);
    assert_eq!(text(&mut p), "");
}

#[test]
fn log_scope_repaints_only_rows_on_screen() {
    let mut p = Progress::with_geometry(0, Some((80, 2)));
    let _a = p.bar(10, "a");
    let _b = p.bar(10, "b");
    let _c = p.bar(10, "c");
    text(&mut p);
    let scope = p.stderr();
    let mut p = scope.close();
    let line_c = format!("{}>{}]   0%", head80("c", "0", ' '), "-".repeat(32));
    assert_eq!(text(&mut p), format!("{}[3A{}[2K\r{}\n", ESC, ESC, line_c));
}

#[test]
fn log_text_waits_for_the_close() {
    let mut p = Progress::with_geometry(0, Some((80, 24)));
    let bar = p.bar(4, "a");
    p.set(&bar, 2);
    text(&mut p);
    let mut scope = p.stderr();
    scope.write_str("no");
    scope.write_str("te\n");
    let mut p = scope.close();
    let line = format!("{}{}>{}]  50%", head80("a", "2", ' '), "#".repeat(16), "-".repeat(16));
    assert_eq!(text(&mut p), format!("{}[1A{}[2K\rnote\n{}\n", ESC, ESC, line));
    // Nothing was left behind unflushed.
    p.draw(&bar);
    assert_eq!(text(&mut p), "");
}

#[test]
fn completion_follows_set_and_inc() {
    let mut p = Progress::with_geometry(0, None);
    let bar = p.bar(10, "x");
    assert!(!p.is_done(&bar));
    p.inc(&bar, 9);
    assert!(!p.is_done(&bar));
    p.inc(&bar, 1);
    assert!(p.is_done(&bar));
    p.set(&bar, 4);
    assert!(!p.is_done(&bar));
    p.set(&bar, 25);
    assert!(p.is_done(&bar));
}

#[test]
fn complete_row_shows_full_field() {
    let mut p = Progress::with_geometry(0, Some((80, 24)));
    let bar = p.bar(3000, "files");
    text(&mut p);
    p.set_and_draw(&bar, 4500);
    let line = format!("{}{}] 100%", head80("files", "4", 'K'), "#".repeat(33));
    assert_eq!(text(&mut p), in_place(1, &line));
}

#[test]
fn magnitude_and_fill_scale() {
    let mut p = Progress::with_geometry(0, Some((80, 24)));
    let bar = p.bar(3_000_000, "big");
    text(&mut p);
    p.set_and_draw(&bar, 1_500_000);
    let line = format!("{}{}>{}]  50%", head80("big", "1", 'M'), "#".repeat(16), "-".repeat(16));
    assert_eq!(text(&mut p), in_place(1, &line));
}

#[test]
fn long_label_is_cut_to_its_field() {
    let mut p = Progress::with_geometry(0, Some((80, 24)));
    let label = "0123456789".repeat(5);
    let _bar = p.bar(10, &label);
    let expected = format!("{}      [{}]   0%\n", &label[..34], "-".repeat(33));
    assert_eq!(text(&mut p), expected);
}

#[test]
fn default_and_new_start_empty() {
    let mut p = Progress::default();
    assert_eq!(p.take_output().len(), 0);
    let mut q = Progress::with_capacity(8);
    let bar = q.bar(2, "x");
    assert!(!q.is_done(&bar));
}

#[test]
fn handles_and_values() {
    let mut p = Progress::with_geometry(0, None);
    let mut other = Progress::with_geometry(0, None);
    let a = p.bar(10, "a");
    let b = p.bar(10, "b");
    assert!(p.holds(&a));
    assert!(p.holds(&b));
    assert!(!other.holds(&b));
    let _c = other.bar(10, "c");
    assert!(other.holds(&a));
    p.inc(&b, 7);
    p.inc(&b, 2);
    assert_eq!(p.value(&a), 0);
    assert_eq!(p.value(&b), 9);
}

#[test]
fn zero_target_is_accepted_until_drawn() {
    let mut p = Progress::with_geometry(0, Some((80, 24)));
    let bar = p.bar(0, "z");
    let expected = format!("z{}      [{}]   0%\n", " ".repeat(33), "-".repeat(33));
    assert_eq!(text(&mut p), expected);
    assert!(p.is_done(&bar));
    assert!(!p.can_draw(&bar));
    let scope = p.stderr();
    assert!(!scope.can_close());
    let mut q = Progress::with_geometry(0, None);
    let zero = q.bar(0, "z");
    assert!(q.can_draw(&zero));
    q.set_and_draw(&zero, 3);
    let scope = q.stderr();
    assert!(scope.can_close());
    let mut q = scope.close();
    // The first line (100 columns and a newline), then the line clear.
    assert_eq!(text(&mut q).len(), 101 + 9);
}

#[test]
fn zero_target_off_screen_does_not_stop_a_repaint() {
    let mut p = Progress::with_geometry(0, Some((80, 1)));
    let _zero = p.bar(0, "z");
    let other = p.bar(5, "o");
    assert!(p.can_draw(&other));
    let scope = p.stderr();
    assert!(scope.can_close());
}
