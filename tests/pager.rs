use mp::input::{parse_digits, Action, Mode};
use mp::text::{decimal_text, padded_left, padded_right, skip_graphemes};
use mp::view::State;

fn lines(v: &[&str]) -> Vec<String> {
    v.iter().map(|s| s.to_string()).collect()
}

fn numbered(n: usize) -> Vec<String> {
    (0..n).map(|i| format!("line {i}")).collect()
}

fn abs_row(s: &State) -> usize {
    s.scroll.1 + s.cursor.1 as usize
}

fn abs_col(s: &State) -> usize {
    s.scroll.0 + s.cursor.0 as usize
}

fn feed(s: &mut State, keys: &str) -> Vec<Action> {
    keys.chars().map(|c| s.event(c)).collect()
}

#[test]
fn three_moves_down_stop_at_last_line() {
    let mut s = State::init(20, 4);
    s.update(lines(&["a", "b", "c"]));
    for _ in 0..3 {
        assert_eq!(s.event('j'), Action::Down(1));
    }
    assert_eq!(abs_row(&s), 2);
}

#[test]
fn csi_down_with_count() {
    let mut s = State::init(20, 10);
    s.update(numbered(30));
    let acts = feed(&mut s, "\x1b[2b");
    assert_eq!(acts, vec![Action::Cont, Action::Cont, Action::Cont, Action::Down(2)]);
    assert!(s.mode().is_normal());
    assert_eq!(abs_row(&s), 2);
}

#[test]
fn goto_line_five() {
    let mut s = State::init(20, 10);
    s.update(numbered(30));
    let acts = feed(&mut s, "g5g");
    assert_eq!(acts[2], Action::Jump(4, 0));
    assert!(s.mode().is_normal());
    assert_eq!(abs_row(&s), 4);
}

#[test]
fn completed_action_returns_to_normal() {
    let mut s = State::init(20, 10);
    s.update(numbered(30));
    for keys in ["j", "\x1b[3a", "\x1b[c", "g12g", "ge", "gh", "gl", "gs", "\x1b[5~", "\x1b[6~"] {
        let acts = feed(&mut s, keys);
        assert_ne!(*acts.last().unwrap(), Action::Cont);
        assert!(s.mode().is_normal(), "{keys}");
    }
}

#[test]
fn abandoned_sequences_return_to_normal() {
    let mut s = State::init(20, 10);
    s.update(numbered(30));
    for keys in ["\x1bx", "\x1b[1z", "g3x", "\x1b[7~"] {
        let acts = feed(&mut s, keys);
        assert!(acts.iter().all(|a| *a == Action::Cont));
        assert!(s.mode().is_normal(), "{keys}");
    }
    assert_eq!(abs_row(&s), 0);
}

#[test]
fn pending_modes_show_in_status() {
    let mut s = State::init(20, 10);
    assert_eq!(s.mode().to_string(), "    ");
    s.event('\x1b');
    assert_eq!(s.mode().to_string(), "ESC ");
    feed(&mut s, "[12");
    assert_eq!(s.mode().to_string(), "CSI 12");
    feed(&mut s, "x");
    feed(&mut s, "g7");
    assert_eq!(s.mode().to_string(), "g7  ");
    assert_eq!(Mode::Goto("1234".to_string()).to_string(), "g1234");
}

#[test]
fn jump_equals_unit_steps() {
    let mut a = State::init(8, 10);
    a.update(numbered(50));
    feed(&mut a, "jjj");
    let mut b = State::init(8, 10);
    b.update(numbered(50));
    feed(&mut b, "jjj");

    a.event('g');
    a.event('4');
    a.event('0');
    assert_eq!(a.event('g'), Action::Jump(39, 0));
    for _ in 0..(39 - 3) {
        b.event('j');
    }
    assert_eq!((a.cursor, a.scroll), (b.cursor, b.scroll));

    // then horizontally and back up
    a.apply(Action::Jump(5, 12));
    b.apply(Action::Up(34));
    b.apply(Action::Right(12));
    assert_eq!((a.cursor, a.scroll), (b.cursor, b.scroll));
    assert_eq!((abs_row(&a), abs_col(&a)), (5, 12));
}

#[test]
fn jump_past_end_clamps_to_last_line() {
    let mut s = State::init(20, 10);
    s.update(numbered(30));
    assert_eq!(feed(&mut s, "ge")[1], Action::Jump(30, 0));
    assert_eq!(abs_row(&s), 29);
    feed(&mut s, "g999g");
    assert_eq!(abs_row(&s), 29);
    feed(&mut s, "gg");
    assert_eq!(abs_row(&s), 0);
}

#[test]
fn up_from_top_never_underflows() {
    let mut s = State::init(20, 10);
    s.update(numbered(30));
    for _ in 0..5 {
        s.event('k');
    }
    s.apply(Action::Up(1000));
    assert_eq!((s.cursor.1, s.scroll.1), (0, 0));
    s.apply(Action::Left(7));
    assert_eq!((s.cursor.0, s.scroll.0), (0, 0));
}

#[test]
fn down_never_passes_last_line() {
    let mut s = State::init(20, 10);
    s.update(numbered(12));
    s.apply(Action::Down(100));
    assert_eq!(abs_row(&s), 11);
    assert!(s.cursor.1 <= 8);
    let mut short = State::init(20, 10);
    short.update(lines(&["only"]));
    short.apply(Action::Down(5));
    assert_eq!(abs_row(&short), 0);
}

#[test]
fn deadzone_scrolls_the_window() {
    // 10 rows: 9 content rows, the band starts at row 8
    let mut s = State::init(20, 10);
    s.update(numbered(30));
    s.apply(Action::Down(8));
    assert_eq!((s.cursor.1, s.scroll.1), (8, 0));
    s.apply(Action::Down(1));
    assert_eq!((s.cursor.1, s.scroll.1), (8, 1));
    s.apply(Action::Up(6));
    assert_eq!((s.cursor.1, s.scroll.1), (2, 1));
    s.apply(Action::Up(1));
    assert_eq!((s.cursor.1, s.scroll.1), (2, 0));
}

#[test]
fn horizontal_scroll_at_edge() {
    let mut s = State::init(4, 10);
    s.update(numbered(3));
    s.apply(Action::Right(5));
    assert_eq!((s.cursor.0, s.scroll.0), (3, 2));
    s.apply(Action::Left(4));
    assert_eq!((s.cursor.0, s.scroll.0), (0, 1));
    s.apply(Action::Left(1));
    assert_eq!((s.cursor.0, s.scroll.0), (0, 0));
}

#[test]
fn refresh_with_empty_output() {
    let mut s = State::init(20, 10);
    s.update(numbered(30));
    s.apply(Action::Down(20));
    s.update(Vec::new());
    assert!(s.buf.is_empty());
    assert_eq!((s.cursor.1, s.scroll.1), (0, 0));
    // movement on an empty buffer stays put
    feed(&mut s, "jjgegl");
    assert_eq!(abs_row(&s), 0);
}

#[test]
fn refresh_with_shorter_output_clamps() {
    let mut s = State::init(20, 10);
    s.update(numbered(30));
    s.apply(Action::Down(20));
    s.update(numbered(5));
    assert_eq!(abs_row(&s), 4);
}

#[test]
fn goto_line_ends_and_first_non_blank() {
    let mut s = State::init(40, 10);
    s.update(lines(&["   text here", "\t\t", "abc"]));
    assert_eq!(feed(&mut s, "gs")[1], Action::Jump(0, 3));
    assert_eq!(abs_col(&s), 3);
    assert_eq!(feed(&mut s, "gl")[1], Action::Jump(0, 12));
    assert_eq!(feed(&mut s, "gh")[1], Action::Jump(0, 0));
    s.event('j');
    assert_eq!(feed(&mut s, "gs")[1], Action::Jump(1, 0));
}

#[test]
fn page_keys_move_a_window() {
    let mut s = State::init(20, 10);
    s.update(numbered(100));
    assert_eq!(feed(&mut s, "\x1b[6~")[3], Action::Down(9));
    assert_eq!(abs_row(&s), 9);
    assert_eq!(feed(&mut s, "\x1b[5~")[3], Action::Up(9));
    assert_eq!(abs_row(&s), 0);
}

#[test]
fn quit_keys_exit() {
    let mut s = State::init(20, 10);
    assert_eq!(s.event('q'), Action::Exit);
    assert_eq!(s.event('\x03'), Action::Exit);
    assert_eq!(s.event('x'), Action::Cont);
}

#[test]
fn digit_counts_saturate() {
    assert_eq!(parse_digits("0"), 0);
    assert_eq!(parse_digits("042"), 42);
    assert_eq!(parse_digits(""), 0);
    assert_eq!(parse_digits("99999999999999999999999999"), usize::MAX);
}

#[test]
fn decimal_and_padding() {
    assert_eq!(decimal_text(0), "0");
    assert_eq!(decimal_text(1907), "1907");
    assert_eq!(decimal_text(u128::MAX), u128::MAX.to_string());
    assert_eq!(padded_left("7", 3), "  7");
    assert_eq!(padded_left("1234", 3), "1234");
    assert_eq!(padded_right("7", 3), "7  ");
}

#[test]
fn horizontal_scroll_skips_whole_clusters() {
    let line = "a\u{310}e\u{301}o\u{308}\u{332}x";
    assert_eq!(skip_graphemes(line, 1), "e\u{301}o\u{308}\u{332}x");
    assert_eq!(skip_graphemes(line, 3), "x");
    assert_eq!(skip_graphemes(line, 4), "");
    assert_eq!(skip_graphemes("a\r\nb", 1), "\r\nb");
}

#[test]
fn frame_rows_with_numbers() {
    let mut s = State::init(20, 4);
    s.update(numbered(12));
    assert_eq!(s.visible_range(), (0, 3));
    assert_eq!(s.gutter_width(), 1);
    assert_eq!(s.frame_rows(), vec!["1│ line 0", "2│ line 1", "3│ line 2"]);
    s.apply(Action::Down(9));
    // with 4 rows the band starts at row 0: the window scrolls at once
    assert_eq!(s.visible_range(), (9, 12));
    assert_eq!(s.gutter_width(), 2);
    assert_eq!(s.row(9), "10│ line 9");
    assert_eq!(s.row(8), " 9│ line 8");
    s.apply(Action::Right(25));
    assert_eq!(s.row(10), "11│ 0");
}

#[test]
fn status_bar_texts() {
    let mut s = State::init(30, 10);
    s.update(numbered(30));
    s.apply(Action::Jump(11, 4));
    assert_eq!(s.position_text(), "12:5");
    assert_eq!(s.status_left("ls -l"), "     ls -l");
    s.event('g');
    s.event('3');
    assert_eq!(s.status_left("f.txt"), "g3   f.txt");
    assert_eq!(s.right_aligned_column(4), 26);
    assert_eq!(s.right_aligned_column(40), 0);
    assert_eq!(s.cursor_on_screen(), (2 + 2 + 4, s.cursor.1));
}

#[test]
fn resize_keeps_cursor_in_window() {
    let mut s = State::init(30, 20);
    s.update(numbered(30));
    s.apply(Action::Down(15));
    s.apply(Action::Right(25));
    s.resize(10, 5);
    assert!(s.cursor.1 <= 3);
    assert!(s.cursor.0 <= 9);
    assert_eq!(s.term_size, (10, 5));
}

#[test]
fn concatenation_from_an_index() {
    let parts = lines(&["ab", "", "c", "de"]);
    assert_eq!(mp::text::concat_from(&parts, 0), "abcde");
    assert_eq!(mp::text::concat_from(&parts, 2), "cde");
    assert_eq!(mp::text::concat_from(&parts, 4), "");
}

#[test]
fn huge_counts_end_at_the_edges() {
    let mut s = State::init(20, 10);
    s.update(numbered(40));
    s.apply(Action::Down(usize::MAX));
    assert_eq!(abs_row(&s), 39);
    s.apply(Action::Right(3));
    s.apply(Action::Left(usize::MAX));
    assert_eq!(abs_col(&s), 0);
    let acts = feed(&mut s, "\x1b[99999999999999999999999a");
    assert_eq!(*acts.last().unwrap(), Action::Up(usize::MAX));
    assert_eq!(abs_row(&s), 0);
}

#[test]
fn single_steps_at_the_edges() {
    let mut s = State::init(20, 10);
    s.update(lines(&["a", "b"]));
    s.up();
    assert_eq!((s.cursor, s.scroll), ((0, 0), (0, 0)));
    s.down();
    s.down();
    s.down();
    assert_eq!(abs_row(&s), 1);
    s.right();
    s.left();
    s.left();
    assert_eq!(abs_col(&s), 0);
}

#[test]
fn first_non_blank_after_unicode_spaces() {
    let mut s = State::init(40, 10);
    s.update(lines(&["\u{3000}\u{a0} x"]));
    assert_eq!(feed(&mut s, "gs")[1], Action::Jump(0, 3));
}

#[test]
fn skipping_no_cluster_keeps_the_line() {
    let line = "e\u{301}\u{1F1F7}\u{1F1FA}!";
    assert_eq!(skip_graphemes(line, 0), line);
    assert_eq!(skip_graphemes("", 0), "");
}
