use neocrystal::sliding::SlidingText;

#[test]
fn text_that_fits_is_shown_whole_without_its_padding() {
    let mut text = SlidingText::new("ab", 10);
    assert_eq!(text.visible_text(false), "ab");
    assert_eq!(text.visible_text(true), "ab");
    let mut exact = SlidingText::new("abcde", 8);
    assert_eq!(exact.visible_text(false), "abcde");
}

#[test]
fn text_that_does_not_fit_slides_by_one_cluster_a_tick() {
    let mut text = SlidingText::new("abcdefgh", 4);
    assert_eq!(text.visible_text(false), "abcd");
    assert_eq!(text.visible_text(false), "abcd");
    assert_eq!(text.visible_text(true), "bcde");
    assert_eq!(text.visible_text(true), "cdef");
    for _ in 0..5 {
        text.visible_text(true);
    }
    assert_eq!(text.visible_text(true), "   a");
    assert_eq!(text.visible_text(true), "  ab");
    assert_eq!(text.visible_text(true), " abc");
    assert_eq!(text.visible_text(true), "abcd");
}

#[test]
fn wide_characters_count_for_two_columns() {
    let mut text = SlidingText::new("日本語のテキスト", 4);
    assert_eq!(text.visible_text(false), "日本");
    assert_eq!(text.visible_text(true), "本語");
    let mut odd = SlidingText::new("日本語のテキスト", 5);
    assert_eq!(odd.visible_text(false), "日本語");
}

#[test]
fn a_cluster_of_several_characters_moves_as_one() {
    let mut text = SlidingText::new("e\u{301}abcdefgh", 3);
    assert_eq!(text.visible_text(false), "e\u{301}ab");
    assert_eq!(text.visible_text(true), "abc");
}

#[test]
fn reset_takes_a_new_text_and_starts_over() {
    let mut text = SlidingText::new("abcdefgh", 4);
    text.visible_text(true);
    text.visible_text(true);
    text.reset_to("uvwxyz");
    assert_eq!(text.visible_text(false), "uvwx");
    text.reset_to("uv");
    assert_eq!(text.visible_text(true), "v   ");
    text.reset_to("u");
    assert_eq!(text.visible_text(true), "u");
}

#[test]
fn update_moves_the_window_and_wraps() {
    let mut text = SlidingText::from_graphemes(
        vec![String::from("a"), String::from("b"), String::from("c")],
        2,
    );
    assert_eq!(text.visible_text(false), "ab");
    text._update();
    assert_eq!(text.visible_text(false), "bc");
    text._update();
    assert_eq!(text.visible_text(false), "ca");
    text._update();
    assert_eq!(text.visible_text(false), "ab");
}

#[test]
fn no_clusters_and_no_columns_show_nothing() {
    let mut none = SlidingText::from_graphemes(Vec::new(), 4);
    assert_eq!(none.visible_text(true), "");
    let mut narrow = SlidingText::new("abc", 0);
    assert_eq!(narrow.visible_text(true), "");
    let mut blank = SlidingText::new("", 2);
    assert_eq!(blank.visible_text(false), "  ");
    let mut unseen = SlidingText::from_graphemes(vec![String::from("\u{200b}"), String::from("ab")], 1);
    assert_eq!(unseen.visible_text(false), "\u{200b}ab");
}
