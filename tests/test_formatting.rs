use serenity_utils::formatting::{escape_mass_mentions, pagify, PagifyOptions};

#[test]
fn test_pagify() {
    let mut options = PagifyOptions::default();
    options.page_length(30).shorten_by(0).priority(true);

    let pages = pagify(
        "This is the first sentence.\
        \nAnother sentence.\nThis is a long sentence and \
        will be broken into two.",
        options,
    );

    assert_eq!(
        vec![
            "This is the first sentence.",
            "\nAnother sentence.",
            "\nThis is a long sentence and",
            " will be broken into two."
        ],
        pages
    );
}

#[test]
fn test_escape_mass_mentions() {
    let text = "Hello, @everyone! I can filter both @everyone and @here pings!";

    assert_eq!(
        escape_mass_mentions(text),
        String::from(
            "Hello, @\u{200b}everyone! I can filter both @\u{200b}everyone \
            and @\u{200b}here pings!"
        )
    )
}

#[test]
fn escape_leaves_plain_text_alone() {
    assert_eq!(escape_mass_mentions(""), "");
    assert_eq!(escape_mass_mentions("@ here @her @everyon"), "@ here @her @everyon");
    assert_eq!(escape_mass_mentions("@@here"), "@@\u{200b}here");
}

#[test]
fn pagify_options_defaults() {
    let options = PagifyOptions::new();
    assert_eq!(options.delims, &["\n", " "]);
    assert!(options.escape_mass_mentions);
    assert_eq!(options.shorten_by, 8);
    assert_eq!(options.page_length, 2000);
    assert!(!options.priority);
}

#[test]
fn pagify_short_text_is_one_page() {
    let pages = pagify("hello world", PagifyOptions::default());
    assert_eq!(pages, vec!["hello world"]);
}

#[test]
fn pagify_drops_blank_last_page() {
    let mut options = PagifyOptions::default();
    options.page_length(5).shorten_by(0);
    assert_eq!(pagify("   \n ", options), Vec::<String>::new());
    let mut options = PagifyOptions::default();
    options.page_length(5).shorten_by(0);
    assert_eq!(pagify("abcd ", options), vec!["abcd "]);
}

#[test]
fn pagify_breaks_at_last_delimiter_without_priority() {
    let mut options = PagifyOptions::default();
    options.page_length(10).shorten_by(0);
    // Within positions 1..10, the last delimiter is the space at 7.
    let pages = pagify("ab\ncd ef gh", options);
    assert_eq!(pages, vec!["ab\ncd ef", " gh"]);
}

#[test]
fn pagify_priority_prefers_first_delimiter() {
    let mut options = PagifyOptions::default();
    options.page_length(10).shorten_by(0).priority(true);
    let pages = pagify("ab\ncd ef gh", options);
    assert_eq!(pages, vec!["ab", "\ncd ef gh"]);
}

#[test]
fn pagify_without_delimiters_cuts_at_length() {
    let mut options = PagifyOptions::default();
    options.page_length(4).shorten_by(0).delims(&[]);
    let pages = pagify("abcdefghij", options);
    assert_eq!(pages, vec!["abcd", "efgh", "ij"]);
}

#[test]
fn pagify_escapes_and_shortens_for_mentions() {
    let mut options = PagifyOptions::default();
    options.page_length(8).shorten_by(0).delims(&[]);
    // One mention in the first 8 characters: the page takes 7.
    let pages = pagify("@here abcdef", options);
    assert_eq!(pages, vec!["@\u{200b}here a", "bcdef"]);
    let mut options = PagifyOptions::default();
    options
        .page_length(8)
        .shorten_by(0)
        .delims(&[])
        .escape_mass_mentions(false);
    let pages = pagify("@here abcdef", options);
    assert_eq!(pages, vec!["@here ab", "cdef"]);
}

#[test]
fn pagify_counts_characters() {
    let mut options = PagifyOptions::default();
    options.page_length(3).shorten_by(1).delims(&[]);
    let pages = pagify("\u{e9}\u{e9}\u{e9}\u{e9}\u{e9}", options);
    assert_eq!(pages, vec!["\u{e9}\u{e9}", "\u{e9}\u{e9}", "\u{e9}"]);
}
