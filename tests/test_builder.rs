use serenity_utils::builder::embed::{EmbedAuthorBuilder, EmbedFieldBuilder, EmbedFooterBuilder};

#[test]
fn author_builder_sets_fields() {
    let mut builder = EmbedAuthorBuilder::new("Arius");
    assert_eq!(builder.name, "Arius");
    assert_eq!(builder.icon_url, None);
    assert_eq!(builder.url, None);
    builder
        .set_url("https://example.com/a")
        .set_icon_url("https://example.com/i.png")
        .set_name("Other");
    assert_eq!(builder.name, "Other");
    assert_eq!(builder.url.as_deref(), Some("https://example.com/a"));
    assert_eq!(builder.icon_url.as_deref(), Some("https://example.com/i.png"));
}

#[test]
fn footer_builder_sets_fields() {
    let mut builder = EmbedFooterBuilder::new("text");
    assert_eq!(builder.text, "text");
    assert_eq!(builder.icon_url, None);
    builder.set_icon_url("https://example.com/i.png").set_text("more");
    assert_eq!(builder.text, "more");
    assert_eq!(builder.icon_url.as_deref(), Some("https://example.com/i.png"));
}

#[test]
fn field_builder_sets_fields() {
    let mut builder = EmbedFieldBuilder::new("name", "value", true);
    assert_eq!(builder.name, "name");
    assert_eq!(builder.value, "value");
    assert!(builder.inline);
    builder.set_name("n").set_value("v").set_inline(false);
    assert_eq!(builder.name, "n");
    assert_eq!(builder.value, "v");
    assert!(!builder.inline);
}
