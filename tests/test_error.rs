use serenity_utils::Error;

#[test]
fn error_texts() {
    assert_eq!(Error::TimeoutError.to_string(), "You took too long to respond.");
    assert_eq!(Error::InvalidChoice.to_string(), "Invalid choice!");
    assert_eq!(Error::Other(String::from("`pages` is empty.")).to_string(), "`pages` is empty.");
    let transport = Error::SerenityError(serenity::Error::Other("boom"));
    assert_eq!(transport.to_string(), serenity::Error::Other("boom").to_string());
}

#[test]
fn error_conversions() {
    assert!(matches!(Error::from(String::from("x")), Error::Other(s) if s == "x"));
    assert!(matches!(
        Error::from(serenity::Error::Other("boom")),
        Error::SerenityError(serenity::Error::Other("boom"))
    ));
}
