use saved_accounts::text::to_ascii_lower;

#[test]
fn ascii_capitals_are_made_small() {
    for text in ["", "ABCDEFGHIJKLMNOPQRSTUVWXYZ", "5h Limit @[`{", "\u{c9}T\u{c9} \u{1f600}Z"] {
        assert_eq!(to_ascii_lower(text), text.to_ascii_lowercase());
    }
}
