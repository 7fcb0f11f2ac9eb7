use homescreen::error::ServerError;
use homescreen::section::WebsiteSection;

#[test]
fn parse_reads_each_canonical_text() {
    assert_eq!(WebsiteSection::parse("code").unwrap(), WebsiteSection::Code);
    assert_eq!(WebsiteSection::parse("fun").unwrap(), WebsiteSection::Fun);
    assert_eq!(WebsiteSection::parse("editing").unwrap(), WebsiteSection::Editing);
}

#[test]
fn parse_of_to_text_round_trips() {
    for s in WebsiteSection::all() {
        let text = s.to_text();
        assert_eq!(WebsiteSection::parse(&text).unwrap(), s);
    }
}

#[test]
fn parse_refuses_other_text() {
    for t in ["Code", "CODE", " code", "code ", "", "coding", "edit", "funny"] {
        assert!(matches!(WebsiteSection::parse(t), Err(ServerError::InvalidSection)));
    }
}

#[test]
fn to_text_is_lowercase_and_to_string_capitalised() {
    assert_eq!(WebsiteSection::Code.to_text(), "code");
    assert_eq!(WebsiteSection::Fun.to_text(), "fun");
    assert_eq!(WebsiteSection::Editing.to_text(), "editing");
    assert_eq!(WebsiteSection::Code.to_string(), "Code");
    assert_eq!(WebsiteSection::Fun.to_string(), "Fun");
    assert_eq!(WebsiteSection::Editing.to_string(), "Editing");
}

#[test]
fn all_lists_sections_in_fixed_order() {
    assert_eq!(
        WebsiteSection::all(),
        vec![WebsiteSection::Code, WebsiteSection::Fun, WebsiteSection::Editing]
    );
}
