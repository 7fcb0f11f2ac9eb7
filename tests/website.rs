use homescreen::config::Config;
use homescreen::error::ServerError;
use homescreen::section::WebsiteSection;
use homescreen::website::{Website, WebsiteForm};

fn s(t: &str) -> String {
    t.to_string()
}

#[test]
fn new_accepts_links_without_protocol() {
    for link in ["github.com/org/ide", "", "http:/x", "ftp://host", "HTTP://host", "xhttps://a", "http", " https://a"] {
        let w = Website::new(s("n"), s(link), WebsiteSection::Fun).unwrap();
        assert_eq!(w.name(), "n");
        assert_eq!(w.link(), link);
        assert_eq!(*w.section(), WebsiteSection::Fun);
    }
}

#[test]
fn new_refuses_links_with_protocol() {
    for link in ["http://", "https://", "http://a.com", "https://evil.com"] {
        let r = Website::new(s("n"), s(link), WebsiteSection::Code);
        assert!(matches!(r, Err(ServerError::LinkHasTransferProtocol)));
    }
}

#[test]
fn validate_link_hands_link_back() {
    assert_eq!(Website::validate_link(s("example.org/a")).unwrap(), "example.org/a");
    assert!(matches!(
        Website::validate_link(s("https://example.org")),
        Err(ServerError::LinkHasTransferProtocol)
    ));
}

#[test]
fn icon_link_embeds_link_literally() {
    let w = Website::new(s("ide"), s("github.com/org/ide"), WebsiteSection::Code).unwrap();
    assert_eq!(w.icon_link(), "https://icons.duckduckgo.com/ip3/github.com/org/ide.ico");
    let e = Website::new(s("e"), s(""), WebsiteSection::Code).unwrap();
    assert_eq!(e.icon_link(), "https://icons.duckduckgo.com/ip3/.ico");
}

#[test]
fn websites_equal_when_all_fields_equal() {
    let a = Website::new(s("a"), s("a.com"), WebsiteSection::Code).unwrap();
    let b = Website::new(s("a"), s("a.com"), WebsiteSection::Code).unwrap();
    let c = Website::new(s("a"), s("a.com"), WebsiteSection::Fun).unwrap();
    let d = Website::new(s("a"), s("b.com"), WebsiteSection::Code).unwrap();
    assert_eq!(a, b);
    assert_ne!(a, c);
    assert_ne!(a, d);
    assert_eq!(a.clone(), a);
}

#[test]
fn from_form_builds_website() {
    let w = Website::from_form(WebsiteForm::new(s("docs"), s("docs.rs"), s("editing"))).unwrap();
    assert_eq!(w.name(), "docs");
    assert_eq!(w.link(), "docs.rs");
    assert_eq!(*w.section(), WebsiteSection::Editing);
}

#[test]
fn from_form_reports_section_before_link() {
    let bad_section = WebsiteForm::new(s("x"), s("x.com"), s("Code"));
    assert!(matches!(Website::from_form(bad_section), Err(ServerError::InvalidSection)));
    let both_bad = WebsiteForm::new(s("x"), s("http://x.com"), s("games"));
    assert!(matches!(Website::from_form(both_bad), Err(ServerError::InvalidSection)));
    let bad_link = WebsiteForm::new(s("x"), s("http://x.com"), s("fun"));
    assert!(matches!(Website::from_form(bad_link), Err(ServerError::LinkHasTransferProtocol)));
}

#[test]
fn config_holds_port_and_url() {
    let c = Config::new(8888, s("mysql://user@localhost/homescreen"));
    assert_eq!(c.port(), 8888);
    assert_eq!(c.database_url(), "mysql://user@localhost/homescreen");
}
