use homescreen::error::ServerError;
use homescreen::memory::MemoryStore;
use homescreen::section::WebsiteSection;
use homescreen::website::Website;

fn site(name: &str, link: &str, section: WebsiteSection) -> Website {
    Website::new(name.to_string(), link.to_string(), section).unwrap()
}

fn names(store: &MemoryStore, section: WebsiteSection) -> Vec<String> {
    store.get_by_section(section).unwrap().iter().map(|w| w.name().to_string()).collect()
}

#[test]
fn upsert_same_name_twice_keeps_last_write() {
    let mut store = MemoryStore::new();
    store.upsert(site("ide", "a.com", WebsiteSection::Code)).unwrap();
    store.upsert(site("ide", "b.com", WebsiteSection::Fun)).unwrap();
    assert!(names(&store, WebsiteSection::Code).is_empty());
    let fun = store.get_by_section(WebsiteSection::Fun).unwrap();
    assert_eq!(fun.len(), 1);
    assert_eq!(fun[0], site("ide", "b.com", WebsiteSection::Fun));
    let all = store.get_all().unwrap().into_entries();
    let total: usize = all.iter().map(|e| e.1.len()).sum();
    assert_eq!(total, 1);
}

#[test]
fn delete_of_unknown_name_is_not_found() {
    let mut store = MemoryStore::new();
    assert!(matches!(store.delete_by_name("ghost"), Err(ServerError::NotFound)));
    store.upsert(site("a", "a.com", WebsiteSection::Code)).unwrap();
    assert!(matches!(store.delete_by_name("A"), Err(ServerError::NotFound)));
    assert_eq!(names(&store, WebsiteSection::Code), vec!["a".to_string()]);
}

#[test]
fn get_all_keys_every_section_when_empty() {
    let store = MemoryStore::new();
    let all = store.get_all().unwrap();
    for s in WebsiteSection::all() {
        assert!(all.get(s).is_empty());
    }
    let entries = all.into_entries();
    assert_eq!(entries.len(), 3);
    assert_eq!(entries[0].0, WebsiteSection::Code);
    assert_eq!(entries[1].0, WebsiteSection::Fun);
    assert_eq!(entries[2].0, WebsiteSection::Editing);
}

#[test]
fn get_all_groups_by_section() {
    let mut store = MemoryStore::new();
    store.upsert(site("a", "a.com", WebsiteSection::Code)).unwrap();
    store.upsert(site("b", "b.com", WebsiteSection::Editing)).unwrap();
    store.upsert(site("c", "c.com", WebsiteSection::Code)).unwrap();
    let all = store.get_all().unwrap();
    let mut code: Vec<String> = all.get(WebsiteSection::Code).iter().map(|w| w.name().to_string()).collect();
    code.sort();
    assert_eq!(code, vec!["a".to_string(), "c".to_string()]);
    assert!(all.get(WebsiteSection::Fun).is_empty());
    assert_eq!(all.get(WebsiteSection::Editing).len(), 1);
}

#[test]
fn create_upsert_delete_scenario() {
    let mut store = MemoryStore::new();
    let ide = Website::new("ide".to_string(), "github.com/org/ide".to_string(), WebsiteSection::Code).unwrap();
    store.upsert(ide).unwrap();
    let code = store.get_by_section(WebsiteSection::Code).unwrap();
    assert!(code.iter().any(|w| w.name() == "ide" && w.link() == "github.com/org/ide"));

    let evil = Website::new("ide2".to_string(), "https://evil.com".to_string(), WebsiteSection::Fun);
    assert!(matches!(evil, Err(ServerError::LinkHasTransferProtocol)));
    assert!(names(&store, WebsiteSection::Fun).is_empty());

    assert!(store.delete_by_name("ide").is_ok());
    assert!(!names(&store, WebsiteSection::Code).contains(&"ide".to_string()));
    assert!(matches!(store.delete_by_name("ide"), Err(ServerError::NotFound)));
}
