use core_api_rs::models::work_models::identifier::{DoiIdentifier, Identifier, IdentifierEntry};
use core_api_rs::models::work_models::link::{Link, LinkType};

fn identifier(value: &str, kind: &str) -> Identifier {
    Identifier { identifier: String::from(value), identifier_type: String::from(kind) }
}

#[test]
fn identifier_to_string() {
    assert_eq!(identifier("10.1/x", "DOI").to_string(), "Identifier { value: 10.1/x, type: DOI }");
}

#[test]
fn doi_identifier_to_string() {
    let both = DoiIdentifier { doi: Some(String::from("10.1/x")), oai: Some(String::from("oai:1")) };
    assert_eq!(both.to_string(), "DoiIdentifier { doi: 10.1/x, oai: oai:1 }");
    let neither = DoiIdentifier { doi: None, oai: None };
    assert_eq!(neither.to_string(), "DoiIdentifier { doi: None, oai: None }");
}

#[test]
fn identifier_entry_to_string() {
    let none = IdentifierEntry::IdentifierWork(vec![]);
    assert_eq!(none.to_string(), "IdentifierWork: []");
    let one = IdentifierEntry::IdentifierWork(vec![identifier("a", "DOI")]);
    assert_eq!(one.to_string(), "IdentifierWork: [Identifier { value: a, type: DOI }]");
    let two = IdentifierEntry::IdentifierWork(vec![identifier("a", "DOI"), identifier("b", "OAI")]);
    assert_eq!(
        two.to_string(),
        "IdentifierWork: [Identifier { value: a, type: DOI }, Identifier { value: b, type: OAI }]"
    );
    let pair = IdentifierEntry::IdentifierOuputs(DoiIdentifier {
        doi: Some(String::from("d")),
        oai: None,
    });
    assert_eq!(pair.to_string(), "IdentifierOuputs: DoiIdentifier { doi: d, oai: None }");
}

#[test]
fn identifier_entry_default_is_an_empty_list() {
    assert_eq!(IdentifierEntry::default(), IdentifierEntry::IdentifierWork(vec![]));
}

#[test]
fn link_to_string() {
    let link = Link { link_type: String::from("download"), url: String::from("https://x/y") };
    assert_eq!(link.to_string(), "Link { type: download, url: https://x/y }");
    assert_eq!(
        LinkType::Structured(link).to_string(),
        "Structured Link: Link { type: download, url: https://x/y }"
    );
    assert_eq!(LinkType::Raw(String::from("https://x")).to_string(), "Raw Link: https://x");
}

#[test]
fn link_type_default_is_an_empty_address() {
    assert_eq!(LinkType::default(), LinkType::Raw(String::new()));
}
