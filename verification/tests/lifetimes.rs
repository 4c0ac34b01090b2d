use workshop::lifetimes::{
    combine, create_document, get_combined_str, get_document_extract, single_str, wrap_data,
    Document, Extract, Wrapper,
};

#[test]
fn single_str_returns_its_input() {
    let s = String::from("Your Rust code ");
    assert_eq!(single_str(&s), "Your Rust code ");
}

#[test]
fn combine_picks_the_longer_slice() {
    assert_eq!(combine("Rust", "=== awesome!"), "=== awesome!");
    assert_eq!(combine("a longer string", "short"), "a longer string");
}

#[test]
fn combine_prefers_the_second_on_a_tie() {
    assert_eq!(combine("hello", "world"), "world");
}

#[test]
fn combined_str_demo_values() {
    let (single, combined) = get_combined_str();
    assert_eq!(single, "Your Rust code ");
    assert_eq!(combined, "=== awesome!");
}

#[test]
fn document_keeps_content_and_author() {
    let author = String::from("Laura Sobola");
    let doc = Document::new("Rust lifetimes workshop", author);
    assert_eq!(doc.content, "Rust lifetimes workshop");
    assert_eq!(doc.author, "Laura Sobola");
}

#[test]
fn document_display_line() {
    let doc = Document::new("Rust lifetimes workshop", String::from("Laura Sobola"));
    assert_eq!(
        doc.display_line(),
        "This document 'Rust lifetimes workshop' was created by Laura Sobola"
    );
}

#[test]
fn created_document_demo_values() {
    let doc = create_document();
    assert_eq!(doc.content, "Rust lifetimes workshop");
    assert_eq!(doc.author, "Laura Sobola");
}

#[test]
fn extracted_content_outlives_the_document() {
    let doc = Document::new("Important Rust document", String::from("Laura Sobola"));
    let content = doc.extract_content();
    drop(doc);
    assert_eq!(content, "Important Rust document");
}

#[test]
fn document_extract_demo_value() {
    assert_eq!(get_document_extract(), "Important Rust document");
}

#[test]
fn wrapper_combines_by_length() {
    let wrapper = Wrapper::new("a longer string");
    assert_eq!(wrapper.data, "a longer string");
    assert_eq!(wrapper.combine("short"), "a longer string");
    let other = Wrapper::new("short");
    assert_eq!(other.combine("a longer string"), "a longer string");
}

#[test]
fn wrap_data_demo_value() {
    assert_eq!(wrap_data(), "world");
}
