//! Reference-and-lifetime walkthrough: small functions whose point is how
//! borrows flow through signatures. Each returns its result so the caller can
//! print it.

use vstd::prelude::*;
use vstd::string::*;
use vstd::utf8::is_ascii_chars;

verus! {

/// Returns the one slice it was given, unchanged: with a single input
/// reference, lifetime elision ties the output to it.
pub fn single_str(s: &str) -> (r: &str)
    ensures
        r@ == s@,
{
    s
}

/// Of two slices under one lifetime, returns the one with the greater byte
/// length, preferring the second on a tie.
pub fn combine<'a>(x: &'a str, y: &'a str) -> (r: &'a str)
    ensures
        x.spec_bytes().len() > y.spec_bytes().len() ==> r@ == x@,
        x.spec_bytes().len() <= y.spec_bytes().len() ==> r@ == y@,
{
    if x.as_bytes().len() > y.as_bytes().len() {
        x
    } else {
        y
    }
}

/// The byte length of an ASCII slice is its character length.
proof fn lemma_ascii_byte_len(s: &str)
    requires
        is_ascii_chars(s@),
    ensures
        s.spec_bytes().len() == s@.len(),
{
    broadcast use vstd::string::is_ascii_spec_bytes;

    assert(is_ascii(s));
}

/// Runs the elision and two-reference examples on the fixed demo strings and
/// returns what each produced: the single slice passed through, and the longer
/// of the two combined slices.
pub fn get_combined_str() -> (r: (String, String))
    ensures
        r.0@ == "Your Rust code "@,
        r.1@ == "=== awesome!"@,
{
    let string1: &str = "Rust";
    let string2: &str = "=== awesome!";
    let string3: &str = "Your Rust code ";

    let single = single_str(string3);
    let combined = combine(string1, string2);
    proof {
        reveal_strlit("Rust");
        reveal_strlit("=== awesome!");
        assert(is_ascii_chars(string1@));
        assert(is_ascii_chars(string2@));
        lemma_ascii_byte_len(string1);
        lemma_ascii_byte_len(string2);
    }
    (String::from_str(single), String::from_str(combined))
}

/// A document whose content is borrowed while its author is owned: the
/// struct's lifetime is tied to the borrowed slice alone.
pub struct Document<'a> {
    pub content: &'a str,
    pub author: String,
}

impl<'a> Document<'a> {
    /// Builds a document over the given borrowed content and owned author.
    pub fn new(content: &'a str, author: String) -> (d: Self)
        ensures
            d.content@ == content@,
            d.author@ == author@,
    {
        Document { content, author }
    }

    /// The line the demo prints for this document, naming content and author.
    pub fn display_line(&self) -> (r: String)
        ensures
            r@ == "This document '"@ + self.content@ + "' was created by "@ + self.author@,
    {
        let mut line = String::from_str("This document '");
        line.append(self.content);
        line.append("' was created by ");
        line.append(self.author.as_str());
        line
    }
}

/// Extraction hands back the borrowed content under the trait's lifetime, so
/// the slice outlives the value it was extracted from.
pub trait Extract<'a> {
    fn extract_content(&self) -> &'a str;
}

impl<'a> Extract<'a> for Document<'a> {
    fn extract_content(&self) -> (r: &'a str)
        ensures
            r@ == self.content@,
    {
        self.content
    }
}

/// Builds the fixed demo document and returns it for display.
pub fn create_document() -> (d: Document<'static>)
    ensures
        d.content@ == "Rust lifetimes workshop"@,
        d.author@ == "Laura Sobola"@,
{
    let author = String::from_str("Laura Sobola");
    Document::new("Rust lifetimes workshop", author)
}

/// Builds the fixed demo document and extracts its content through the trait.
pub fn get_document_extract() -> (r: &'static str)
    ensures
        r@ == "Important Rust document"@,
{
    let doc = Document { content: "Important Rust document", author: String::from_str("Laura Sobola") };
    doc.extract_content()
}

/// Wraps one borrowed slice; combining with another borrow demands the
/// explicit bound that the other outlives the wrapper's own lifetime.
pub struct Wrapper<'a> {
    pub data: &'a str,
}

impl<'a> Wrapper<'a> {
    /// Wraps the given slice.
    pub fn new(data: &'a str) -> (w: Self)
        ensures
            w.data@ == data@,
    {
        Wrapper { data }
    }

    /// Returns the wrapped slice or the other one, whichever has the greater
    /// byte length, preferring the other on a tie.
    pub fn combine<'b>(&self, other: &'b str) -> (r: &'a str) where 'b: 'a
        ensures
            self.data.spec_bytes().len() > other.spec_bytes().len() ==> r@ == self.data@,
            self.data.spec_bytes().len() <= other.spec_bytes().len() ==> r@ == other@,
    {
        if self.data.as_bytes().len() > other.as_bytes().len() {
            self.data
        } else {
            other
        }
    }
}

/// Runs the wrapper example on the fixed demo strings: of "hello" and
/// "world", equal in length, the combination prefers the second.
pub fn wrap_data() -> (r: &'static str)
    ensures
        r@ == "world"@,
{
    let string1: &str = "hello";
    let string2: &str = "world";
    let wrapper = Wrapper::new(string1);
    let result = wrapper.combine(string2);
    proof {
        reveal_strlit("hello");
        reveal_strlit("world");
        assert(is_ascii_chars(string1@));
        assert(is_ascii_chars(string2@));
        lemma_ascii_byte_len(string1);
        lemma_ascii_byte_len(string2);
    }
    result
}

} // verus!
