use vstd::prelude::*;

use crate::error::ServerError;
use crate::text::text_eq;

verus! {

/// The section used to determine where a website is placed on the page.
#[derive(Debug, Clone, Copy, PartialEq, Eq, Structural, Hash, PartialOrd, Ord)]
pub enum WebsiteSection {
    Code,
    Fun,
    Editing,
}

/// The canonical lowercase text of a section, used in storage and in form input.
pub open spec fn text_of(s: WebsiteSection) -> Seq<char> {
    match s {
        WebsiteSection::Code => "code"@,
        WebsiteSection::Fun => "fun"@,
        WebsiteSection::Editing => "editing"@,
    }
}

/// The capitalised name of a section, used when a section is shown or sent as JSON.
pub open spec fn display_of(s: WebsiteSection) -> Seq<char> {
    match s {
        WebsiteSection::Code => "Code"@,
        WebsiteSection::Fun => "Fun"@,
        WebsiteSection::Editing => "Editing"@,
    }
}

/// The section whose canonical text is exactly `t`, if any.
pub open spec fn section_of_text(t: Seq<char>) -> Option<WebsiteSection> {
    if t == "code"@ {
        Some(WebsiteSection::Code)
    } else if t == "fun"@ {
        Some(WebsiteSection::Fun)
    } else if t == "editing"@ {
        Some(WebsiteSection::Editing)
    } else {
        None
    }
}

/// Every section, in the fixed order used for iteration.
pub open spec fn all_sections() -> Seq<WebsiteSection> {
    seq![WebsiteSection::Code, WebsiteSection::Fun, WebsiteSection::Editing]
}

/// Parsing the text of a section gives that section back, and text that is
/// not the canonical text of any section is refused.
pub proof fn lemma_text_round_trip(s: WebsiteSection, t: Seq<char>)
    ensures
        section_of_text(text_of(s)) == Some(s),
        (forall|x: WebsiteSection| text_of(x) != t) ==> section_of_text(t) is None,
        section_of_text(t) is Some <==> exists|x: WebsiteSection| text_of(x) == t,
{
    reveal_strlit("code");
    reveal_strlit("fun");
    reveal_strlit("editing");
    assert("code"@.len() == 4 && "fun"@.len() == 3 && "editing"@.len() == 7);
    if let Some(x) = section_of_text(t) {
        assert(text_of(x) == t);
    }
}

/// Every section occurs exactly once in the fixed order.
pub proof fn lemma_all_sections_complete(s: WebsiteSection)
    ensures
        all_sections().contains(s),
        all_sections().len() == 3,
        all_sections().no_duplicates(),
{
    match s {
        WebsiteSection::Code => assert(all_sections()[0] == s),
        WebsiteSection::Fun => assert(all_sections()[1] == s),
        WebsiteSection::Editing => assert(all_sections()[2] == s),
    }
}

impl WebsiteSection {
    /// Every section in the fixed order Code, Fun, Editing.
    pub fn all() -> (r: Vec<WebsiteSection>)
        ensures
            r@ == all_sections(),
    {
        let r = vec![WebsiteSection::Code, WebsiteSection::Fun, WebsiteSection::Editing];
        assert(r@ == all_sections());
        r
    }

    /// Reads a section from its exact lowercase text, without trimming or case folding.
    pub fn parse(t: &str) -> (r: Result<WebsiteSection, ServerError>)
        ensures
            r == match section_of_text(t@) {
                Some(s) => Ok::<WebsiteSection, ServerError>(s),
                None => Err(ServerError::InvalidSection),
            },
    {
        if text_eq(t, "code") {
            Ok(WebsiteSection::Code)
        } else if text_eq(t, "fun") {
            Ok(WebsiteSection::Fun)
        } else if text_eq(t, "editing") {
            Ok(WebsiteSection::Editing)
        } else {
            Err(ServerError::InvalidSection)
        }
    }

    /// The canonical lowercase text of the section.
    pub fn to_text(&self) -> (r: String)
        ensures
            r@ == text_of(*self),
    {
        match self {
            WebsiteSection::Code => String::from_str("code"),
            WebsiteSection::Fun => String::from_str("fun"),
            WebsiteSection::Editing => String::from_str("editing"),
        }
    }

    /// The capitalised name of the section.
    pub fn to_string(&self) -> (r: String)
        ensures
            r@ == display_of(*self),
    {
        match self {
            WebsiteSection::Code => String::from_str("Code"),
            WebsiteSection::Fun => String::from_str("Fun"),
            WebsiteSection::Editing => String::from_str("Editing"),
        }
    }
}

} // verus!
