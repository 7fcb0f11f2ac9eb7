use vstd::prelude::*;

use crate::error::ServerError;
use crate::section::{all_sections, WebsiteSection};
use crate::store::websites_view;
use crate::website::{Website, WebsiteView};

verus! {

/// The websites of every section, one list per section; a section without
/// websites has an empty list, never a missing entry.
pub struct SectionMap {
    code: Vec<Website>,
    fun: Vec<Website>,
    editing: Vec<Website>,
}

impl View for SectionMap {
    type V = Map<WebsiteSection, Seq<WebsiteView>>;

    closed spec fn view(&self) -> Map<WebsiteSection, Seq<WebsiteView>> {
        Map::new(
            |s: WebsiteSection| true,
            |s: WebsiteSection|
                match s {
                    WebsiteSection::Code => websites_view(self.code@),
                    WebsiteSection::Fun => websites_view(self.fun@),
                    WebsiteSection::Editing => websites_view(self.editing@),
                },
        )
    }
}

/// The map holds a key for each of the three sections and for nothing else.
pub proof fn lemma_every_section_keyed(m: SectionMap)
    ensures
        m@.dom() == set![WebsiteSection::Code, WebsiteSection::Fun, WebsiteSection::Editing],
{
    assert(m@.dom() =~= set![WebsiteSection::Code, WebsiteSection::Fun, WebsiteSection::Editing]);
}

/// What assembling the three per-section reads gives: the first failure in the
/// fixed section order, or the map of all three lists.
pub open spec fn assembled(
    code: Result<Vec<Website>, ServerError>,
    fun: Result<Vec<Website>, ServerError>,
    editing: Result<Vec<Website>, ServerError>,
    r: Result<SectionMap, ServerError>,
) -> bool {
    match (code, fun, editing) {
        (Err(e), _, _) => r == Err::<SectionMap, ServerError>(e),
        (Ok(_), Err(e), _) => r == Err::<SectionMap, ServerError>(e),
        (Ok(_), Ok(_), Err(e)) => r == Err::<SectionMap, ServerError>(e),
        (Ok(c), Ok(f), Ok(e)) => r matches Ok(m) && m@[WebsiteSection::Code] == websites_view(c@)
            && m@[WebsiteSection::Fun] == websites_view(f@) && m@[WebsiteSection::Editing]
            == websites_view(e@),
    }
}

impl SectionMap {
    /// Assembles the reads of the three sections, in the order Code, Fun,
    /// Editing; any failure fails the whole, with that section's error.
    pub fn assemble_all(
        code: Result<Vec<Website>, ServerError>,
        fun: Result<Vec<Website>, ServerError>,
        editing: Result<Vec<Website>, ServerError>,
    ) -> (r: Result<SectionMap, ServerError>)
        ensures
            assembled(code, fun, editing, r),
    {
        let code = match code {
            Ok(c) => c,
            Err(e) => return Err(e),
        };
        let fun = match fun {
            Ok(f) => f,
            Err(e) => return Err(e),
        };
        let editing = match editing {
            Ok(e) => e,
            Err(e) => return Err(e),
        };
        Ok(SectionMap { code, fun, editing })
    }

    /// The websites of one section.
    pub fn get(&self, section: WebsiteSection) -> (r: &Vec<Website>)
        ensures
            websites_view(r@) == self@[section],
    {
        match section {
            WebsiteSection::Code => &self.code,
            WebsiteSection::Fun => &self.fun,
            WebsiteSection::Editing => &self.editing,
        }
    }

    /// The sections with their websites, in the fixed section order.
    pub fn into_entries(self) -> (r: Vec<(WebsiteSection, Vec<Website>)>)
        ensures
            r@.len() == 3,
            forall|i: int|
                0 <= i < 3 ==> (#[trigger] r@[i]).0 == all_sections()[i] && websites_view(
                    r@[i].1@,
                ) == self@[all_sections()[i]],
    {
        let SectionMap { code, fun, editing } = self;
        let r = vec![
            (WebsiteSection::Code, code),
            (WebsiteSection::Fun, fun),
            (WebsiteSection::Editing, editing),
        ];
        assert(r@[0].0 == all_sections()[0]);
        assert(r@[1].0 == all_sections()[1]);
        assert(r@[2].0 == all_sections()[2]);
        r
    }
}

} // verus!
