use vstd::prelude::*;

use crate::error::ServerError;
use crate::section::{section_of_text, WebsiteSection};
use crate::text::starts_with;

verus! {

/// What a website holds, as plain values.
pub struct WebsiteView {
    pub name: Seq<char>,
    pub link: Seq<char>,
    pub section: WebsiteSection,
}

/// A link names a host and path only: it must not start with a transfer protocol.
pub open spec fn has_transfer_protocol(link: Seq<char>) -> bool {
    "http://"@.is_prefix_of(link) || "https://"@.is_prefix_of(link)
}

/// The favicon address of a link: the link placed literally into the icon service's path.
pub open spec fn icon_link_of(link: Seq<char>) -> Seq<char> {
    "https://icons.duckduckgo.com/ip3/"@ + link + ".ico"@
}

/// What creating a website from `name`, `link` and `section` gives.
pub open spec fn created(name: Seq<char>, link: Seq<char>, section: WebsiteSection) -> Result<
    WebsiteView,
    ServerError,
> {
    if has_transfer_protocol(link) {
        Err(ServerError::LinkHasTransferProtocol)
    } else {
        Ok(WebsiteView { name, link, section })
    }
}

/// A bookmark: a name, a link without transfer protocol, and a section.
#[derive(Debug)]
pub struct Website {
    website_name: String,
    website_link: String,
    section: WebsiteSection,
}

impl View for Website {
    type V = WebsiteView;

    closed spec fn view(&self) -> WebsiteView {
        WebsiteView {
            name: self.website_name@,
            link: self.website_link@,
            section: self.section,
        }
    }
}

/// The view of a result that holds a website.
pub open spec fn result_view(r: Result<Website, ServerError>) -> Result<WebsiteView, ServerError> {
    match r {
        Ok(w) => Ok(w@),
        Err(e) => Err(e),
    }
}

impl Website {
    #[verifier::type_invariant]
    closed spec fn inv(self) -> bool {
        !has_transfer_protocol(self.website_link@)
    }

    /// Creates a website from a name, a link and a section.
    ///
    /// Fails with `LinkHasTransferProtocol` when the link starts with `http://`
    /// or `https://`; nothing else is checked.
    pub fn new(website_name: String, website_link: String, section: WebsiteSection) -> (r: Result<
        Website,
        ServerError,
    >)
        ensures
            result_view(r) == created(website_name@, website_link@, section),
    {
        match Self::validate_link(website_link) {
            Ok(website_link) => Ok(Website { website_name, website_link, section }),
            Err(e) => Err(e),
        }
    }

    /// Hands the link back when it does not start with a transfer protocol.
    pub fn validate_link(website_link: String) -> (r: Result<String, ServerError>)
        ensures
            has_transfer_protocol(website_link@) ==> r matches Err(
                ServerError::LinkHasTransferProtocol,
            ),
            !has_transfer_protocol(website_link@) ==> (r matches Ok(l) && l@ == website_link@),
    {
        let protocol_specified = starts_with(website_link.as_str(), "https://") || starts_with(
            website_link.as_str(),
            "http://",
        );
        if protocol_specified {
            Err(ServerError::LinkHasTransferProtocol)
        } else {
            Ok(website_link)
        }
    }

    /// The website's name.
    pub fn name(&self) -> (r: &str)
        ensures
            r@ == self@.name,
    {
        self.website_name.as_str()
    }

    /// The website's link.
    pub fn link(&self) -> (r: &str)
        ensures
            r@ == self@.link,
            !has_transfer_protocol(r@),
    {
        proof {
            use_type_invariant(self);
        }
        self.website_link.as_str()
    }

    /// The favicon address of the website's link.
    pub fn icon_link(&self) -> (r: String)
        ensures
            r@ == icon_link_of(self@.link),
    {
        let mut r = String::from_str("https://icons.duckduckgo.com/ip3/");
        r.append(self.website_link.as_str());
        r.append(".ico");
        r
    }

    /// The website's section.
    pub fn section(&self) -> (r: &WebsiteSection)
        ensures
            *r == self@.section,
    {
        &self.section
    }

    /// Builds a website from the fields of a submitted form: the section text is
    /// read first, then the link is checked.
    pub fn from_form(form: WebsiteForm) -> (r: Result<Website, ServerError>)
        ensures
            result_view(r) == match section_of_text(form@.section) {
                None => Err(ServerError::InvalidSection),
                Some(s) => created(form@.website_name, form@.website_link, s),
            },
    {
        let WebsiteForm { website_name, website_link, section } = form;
        match WebsiteSection::parse(section.as_str()) {
            Ok(s) => Self::new(website_name, website_link, s),
            Err(e) => Err(e),
        }
    }
}

impl Clone for Website {
    fn clone(&self) -> (r: Self)
        ensures
            r@ == self@,
    {
        proof {
            use_type_invariant(self);
        }
        Website {
            website_name: self.website_name.clone(),
            website_link: self.website_link.clone(),
            section: self.section,
        }
    }
}

impl PartialEq for Website {
    fn eq(&self, o: &Website) -> (r: bool) {
        self.website_name == o.website_name && self.website_link == o.website_link && self.section
            == o.section
    }
}

impl vstd::std_specs::cmp::PartialEqSpecImpl for Website {
    open spec fn obeys_eq_spec() -> bool {
        true
    }

    open spec fn eq_spec(&self, o: &Website) -> bool {
        self@ == o@
    }
}

impl Eq for Website {

}

/// The fields of a website as submitted in a form, before validation.
#[derive(Debug, Clone)]
pub struct WebsiteForm {
    pub website_name: String,
    pub website_link: String,
    pub section: String,
}

/// The submitted fields as plain text.
pub struct WebsiteFormView {
    pub website_name: Seq<char>,
    pub website_link: Seq<char>,
    pub section: Seq<char>,
}

impl View for WebsiteForm {
    type V = WebsiteFormView;

    open spec fn view(&self) -> WebsiteFormView {
        WebsiteFormView {
            website_name: self.website_name@,
            website_link: self.website_link@,
            section: self.section@,
        }
    }
}

impl WebsiteForm {
    pub fn new(website_name: String, website_link: String, section: String) -> (r: WebsiteForm)
        ensures
            r@ == (WebsiteFormView {
                website_name: website_name@,
                website_link: website_link@,
                section: section@,
            }),
    {
        WebsiteForm { website_name, website_link, section }
    }
}

} // verus!
