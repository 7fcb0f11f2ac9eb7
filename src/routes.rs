use vstd::prelude::*;

use crate::error::{status_of, ServerError};
use crate::section::{section_of_text, text_of, WebsiteSection};
use crate::store::{params_view, upsert_sql, upsert_statement, Statement};
use crate::website::{created, Website, WebsiteForm};

verus! {

/// The operations that the REST boundary offers.
#[derive(Debug, Clone, Copy, PartialEq, Eq, Structural)]
pub enum Endpoint {
    /// `GET /websites`: the websites of every section.
    GetAll,
    /// `GET /websites/coding`, `/websites/fun`, `/websites/editing`: one section.
    GetSection(WebsiteSection),
    /// `PUT /websites`: insert or update one website from a form.
    Upsert,
    /// `DELETE /websites/{name}`: delete one website by name.
    Delete,
}

/// The status that answers a successful request to an endpoint.
pub open spec fn success_status_of(e: Endpoint) -> u16 {
    match e {
        Endpoint::Upsert => 201,
        _ => 200,
    }
}

impl Endpoint {
    /// 201 for a created or updated website, 200 for every other success.
    pub fn success_status(&self) -> (r: u16)
        ensures
            r == success_status_of(*self),
    {
        match self {
            Endpoint::Upsert => 201,
            _ => 200,
        }
    }

    /// The status that answers a request to this endpoint which ended in `outcome`.
    pub fn status_for<T>(&self, outcome: &Result<T, ServerError>) -> (r: u16)
        ensures
            match outcome {
                Ok(_) => r == success_status_of(*self),
                Err(e) => r == status_of(*e),
            },
    {
        match outcome {
            Ok(_) => self.success_status(),
            Err(e) => e.status_code(),
        }
    }
}

/// Validates a submitted form and, when it is valid, gives the one statement
/// that stores it. A form that is not valid gives its error before any
/// statement is made.
pub fn upsert_request(form: WebsiteForm) -> (r: Result<Statement, ServerError>)
    ensures
        match section_of_text(form@.section) {
            None => r == Err::<Statement, ServerError>(ServerError::InvalidSection),
            Some(s) => match created(form@.website_name, form@.website_link, s) {
                Err(e) => r == Err::<Statement, ServerError>(e),
                Ok(w) => r matches Ok(st) && st.sql@ == upsert_sql() && params_view(&st) == seq![
                    w.name,
                    w.link,
                    text_of(s),
                    w.link,
                    text_of(s),
                ],
            },
        },
{
    match Website::from_form(form) {
        Ok(website) => Ok(upsert_statement(&website)),
        Err(e) => Err(e),
    }
}

} // verus!
