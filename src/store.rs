use vstd::prelude::*;

use crate::error::ServerError;
use crate::section::{section_of_text, text_of, WebsiteSection};
use crate::website::{created, has_transfer_protocol, Website, WebsiteView};

verus! {

/// A parameterised SQL statement: the text, and the values bound to its
/// placeholders in order.
pub struct Statement {
    pub sql: String,
    pub params: Vec<String>,
}

/// The texts of the bound values of a statement.
pub open spec fn params_view(st: &Statement) -> Seq<Seq<char>> {
    st.params@.map_values(|p: String| p@)
}

pub open spec fn select_sql() -> Seq<char> {
    "SELECT website_name, website_link, section FROM websites WHERE section = ?"@
}

pub open spec fn upsert_sql() -> Seq<char> {
    "INSERT INTO websites(website_name, website_link, section) VALUES(?, ?, ?) ON DUPLICATE KEY UPDATE website_link=?, section=?"@
}

pub open spec fn delete_sql() -> Seq<char> {
    "DELETE FROM websites WHERE website_name = ?"@
}

/// The statement that reads every website of one section.
pub fn select_statement(section: WebsiteSection) -> (r: Statement)
    ensures
        r.sql@ == select_sql(),
        params_view(&r) == seq![text_of(section)],
{
    let sql = String::from_str(
        "SELECT website_name, website_link, section FROM websites WHERE section = ?",
    );
    let params = vec![section.to_text()];
    let r = Statement { sql, params };
    assert(params_view(&r) =~= seq![text_of(section)]);
    r
}

/// The single statement that inserts a website, or overwrites the link and
/// section of the row with the same name.
pub fn upsert_statement(website: &Website) -> (r: Statement)
    ensures
        r.sql@ == upsert_sql(),
        params_view(&r) == seq![
            website@.name,
            website@.link,
            text_of(website@.section),
            website@.link,
            text_of(website@.section),
        ],
{
    let sql = String::from_str(
        "INSERT INTO websites(website_name, website_link, section) VALUES(?, ?, ?) ON DUPLICATE KEY UPDATE website_link=?, section=?",
    );
    let name = website.name().to_owned();
    let link = website.link().to_owned();
    let section = website.section().to_text();
    let params = vec![name, link.clone(), section.clone(), link, section];
    let r = Statement { sql, params };
    assert(params_view(&r) =~= seq![
        website@.name,
        website@.link,
        text_of(website@.section),
        website@.link,
        text_of(website@.section),
    ]);
    r
}

/// The statement that deletes the website with the given name.
pub fn delete_statement(name: &str) -> (r: Statement)
    ensures
        r.sql@ == delete_sql(),
        params_view(&r) == seq![name@],
{
    let sql = String::from_str("DELETE FROM websites WHERE website_name = ?");
    let params = vec![name.to_owned()];
    let r = Statement { sql, params };
    assert(params_view(&r) =~= seq![name@]);
    r
}

/// One row as the store returns it: name, link and section text.
pub struct WebsiteRow {
    pub website_name: String,
    pub website_link: String,
    pub section: String,
}

/// The website that a row read for `section` stands for, if the row is well formed:
/// its section text is the canonical text of `section` and its link has no
/// transfer protocol.
pub open spec fn row_website(row: WebsiteRow, section: WebsiteSection) -> Option<WebsiteView> {
    if section_of_text(row.section@) == Some(section) && !has_transfer_protocol(row.website_link@) {
        Some(WebsiteView { name: row.website_name@, link: row.website_link@, section })
    } else {
        None
    }
}

/// Tells whether every row read for `section` is well formed.
pub open spec fn rows_well_formed(rows: Seq<WebsiteRow>, section: WebsiteSection) -> bool {
    forall|i: int| 0 <= i < rows.len() ==> (#[trigger] row_website(rows[i], section)) is Some
}

/// The websites that well-formed rows stand for, in the order read.
pub open spec fn rows_websites(rows: Seq<WebsiteRow>, section: WebsiteSection) -> Seq<WebsiteView> {
    rows.map_values(|row: WebsiteRow| row_website(row, section)->0)
}

/// The views of a sequence of websites.
pub open spec fn websites_view(ws: Seq<Website>) -> Seq<WebsiteView> {
    ws.map_values(|w: Website| w@)
}

/// Turns what the store answered to `select_statement(section)` into the
/// section's websites.
///
/// A store failure, or a row that is not well formed, gives `RetrievalFailed`
/// for that section; an empty answer is an empty list.
pub fn retrieval_outcome(section: WebsiteSection, fetched: Result<Vec<WebsiteRow>, String>) -> (r:
    Result<Vec<Website>, ServerError>)
    ensures
        match fetched {
            Err(cause) => r == Err::<Vec<Website>, ServerError>(
                ServerError::RetrievalFailed { section, cause },
            ),
            Ok(rows) => if rows_well_formed(rows@, section) {
                r matches Ok(ws) && websites_view(ws@) == rows_websites(rows@, section)
            } else {
                r matches Err(ServerError::RetrievalFailed { section: s, .. }) && s == section
            },
        },
{
    match fetched {
        Err(cause) => Err(ServerError::RetrievalFailed { section, cause }),
        Ok(rows) => {
            let mut out: Vec<Website> = Vec::new();
            let mut i: usize = 0;
            while i < rows.len()
                invariant
                    fetched == Ok::<Vec<WebsiteRow>, String>(rows),
                    i <= rows@.len(),
                    forall|j: int| 0 <= j < i ==> (#[trigger] row_website(rows@[j], section)) is Some,
                    websites_view(out@) == rows_websites(rows@.subrange(0, i as int), section),
                decreases rows@.len() - i,
            {
                let row = &rows[i];
                let in_section = match WebsiteSection::parse(row.section.as_str()) {
                    Ok(s) => s == section,
                    Err(_) => false,
                };
                if !in_section {
                    assert(row_website(rows@[i as int], section) is None);
                    return Err(
                        ServerError::RetrievalFailed {
                            section,
                            cause: String::from_str("stored row has an unexpected section"),
                        },
                    );
                }
                match Website::new(row.website_name.clone(), row.website_link.clone(), section) {
                    Ok(w) => {
                        assert(w@ == row_website(rows@[i as int], section)->0);
                        let ghost before = out@;
                        out.push(w);
                        assert(websites_view(out@) =~= websites_view(before).push(w@));
                    },
                    Err(_) => {
                        assert(row_website(rows@[i as int], section) is None);
                        return Err(
                            ServerError::RetrievalFailed {
                                section,
                                cause: String::from_str("stored link has a transfer protocol"),
                            },
                        );
                    },
                }
                assert(rows@.subrange(0, i + 1) == rows@.subrange(0, i as int).push(rows@[i as int]));
                assert(rows_websites(rows@.subrange(0, i + 1), section) =~= rows_websites(
                    rows@.subrange(0, i as int),
                    section,
                ).push(row_website(rows@[i as int], section)->0));
                i = i + 1;
            }
            assert(rows@.subrange(0, i as int) == rows@);
            Ok(out)
        },
    }
}

/// Turns what the store answered to an upsert statement into the outcome.
pub fn insert_outcome(executed: Result<u64, String>) -> (r: Result<(), ServerError>)
    ensures
        match executed {
            Ok(_) => r is Ok,
            Err(cause) => r == Err::<(), ServerError>(ServerError::InsertFailed { cause }),
        },
{
    match executed {
        Ok(_) => Ok(()),
        Err(cause) => Err(ServerError::InsertFailed { cause }),
    }
}

/// Turns what the store answered to a delete statement into the outcome: a
/// store failure is `DeleteFailed`, and no affected row is `NotFound`.
pub fn delete_outcome(executed: Result<u64, String>) -> (r: Result<(), ServerError>)
    ensures
        match executed {
            Ok(n) => if n == 0 {
                r == Err::<(), ServerError>(ServerError::NotFound)
            } else {
                r is Ok
            },
            Err(cause) => r == Err::<(), ServerError>(ServerError::DeleteFailed { cause }),
        },
{
    match executed {
        Ok(n) => if n == 0 {
            Err(ServerError::NotFound)
        } else {
            Ok(())
        },
        Err(cause) => Err(ServerError::DeleteFailed { cause }),
    }
}

} // verus!
