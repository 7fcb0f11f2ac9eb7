use vstd::prelude::*;

use crate::catalog::{assembled, SectionMap};
use crate::error::ServerError;
use crate::section::WebsiteSection;
use crate::store::websites_view;
use crate::text::text_eq;
use crate::website::{Website, WebsiteView};

verus! {

/// The contents of a store: each stored name mapped to its website.
pub type StoreModel = Map<Seq<char>, WebsiteView>;

/// The contents after upserting `w`: the row named `w.name` is `w`, whether it
/// was there before or not; every other row stays.
pub open spec fn upserted(m: StoreModel, w: WebsiteView) -> StoreModel {
    m.insert(w.name, w)
}

/// The contents after upserting each website of `ws` in turn, starting from `m`.
pub open spec fn upserted_all(m: StoreModel, ws: Seq<WebsiteView>) -> StoreModel
    decreases ws.len(),
{
    if ws.len() == 0 {
        m
    } else {
        upserted(upserted_all(m, ws.drop_last()), ws.last())
    }
}

/// `ws` lists exactly the stored websites of section `s`, each once, in some order.
pub open spec fn lists_section(ws: Seq<WebsiteView>, m: StoreModel, s: WebsiteSection) -> bool {
    &&& forall|i: int|
        0 <= i < ws.len() ==> m.contains_key(#[trigger] ws[i].name) && m[ws[i].name] == ws[i]
            && ws[i].section == s
    &&& forall|k: Seq<char>|
        #[trigger] m.contains_key(k) && m[k].section == s ==> exists|i: int|
            0 <= i < ws.len() && ws[i].name == k
    &&& forall|i: int, j: int| 0 <= i < j < ws.len() ==> ws[i].name != ws[j].name
}

/// A store held in memory, with the same operations and outcomes as the
/// relational store; for wiring where no database is available.
pub struct MemoryStore {
    rows: Vec<Website>,
    model: Ghost<StoreModel>,
}

impl View for MemoryStore {
    type V = StoreModel;

    closed spec fn view(&self) -> StoreModel {
        self.model@
    }
}

impl MemoryStore {
    /// The rows hold each stored name once, and agree with the contents.
    pub closed spec fn wf(&self) -> bool {
        &&& forall|i: int|
            0 <= i < self.rows@.len() ==> self.model@.contains_key(#[trigger] self.rows@[i]@.name)
                && self.model@[self.rows@[i]@.name] == self.rows@[i]@
        &&& forall|i: int, j: int|
            0 <= i < j < self.rows@.len() ==> self.rows@[i]@.name != self.rows@[j]@.name
        &&& forall|k: Seq<char>|
            #[trigger] self.model@.contains_key(k) ==> exists|i: int|
                0 <= i < self.rows@.len() && self.rows@[i]@.name == k
    }

    /// An empty store.
    pub fn new() -> (r: MemoryStore)
        ensures
            r.wf(),
            r@ == Map::<Seq<char>, WebsiteView>::empty(),
    {
        MemoryStore { rows: Vec::new(), model: Ghost(Map::empty()) }
    }

    /// The position of the row with the given name, if there is one.
    fn position(&self, name: &str) -> (r: Option<usize>)
        requires
            self.wf(),
        ensures
            match r {
                Some(i) => i < self.rows@.len() && self.rows@[i as int]@.name == name@,
                None => !self@.contains_key(name@),
            },
    {
        let mut i: usize = 0;
        while i < self.rows.len()
            invariant
                self.wf(),
                i <= self.rows@.len(),
                forall|j: int| 0 <= j < i ==> self.rows@[j]@.name != name@,
            decreases self.rows@.len() - i,
        {
            if text_eq(self.rows[i].name(), name) {
                return Some(i);
            }
            i = i + 1;
        }
        None
    }

    /// Inserts the website, or overwrites the row with the same name.
    pub fn upsert(&mut self, website: Website) -> (r: Result<(), ServerError>)
        requires
            old(self).wf(),
        ensures
            final(self).wf(),
            r is Ok,
            final(self)@ == upserted(old(self)@, website@),
    {
        let ghost w = website@;
        let ghost before = self.rows@;
        match self.position(website.name()) {
            Some(i) => {
                self.rows.set(i, website);
                proof {
                    self.model@ = self.model@.insert(w.name, w);
                    assert forall|k: Seq<char>| #[trigger] self.model@.contains_key(k) implies exists|
                        j: int,
                    | 0 <= j < self.rows@.len() && self.rows@[j]@.name == k by {
                        if k != w.name {
                            let j = choose|j: int| 0 <= j < before.len() && before[j]@.name == k;
                            assert(self.rows@[j]@.name == k);
                        } else {
                            assert(self.rows@[i as int]@.name == k);
                        }
                    }
                }
            },
            None => {
                self.rows.push(website);
                proof {
                    self.model@ = self.model@.insert(w.name, w);
                    assert forall|k: Seq<char>| #[trigger] self.model@.contains_key(k) implies exists|
                        j: int,
                    | 0 <= j < self.rows@.len() && self.rows@[j]@.name == k by {
                        if k != w.name {
                            let j = choose|j: int| 0 <= j < before.len() && before[j]@.name == k;
                            assert(self.rows@[j]@.name == k);
                        } else {
                            assert(self.rows@[before.len() as int]@.name == k);
                        }
                    }
                }
            },
        }
        Ok(())
    }

    /// Deletes the row with the given name; `NotFound` when there is none.
    pub fn delete_by_name(&mut self, name: &str) -> (r: Result<(), ServerError>)
        requires
            old(self).wf(),
        ensures
            final(self).wf(),
            old(self)@.contains_key(name@) ==> r is Ok && final(self)@ == old(self)@.remove(name@),
            !old(self)@.contains_key(name@) ==> r == Err::<(), ServerError>(ServerError::NotFound)
                && final(self)@ == old(self)@,
    {
        let ghost before = self.rows@;
        match self.position(name) {
            None => Err(ServerError::NotFound),
            Some(i) => {
                self.rows.remove(i);
                proof {
                    assert(self.model@.contains_key(name@));
                    self.model@ = self.model@.remove(name@);
                    assert forall|j: int|
                        0 <= j < self.rows@.len() implies self.model@.contains_key(
                        #[trigger] self.rows@[j]@.name,
                    ) && self.model@[self.rows@[j]@.name] == self.rows@[j]@ by {
                        if j < i {
                            assert(self.rows@[j] == before[j]);
                        } else {
                            assert(self.rows@[j] == before[j + 1]);
                        }
                    }
                    assert forall|k: Seq<char>| #[trigger] self.model@.contains_key(k) implies exists|
                        j: int,
                    | 0 <= j < self.rows@.len() && self.rows@[j]@.name == k by {
                        let j = choose|j: int| 0 <= j < before.len() && before[j]@.name == k;
                        if j < i {
                            assert(self.rows@[j] == before[j]);
                        } else {
                            assert(j != i);
                            assert(self.rows@[j - 1] == before[j]);
                        }
                    }
                }
                Ok(())
            },
        }
    }

    /// Every stored website of one section; the order is the store's own.
    pub fn get_by_section(&self, section: WebsiteSection) -> (r: Result<Vec<Website>, ServerError>)
        requires
            self.wf(),
        ensures
            r matches Ok(ws) && lists_section(websites_view(ws@), self@, section),
    {
        let mut out: Vec<Website> = Vec::new();
        let mut i: usize = 0;
        while i < self.rows.len()
            invariant
                self.wf(),
                i <= self.rows@.len(),
                forall|j: int|
                    0 <= j < out@.len() ==> exists|k: int|
                        0 <= k < i && #[trigger] out@[j]@ == self.rows@[k]@,
                forall|j: int| 0 <= j < out@.len() ==> (#[trigger] out@[j]@).section == section,
                forall|k: int|
                    0 <= k < i && (#[trigger] self.rows@[k]@).section == section ==> exists|j: int|
                        0 <= j < out@.len() && out@[j]@ == self.rows@[k]@,
                forall|a: int, b: int| 0 <= a < b < out@.len() ==> out@[a]@.name != out@[b]@.name,
            decreases self.rows@.len() - i,
        {
            let ghost before = out@;
            let in_section = *self.rows[i].section() == section;
            if in_section {
                let w = self.rows[i].clone();
                out.push(w);
                proof {
                    assert(out@[before.len() as int]@ == self.rows@[i as int]@);
                    assert forall|a: int, b: int|
                        0 <= a < b < out@.len() implies out@[a]@.name != out@[b]@.name by {
                        if b == before.len() {
                            let k = choose|k: int| 0 <= k < i && before[a]@ == self.rows@[k]@;
                            assert(out@[a] == before[a]);
                        }
                    }
                }
            }
            proof {
                assert forall|k: int|
                    0 <= k < i + 1 && (#[trigger] self.rows@[k]@).section == section implies exists|
                    j: int,
                | 0 <= j < out@.len() && out@[j]@ == self.rows@[k]@ by {
                    if k < i {
                        let j = choose|j: int| 0 <= j < before.len() && before[j]@ == self.rows@[k]@;
                        assert(out@[j] == before[j]);
                    } else {
                        assert(out@[before.len() as int]@ == self.rows@[k]@);
                    }
                }
            }
            i = i + 1;
        }
        proof {
            let ws = websites_view(out@);
            assert forall|k: Seq<char>|
                #[trigger] self@.contains_key(k) && self@[k].section == section implies exists|
                j: int,
            | 0 <= j < ws.len() && ws[j].name == k by {
                let r = choose|r: int| 0 <= r < self.rows@.len() && self.rows@[r]@.name == k;
                assert(self.rows@[r]@.section == section);
                let j = choose|j: int| 0 <= j < out@.len() && out@[j]@ == self.rows@[r]@;
                assert(ws[j].name == k);
            }
        }
        Ok(out)
    }

    /// The websites of every section, read in the fixed section order.
    pub fn get_all(&self) -> (r: Result<SectionMap, ServerError>)
        requires
            self.wf(),
        ensures
            r matches Ok(m) && forall|s: WebsiteSection| lists_section(#[trigger] m@[s], self@, s),
    {
        let code = self.get_by_section(WebsiteSection::Code);
        let fun = self.get_by_section(WebsiteSection::Fun);
        let editing = self.get_by_section(WebsiteSection::Editing);
        let r = SectionMap::assemble_all(code, fun, editing);
        assert(assembled(code, fun, editing, r));
        r
    }
}

/// Upserting two websites with the same name leaves one row under that name,
/// holding the second: the first write leaves no trace.
pub proof fn lemma_upsert_last_write_wins(m: StoreModel, first: WebsiteView, second: WebsiteView)
    requires
        first.name == second.name,
    ensures
        upserted(upserted(m, first), second) == upserted(m, second),
        upserted(upserted(m, first), second)[second.name] == second,
        upserted(upserted(m, first), second).dom() == m.dom().insert(second.name),
{
    assert(upserted(upserted(m, first), second) =~= upserted(m, second));
    assert(upserted(m, second).dom() =~= m.dom().insert(second.name));
}

/// A name that none of a run of upserts wrote is absent from a store that
/// started empty: the case in which `delete_by_name` answers `NotFound`.
pub proof fn lemma_never_inserted_absent(ws: Seq<WebsiteView>, name: Seq<char>)
    requires
        forall|i: int| 0 <= i < ws.len() ==> (#[trigger] ws[i]).name != name,
    ensures
        !upserted_all(Map::empty(), ws).contains_key(name),
    decreases ws.len(),
{
    if ws.len() > 0 {
        let rest = ws.drop_last();
        assert forall|i: int| 0 <= i < rest.len() implies (#[trigger] rest[i]).name != name by {
            assert(rest[i] == ws[i]);
        }
        lemma_never_inserted_absent(rest, name);
        assert(ws.last().name != name);
    }
}

} // verus!
