//! In-memory annotation store: a mapping from page numbers to the ordered
//! sequence of annotation records on that page. Records are opaque
//! serialized values; pages that were never touched are implicitly empty.

use vstd::prelude::*;
use std::collections::HashMap;

verus! {

broadcast use vstd::std_specs::hash::group_hash_axioms;

/// Ordered per-page annotation records, keyed by page number.
pub struct AnnotationStore {
    pages: HashMap<u32, Vec<String>>,
}

impl AnnotationStore {
    /// The mathematical content of the store: a map from page number to the
    /// sequence of records on that page, in insertion order.
    pub closed spec fn view(&self) -> Map<u32, Seq<String>> {
        Map::new(
            |p: u32| self.pages@.contains_key(p),
            |p: u32| self.pages@[p]@,
        )
    }

    /// The records of one page; a page that is absent is empty.
    pub open spec fn page_seq(&self, page: u32) -> Seq<String> {
        if self.view().contains_key(page) {
            self.view()[page]
        } else {
            Seq::empty()
        }
    }

    /// A store with no annotations on any page.
    pub fn new() -> (s: Self)
        ensures
            s.view() == Map::<u32, Seq<String>>::empty(),
            forall|p: u32| s.page_seq(p) == Seq::<String>::empty(),
    {
        let s = AnnotationStore { pages: HashMap::new() };
        proof {
            assert(s.view() =~= Map::<u32, Seq<String>>::empty());
        }
        s
    }

    /// Append one record to a page, preserving the order of the records
    /// already there and leaving every other page unchanged.
    pub fn add(&mut self, page: u32, value: String)
        ensures
            final(self).page_seq(page) == old(self).page_seq(page).push(value),
            forall|q: u32| q != page ==> final(self).page_seq(q) == old(self).page_seq(q),
            final(self).view() == old(self).view().insert(
                page,
                old(self).page_seq(page).push(value),
            ),
    {
        let mut records: Vec<String> = match self.pages.remove(&page) {
            Some(v) => v,
            None => Vec::new(),
        };
        records.push(value);
        self.pages.insert(page, records);
        proof {
            assert(final(self).view() =~= old(self).view().insert(
                page,
                old(self).page_seq(page).push(value),
            ));
            assert(forall|q: u32| q != page ==> final(self).page_seq(q) == old(
                self,
            ).page_seq(q));
        }
    }

    /// Empty the whole store.
    pub fn clear(&mut self)
        ensures
            final(self).view() == Map::<u32, Seq<String>>::empty(),
            forall|p: u32| final(self).page_seq(p) == Seq::<String>::empty(),
    {
        self.pages = HashMap::new();
        proof {
            assert(final(self).view() =~= Map::<u32, Seq<String>>::empty());
        }
    }

    /// The records of one page, in order; empty for a page never written.
    pub fn get_page(&self, page: u32) -> (r: Vec<String>)
        ensures
            r@ == self.page_seq(page),
    {
        match self.pages.get(&page) {
            Some(records) => copy_strings(records),
            None => Vec::new(),
        }
    }

    /// Replace one page's records wholesale (used when a saved annotation
    /// set is loaded back into the session).
    pub fn set_page(&mut self, page: u32, records: Vec<String>)
        ensures
            final(self).page_seq(page) == records@,
            forall|q: u32| q != page ==> final(self).page_seq(q) == old(self).page_seq(q),
            final(self).view() == old(self).view().insert(page, records@),
    {
        self.pages.insert(page, records);
        proof {
            assert(final(self).view() =~= old(self).view().insert(page, records@));
        }
    }

    /// Whether any page holds a record.
    pub fn is_empty(&self) -> (r: bool)
        ensures
            r == (self.view().dom() =~= Set::<u32>::empty()),
    {
        let r = self.pages.is_empty();
        proof {
            if self.pages@.len() == 0 {
                assert(self.view().dom() =~= Set::<u32>::empty());
            } else {
                let p = self.pages@.dom().choose();
                assert(self.pages@.dom().contains(p));
                assert(self.view().dom().contains(p));
            }
        }
        r
    }
}

/// Element-by-element copy of a vector of strings.
fn copy_strings(v: &Vec<String>) -> (r: Vec<String>)
    ensures
        r@ == v@,
{
    let mut r: Vec<String> = Vec::new();
    let mut i: usize = 0;
    while i < v.len()
        invariant
            0 <= i <= v.len(),
            r@ == v@.subrange(0, i as int),
        decreases v.len() - i,
    {
        r.push(v[i].clone());
        i = i + 1;
        proof {
            assert(r@ =~= v@.subrange(0, i as int));
        }
    }
    proof {
        assert(r@ =~= v@);
    }
    r
}

/// The sidecar file that holds a document's saved annotations sits beside
/// the document itself, under the document's path with this suffix added.
pub fn get_annotations_path(pdf_path: &str) -> (r: String)
    ensures
        r@ == pdf_path@ + ".annotations.json"@,
{
    let mut r = pdf_path.to_owned();
    r.append(".annotations.json");
    r
}

} // verus!
