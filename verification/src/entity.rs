//! The composed result of one resolution run: the resolved short
//! identifier with the edition, work and author records it led to. Built
//! only by the resolution pipeline and read-only afterwards.

use crate::author::Author;
use crate::edition::Edition;
use crate::work::Work;
use vstd::prelude::*;

verus! {

/// One resolved entity. The components are fixed at composition and never
/// mutated; the getters only read them.
#[derive(Clone, Debug)]
pub struct Entity {
    olid: String,
    edition: Edition,
    work: Work,
    author: Author,
}

impl Entity {
    /// The short identifier this entity was resolved under.
    pub closed spec fn spec_olid(&self) -> Seq<char> {
        self.olid@
    }

    /// The edition component.
    pub closed spec fn spec_edition(&self) -> Edition {
        self.edition
    }

    /// The work component.
    pub closed spec fn spec_work(&self) -> Work {
        self.work
    }

    /// The author component.
    pub closed spec fn spec_author(&self) -> Author {
        self.author
    }

    /// Composes an entity out of the records one resolution run fetched.
    pub fn new(olid: String, edition: Edition, work: Work, author: Author) -> (e: Entity)
        ensures
            e.spec_olid() == olid@,
            e.spec_edition() == edition,
            e.spec_work() == work,
            e.spec_author() == author,
    {
        Entity { olid, edition, work, author }
    }

    /// The short identifier this entity was resolved under.
    pub fn get_olid(&self) -> (r: String)
        ensures
            r@ == self.spec_olid(),
    {
        self.olid.clone()
    }

    /// The author record.
    pub fn get_author(&self) -> (r: &Author)
        ensures
            *r == self.spec_author(),
    {
        &self.author
    }

    /// The author's name.
    pub fn get_author_name(&self) -> (r: String)
        ensures
            r@ == self.spec_author().name@,
    {
        self.author.name.clone()
    }

    /// The work record.
    pub fn get_work(&self) -> (r: &Work)
        ensures
            *r == self.spec_work(),
    {
        &self.work
    }

    /// The work's title.
    pub fn get_work_title(&self) -> (r: String)
        ensures
            r@ == self.spec_work().title@,
    {
        self.work.title.clone()
    }

    /// The edition record.
    pub fn get_edition(&self) -> (r: &Edition)
        ensures
            *r == self.spec_edition(),
    {
        &self.edition
    }
}

} // verus!
