//! The article record that a lookup hands back.

use vstd::prelude::*;

verus! {

/// One resolved article: its identifier, its title and its extracted body.
///
/// A page is immutable once built; the fields are read through the getters.
#[derive(Debug, PartialEq, Eq)]
pub struct Page {
    id: i64,
    title: String,
    contents: String,
}

/// What a [`Page`] holds, as mathematical values.
pub struct PageView {
    pub id: i64,
    pub title: Seq<char>,
    pub contents: Seq<char>,
}

impl View for Page {
    type V = PageView;

    closed spec fn view(&self) -> PageView {
        PageView { id: self.id, title: self.title@, contents: self.contents@ }
    }
}

impl Page {
    /// Builds a page from its three parts, copying the two texts.
    pub fn new(id: i64, title: &str, contents: &str) -> (page: Page)
        ensures
            page@ == (PageView { id, title: title@, contents: contents@ }),
    {
        Page { id, title: title.to_owned(), contents: contents.to_owned() }
    }

    /// The article's identifier.
    pub fn get_id(&self) -> (id: i64)
        ensures
            id == self@.id,
    {
        self.id
    }

    /// The article's title.
    pub fn get_title(&self) -> (title: &str)
        ensures
            title@ == self@.title,
    {
        self.title.as_str()
    }

    /// The article's extracted body; empty where the source had no text.
    pub fn get_contents(&self) -> (contents: &str)
        ensures
            contents@ == self@.contents,
    {
        self.contents.as_str()
    }
}

} // verus!
