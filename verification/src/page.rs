//! A page of the store: where its file lies and where its revisions go.
use vstd::prelude::*;
use crate::strings::{decimal, push_decimal};

verus! {

/// A page, known by the store's root directory and its path under it.
pub struct Page {
    stor_root: String,
    page_path: String,
}

impl View for Page {
    type V = (Seq<char>, Seq<char>);

    closed spec fn view(&self) -> (Seq<char>, Seq<char>) {
        (self.stor_root@, self.page_path@)
    }
}

impl Page {
    pub fn new(stor_root: &str, page_path: &str) -> (res: Page)
        ensures
            res@ == (stor_root@, page_path@),
    {
        Page { stor_root: stor_root.to_owned(), page_path: page_path.to_owned() }
    }

    pub fn stor_root(&self) -> (res: &str)
        ensures
            res@ == self@.0,
    {
        self.stor_root.as_str()
    }

    pub fn page_path(&self) -> (res: &str)
        ensures
            res@ == self@.1,
    {
        self.page_path.as_str()
    }

    /// The file of the page: the store's root followed by the page's path.
    pub fn file_path(&self) -> (res: String)
        ensures
            res@ == self@.0 + self@.1,
    {
        file_path(self.stor_root.as_str(), self.page_path.as_str())
    }

    /// The file of revision `rev`: the page's file, a dot and the number.
    pub fn path_rev_form(&self, rev: usize) -> (res: String)
        ensures
            res@ == self@.0 + self@.1 + "."@ + decimal(rev as nat),
    {
        let mut p = self.file_path();
        p.append(".");
        push_decimal(&mut p, rev);
        p
    }
}

/// The file of a page: the store's root followed by the page's path.
pub fn file_path(stor_root: &str, page_path: &str) -> (res: String)
    ensures
        res@ == stor_root@ + page_path@,
{
    let mut p = stor_root.to_owned();
    p.append(page_path);
    p
}

} // verus!
