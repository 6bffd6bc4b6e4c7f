//! Walking a page and the pages under it to renew them, one page at a time:
//! the caller renews the page handed out and reads its child pages; the
//! walk decides which page comes next, whether a page's children are
//! walked, and keeps the record of what happened to each page.
use vstd::prelude::*;
use crate::records::{Outcome, PathRecord, RecordV, record_add, recorded};
use crate::renew::RenewKind;
use crate::strings::string_views;

verus! {

/// A walk under way: what kind of renewal it makes, whether it goes down to
/// child pages, the pages still to visit (the last one comes next), the
/// page being renewed with whether it was recorded when it was handed out,
/// and the record so far.
pub struct UpkeepWalk {
    kind: RenewKind,
    recursive: bool,
    pending: Vec<String>,
    current: Option<(String, bool)>,
    record: PathRecord,
}

pub struct UpkeepWalkV {
    pub kind: RenewKind,
    pub recursive: bool,
    pub pending: Seq<Seq<char>>,
    pub current: Option<(Seq<char>, bool)>,
    pub record: RecordV,
}

impl View for UpkeepWalk {
    type V = UpkeepWalkV;

    closed spec fn view(&self) -> UpkeepWalkV {
        UpkeepWalkV {
            kind: self.kind,
            recursive: self.recursive,
            pending: string_views(self.pending@),
            current: match self.current {
                Some((p, h)) => Some((p@, h)),
                None => None,
            },
            record: self.record@,
        }
    }
}

/// The pages still to visit once those an upgrade has recorded are passed
/// over from the end: an upgrade leaves a page met again alone, so that
/// pages pointing at each other are walked once. A form update passes
/// over none.
pub open spec fn pending_after_skip(kind: RenewKind, pending: Seq<Seq<char>>, record: RecordV) -> Seq<Seq<char>>
    decreases pending.len(),
{
    if pending.len() > 0 && kind == RenewKind::Upgrade && recorded(record, pending.last()) {
        pending_after_skip(kind, pending.drop_last(), record)
    } else {
        pending
    }
}

/// Whether the children of a renewed page are walked: an upgrade always
/// goes on; a form update goes on once the page was saved, or when its
/// renewal stopped before the page was recorded.
pub open spec fn descends(kind: RenewKind, recursive: bool, outcome: Option<Outcome>, handled: bool) -> bool {
    recursive && (kind == RenewKind::Upgrade || match outcome {
        Some(Outcome::Changed) => true,
        Some(_) => false,
        None => !handled,
    })
}

/// The record after a renewal: its outcome, if any, is reported.
pub open spec fn record_after(record: RecordV, path: Seq<char>, outcome: Option<Outcome>) -> RecordV {
    match outcome {
        Some(o) => record_add(record, o, path),
        None => record,
    }
}

/// The pages in the order they are visited from a stack: the first comes
/// out first.
pub open spec fn stacked(paths: Seq<Seq<char>>) -> Seq<Seq<char>> {
    paths.reverse()
}

impl UpkeepWalk {
    /// A walk that starts at the page `top`.
    pub fn new(kind: RenewKind, recursive: bool, top: &str) -> (res: UpkeepWalk)
        ensures
            res@.kind == kind,
            res@.recursive == recursive,
            res@.pending == seq![top@],
            (res@.current is None),
            res@.record == (RecordV { already: Seq::empty(), changed: Seq::empty(), failed: Seq::empty() }),
    {
        let mut pending: Vec<String> = Vec::new();
        pending.push(top.to_owned());
        assert(string_views(pending@) =~= seq![top@]);
        let record = PathRecord::new();
        assert(record@.already =~= Seq::empty());
        assert(record@.changed =~= Seq::empty());
        assert(record@.failed =~= Seq::empty());
        UpkeepWalk { kind, recursive, pending, current: None, record }
    }

    /// The next page to renew, with whether it is recorded already; none
    /// when the walk is over. An upgrade never hands out a recorded page.
    pub fn next_page(&mut self) -> (res: Option<(String, bool)>)
        ensures
            ({
                let p = pending_after_skip(old(self)@.kind, old(self)@.pending, old(self)@.record);
                &&& final(self)@.kind == old(self)@.kind
                &&& final(self)@.recursive == old(self)@.recursive
                &&& final(self)@.record == old(self)@.record
                &&& if p.len() == 0 {
                    &&& res is None
                    &&& final(self)@.pending == p
                    &&& final(self)@.current is None
                } else {
                    let h = recorded(old(self)@.record, p.last());
                    &&& res matches Some((path, handled)) && path@ == p.last() && handled == h
                    &&& final(self)@.pending == p.drop_last()
                    &&& final(self)@.current == Some((p.last(), h))
                }
            }),
            old(self)@.kind == RenewKind::Upgrade ==> (res matches Some((path, handled))
                ==> !handled && !recorded(old(self)@.record, path@)),
    {
        let ghost k = self.kind;
        let ghost r = self.record@;
        let ghost p0 = string_views(self.pending@);
        loop
            invariant
                self.kind == k,
                self.recursive == old(self).recursive,
                self.record@ == r,
                k == old(self)@.kind,
                r == old(self)@.record,
                p0 == old(self)@.pending,
                pending_after_skip(k, string_views(self.pending@), r) == pending_after_skip(k, p0, r),
            decreases self.pending@.len(),
        {
            let n = self.pending.len();
            if n == 0 {
                self.current = None;
                proof {
                    assert(string_views(self.pending@) =~= Seq::<Seq<char>>::empty());
                }
                return None;
            }
            let ghost pv = string_views(self.pending@);
            let handled = self.record.handled_path(self.pending[n - 1].as_str());
            assert(pv.last() == self.pending@[n - 1]@);
            let upgrade = match self.kind {
                RenewKind::Upgrade => true,
                _ => false,
            };
            let path = match self.pending.pop() {
                Some(p) => p,
                None => return None,
            };
            proof {
                assert(string_views(self.pending@) =~= pv.drop_last());
            }
            if !(upgrade && handled) {
                self.current = Some((path.clone(), handled));
                proof {
                    assert(pending_after_skip(k, pv, r) == pv);
                }
                return Some((path, handled));
            }
        }
    }

    /// Reports how the renewal of the page handed out ended, and says
    /// whether its child pages are to be walked.
    pub fn renewed(&mut self, outcome: Option<Outcome>) -> (descend: bool)
        requires
            (old(self)@.current is Some),
        ensures
            ({
                let (path, handled) = old(self)@.current->Some_0;
                &&& final(self)@.record == record_after(old(self)@.record, path, outcome)
                &&& descend == descends(old(self)@.kind, old(self)@.recursive, outcome, handled)
            }),
            final(self)@.kind == old(self)@.kind,
            final(self)@.recursive == old(self)@.recursive,
            final(self)@.pending == old(self)@.pending,
            (final(self)@.current is None),
    {
        let (path, handled) = match self.current.take() {
            Some(c) => c,
            None => return false,
        };
        let upgrade = match self.kind {
            RenewKind::Upgrade => true,
            _ => false,
        };
        let goes_on = match &outcome {
            Some(Outcome::Changed) => true,
            Some(_) => false,
            None => !handled,
        };
        match outcome {
            Some(o) => self.record.add(o, path.as_str()),
            None => {},
        }
        self.recursive && (upgrade || goes_on)
    }

    /// Puts the child pages of the page just renewed in front of the pages
    /// still to visit, the first child coming next.
    pub fn children(&mut self, paths: Vec<String>)
        ensures
            final(self)@.pending == old(self)@.pending + stacked(string_views(paths@)),
            final(self)@.kind == old(self)@.kind,
            final(self)@.recursive == old(self)@.recursive,
            final(self)@.current == old(self)@.current,
            final(self)@.record == old(self)@.record,
    {
        let ghost p0 = string_views(self.pending@);
        let ghost sv = string_views(paths@);
        let mut paths = paths;
        let n = paths.len();
        let mut i: usize = 0;
        while i < n
            invariant
                i <= n,
                n == sv.len(),
                paths@.len() == n - i,
                string_views(paths@) == sv.take(n - i),
                string_views(self.pending@) == p0 + sv.reverse().take(i as int),
                self.kind == old(self).kind,
                self.recursive == old(self).recursive,
                self.current == old(self).current,
                self.record@ == old(self)@.record,
            decreases n - i,
        {
            let ghost before = string_views(self.pending@);
            let p = match paths.pop() {
                Some(p) => p,
                None => return,
            };
            assert(p@ == sv[n - i - 1]) by {
                assert(sv.take(n - i)[n - i - 1] == sv[n - i - 1]);
            }
            self.pending.push(p);
            i = i + 1;
            proof {
                assert(string_views(paths@) =~= sv.take(n - i));
                assert(sv.reverse().take(i as int) =~= sv.reverse().take(i - 1).push(sv[n - i]));
                assert(string_views(self.pending@) =~= before.push(p@));
            }
        }
        assert(sv.reverse().take(n as int) =~= sv.reverse());
    }

    /// The record of what happened to each page.
    pub fn record(&self) -> (res: &PathRecord)
        ensures
            res@ == self@.record,
    {
        &self.record
    }
}

} // verus!
