//! Moving a page and the pages under it, one step at a time: the caller
//! reads the pages asked for and hands them over; the walk decides which
//! page comes next, moves each document, and ends with the outcome.
use vstd::prelude::*;
use crate::json_value::{Json, JsonV};
use crate::page_move::{MovingV, PageMoving, page_move_json, page_move_json_spec, page_move_children_urls,
    children_urls_spec, moving_distinct};
use crate::strings::string_views;
use crate::url_parts::{UrlParts, UrlV};

verus! {

/// A moved page whose child pages are being walked: the hrefs of its
/// children, how many of them were taken, its old and new URL and its new
/// document.
pub struct MoveFrame {
    hrefs: Vec<String>,
    next: usize,
    org_url: UrlParts,
    dest_url: UrlParts,
    dest_json: Json,
}

pub struct FrameV {
    pub hrefs: Seq<Seq<char>>,
    pub next: nat,
    pub org_url: UrlV,
    pub dest_url: UrlV,
    pub dest_json: JsonV,
}

impl View for MoveFrame {
    type V = FrameV;

    closed spec fn view(&self) -> FrameV {
        FrameV {
            hrefs: string_views(self.hrefs@),
            next: self.next as nat,
            org_url: self.org_url@,
            dest_url: self.dest_url@,
            dest_json: self.dest_json@,
        }
    }
}

/// A move under way: the pages moved so far, the pages whose children are
/// being walked (the last one is the deepest), and the child page asked for,
/// by its old and new URL.
pub struct MoveWalk {
    moving: PageMoving,
    stack: Vec<MoveFrame>,
    awaiting: Option<(UrlParts, UrlParts)>,
}

pub struct MoveWalkV {
    pub moving: Seq<MovingV>,
    pub stack: Seq<FrameV>,
    pub awaiting: Option<(UrlV, UrlV)>,
}

pub open spec fn frames_view(s: Seq<MoveFrame>) -> Seq<FrameV> {
    s.map_values(|f: MoveFrame| f@)
}

impl View for MoveWalk {
    type V = MoveWalkV;

    closed spec fn view(&self) -> MoveWalkV {
        MoveWalkV {
            moving: self.moving@,
            stack: frames_view(self.stack@),
            awaiting: match self.awaiting {
                Some((o, d)) => Some((o@, d@)),
                None => None,
            },
        }
    }
}

/// What the caller found: nothing (go on), or the old document of the page
/// asked for (none when it could not be read) and whether its new place
/// holds a page with subsections.
pub enum MoveEvent {
    Next,
    Loaded { org_json: Option<Json>, dest_data_exists: bool },
}

pub enum MoveEventV {
    Next,
    Loaded(Option<JsonV>, bool),
}

impl View for MoveEvent {
    type V = MoveEventV;

    open spec fn view(&self) -> MoveEventV {
        match self {
            MoveEvent::Next => MoveEventV::Next,
            MoveEvent::Loaded { org_json, dest_data_exists } => MoveEventV::Loaded(
                match org_json {
                    Some(j) => Some(j@),
                    None => None,
                },
                *dest_data_exists,
            ),
        }
    }
}

/// What the caller is to do: read the page at `org_url` and the one at
/// `dest_url`, go on, or stop with the outcome of the move.
pub enum MoveAction {
    Load { org_url: UrlParts, dest_url: UrlParts },
    Next,
    Done(Result<(), String>),
}

pub enum MoveActionV {
    Load(UrlV, UrlV),
    Next,
    Done(Result<(), Seq<char>>),
}

impl View for MoveAction {
    type V = MoveActionV;

    open spec fn view(&self) -> MoveActionV {
        match self {
            MoveAction::Load { org_url, dest_url } => MoveActionV::Load(org_url@, dest_url@),
            MoveAction::Next => MoveActionV::Next,
            MoveAction::Done(r) => MoveActionV::Done(match r {
                Ok(_) => Ok(()),
                Err(e) => Err(e@),
            }),
        }
    }
}

/// The start of a move: the page itself is moved first (see
/// `page_move_json_spec`); its children are walked next, or the move stops
/// with the refusal.
pub open spec fn move_start_spec(org: JsonV, org_url: UrlV, dest_url: UrlV, parent_url: Option<UrlV>, parent_json: Option<JsonV>, dest_data_exists: bool) -> (MoveWalkV, MoveActionV) {
    match page_move_json_spec(Seq::empty(), org, org_url, dest_url, parent_url, parent_json, dest_data_exists) {
        Err(e) => (MoveWalkV { moving: Seq::empty(), stack: Seq::empty(), awaiting: None }, MoveActionV::Done(Err(e))),
        Ok((m, d, children)) => (
            MoveWalkV {
                moving: m,
                stack: seq![FrameV { hrefs: children, next: 0, org_url, dest_url, dest_json: d }],
                awaiting: None,
            },
            MoveActionV::Next,
        ),
    }
}

/// One step of a move. When a child page was asked for: one that could not
/// be read is passed over; else it is moved under the deepest page being
/// walked, and its own children are walked next; a refused move stops the
/// whole move with the refusal. Otherwise the deepest page's next child
/// href is taken (one whose URLs cannot be made is passed over) and that
/// child is asked for; a page whose children are all taken is left; with
/// none left, the move is done.
pub open spec fn move_step_spec(w: MoveWalkV, e: MoveEventV) -> (MoveWalkV, MoveActionV) {
    match w.awaiting {
        Some((o, d)) => {
            let w1 = MoveWalkV { awaiting: None, ..w };
            match e {
                MoveEventV::Loaded(Some(j), exists) => {
                    let (pu, pj) = if w.stack.len() > 0 {
                        (Some(w.stack.last().dest_url), Some(w.stack.last().dest_json))
                    } else {
                        (None, None)
                    };
                    match page_move_json_spec(w.moving, j, o, d, pu, pj, exists) {
                        Err(msg) => (w1, MoveActionV::Done(Err(msg))),
                        Ok((m, dj, children)) => (
                            MoveWalkV {
                                moving: m,
                                stack: w.stack.push(FrameV { hrefs: children, next: 0, org_url: o, dest_url: d, dest_json: dj }),
                                awaiting: None,
                            },
                            MoveActionV::Next,
                        ),
                    }
                },
                _ => (w1, MoveActionV::Next),
            }
        },
        None => {
            if w.stack.len() == 0 {
                (w, MoveActionV::Done(Ok(())))
            } else {
                let top = w.stack.last();
                if top.next >= top.hrefs.len() {
                    (MoveWalkV { stack: w.stack.drop_last(), ..w }, MoveActionV::Next)
                } else {
                    let href = top.hrefs[top.next as int];
                    let w1 = MoveWalkV { stack: w.stack.drop_last().push(FrameV { next: top.next + 1, ..top }), ..w };
                    match children_urls_spec(href, top.org_url, top.dest_url) {
                        Err(_) => (w1, MoveActionV::Next),
                        Ok((co, cd)) => (MoveWalkV { awaiting: Some((co, cd)), ..w1 }, MoveActionV::Load(co, cd)),
                    }
                }
            }
        },
    }
}

impl MoveWalk {
    /// Starts moving the page at `org_url`, whose document is `org_json`, to
    /// `dest_url` under the page at `dest_parent_url`.
    pub fn start(
        org_json: &Json,
        org_url: &UrlParts,
        dest_url: &UrlParts,
        dest_parent_url: Option<&UrlParts>,
        dest_parent_json: Option<&Json>,
        dest_data_exists: bool,
    ) -> (res: (MoveWalk, MoveAction))
        ensures
            (res.0@, res.1@) == move_start_spec(org_json@, org_url@, dest_url@, crate::page_move::opt_url(dest_parent_url),
                crate::page_move::opt_json_view(dest_parent_json), dest_data_exists),
    {
        let mut moving = PageMoving::new();
        let stack: Vec<MoveFrame> = Vec::new();
        assert(moving@ =~= Seq::<MovingV>::empty());
        match page_move_json(&mut moving, org_json, org_url, dest_url, dest_parent_url, dest_parent_json, dest_data_exists) {
            Err(e) => {
                assert(frames_view(stack@) =~= Seq::<FrameV>::empty());
                (MoveWalk { moving, stack, awaiting: None }, MoveAction::Done(Err(e)))
            },
            Ok((d, children)) => {
                let frame = MoveFrame { hrefs: children, next: 0, org_url: org_url.copy(), dest_url: dest_url.copy(), dest_json: d };
                let mut stack = stack;
                stack.push(frame);
                assert(frames_view(stack@) =~= seq![frame@]);
                (MoveWalk { moving, stack, awaiting: None }, MoveAction::Next)
            },
        }
    }

    /// Takes one step with what the caller found.
    pub fn step(&mut self, event: MoveEvent) -> (res: MoveAction)
        ensures
            (final(self)@, res@) == move_step_spec(old(self)@, event@),
    {
        let mut cur = MoveWalk { moving: PageMoving::new(), stack: Vec::new(), awaiting: None };
        std::mem::swap(self, &mut cur);
        let ghost w = cur@;
        let MoveWalk { mut moving, mut stack, awaiting } = cur;
        match awaiting {
            Some((o, d)) => {
                let (j, exists) = match event {
                    MoveEvent::Loaded { org_json: Some(j), dest_data_exists } => (j, dest_data_exists),
                    _ => {
                        *self = MoveWalk { moving, stack, awaiting: None };
                        return MoveAction::Next;
                    },
                };
                let n = stack.len();
                let r = if n > 0 {
                    proof {
                        assert(frames_view(stack@)[n - 1] == stack@[n - 1]@);
                    }
                    page_move_json(&mut moving, &j, &o, &d, Some(&stack[n - 1].dest_url), Some(&stack[n - 1].dest_json), exists)
                } else {
                    page_move_json(&mut moving, &j, &o, &d, None, None, exists)
                };
                match r {
                    Err(msg) => {
                        *self = MoveWalk { moving, stack, awaiting: None };
                        MoveAction::Done(Err(msg))
                    },
                    Ok((dj, children)) => {
                        let frame = MoveFrame { hrefs: children, next: 0, org_url: o, dest_url: d, dest_json: dj };
                        let ghost before = stack@;
                        stack.push(frame);
                        assert(frames_view(stack@) =~= frames_view(before).push(frame@));
                        *self = MoveWalk { moving, stack, awaiting: None };
                        MoveAction::Next
                    },
                }
            },
            None => {
                if stack.len() == 0 {
                    *self = MoveWalk { moving, stack, awaiting: None };
                    return MoveAction::Done(Ok(()));
                }
                let ghost before = stack@;
                let mut top = stack.pop().unwrap();
                assert(before.drop_last() =~= stack@);
                assert(frames_view(before).last() == top@);
                assert(frames_view(before).drop_last() =~= frames_view(stack@));
                if top.next >= top.hrefs.len() {
                    *self = MoveWalk { moving, stack, awaiting: None };
                    return MoveAction::Next;
                }
                let href = top.hrefs[top.next].clone();
                proof {
                    assert(string_views(top.hrefs@)[top.next as int] == top.hrefs@[top.next as int]@);
                }
                let urls = page_move_children_urls(href.as_str(), &top.org_url, &top.dest_url);
                let ghost top0 = top@;
                top.next = top.next + 1;
                assert(top@ == FrameV { next: top0.next + 1, ..top0 });
                let ghost mid = stack@;
                stack.push(top);
                assert(frames_view(stack@) =~= frames_view(mid).push(top@));
                match urls {
                    Err(_) => {
                        *self = MoveWalk { moving, stack, awaiting: None };
                        MoveAction::Next
                    },
                    Ok((co, cd)) => {
                        let action = MoveAction::Load { org_url: co.copy(), dest_url: cd.copy() };
                        *self = MoveWalk { moving, stack, awaiting: Some((co, cd)) };
                        action
                    },
                }
            },
        }
    }

    /// The pages moved so far.
    pub fn moving(&self) -> (res: &PageMoving)
        ensures
            res@ == self@.moving,
    {
        &self.moving
    }
}

/// A step keeps the pages moved so far and adds at most one, which was not
/// among them: no page is moved twice in one move.
pub proof fn lemma_step_adds_new_page(w: MoveWalkV, e: MoveEventV)
    ensures
        ({
            let m2 = move_step_spec(w, e).0.moving;
            ||| m2 == w.moving
            ||| (m2.len() == w.moving.len() + 1 && m2.drop_last() == w.moving
                && !crate::page_move::moving_has(w.moving, m2.last().path))
        }),
{
    let m2 = move_step_spec(w, e).0.moving;
    if m2 != w.moving {
        assert(m2.drop_last() =~= w.moving);
    }
}

/// The pages moved stay distinct, step after step.
pub proof fn lemma_step_keeps_distinct(w: MoveWalkV, e: MoveEventV)
    requires
        moving_distinct(w.moving),
    ensures
        moving_distinct(move_step_spec(w, e).0.moving),
{
    lemma_step_adds_new_page(w, e);
    let m2 = move_step_spec(w, e).0.moving;
    if m2 != w.moving {
        assert forall|i: int, j: int| 0 <= i < j < m2.len() implies m2[i].path != m2[j].path by {
            if j == m2.len() - 1 {
                assert(m2[i] == w.moving[i]);
            } else {
                assert(m2[i] == w.moving[i] && m2[j] == w.moving[j]);
            }
        }
    }
}

/// A move that is done stays done: with nothing under way, it ends again
/// with success and nothing changes.
pub proof fn lemma_done_stays_done(w: MoveWalkV, e: MoveEventV)
    requires
        w.awaiting is None,
        w.stack.len() == 0,
    ensures
        move_step_spec(w, e) == (w, MoveActionV::Done(Ok(()))),
{
}

} // verus!
