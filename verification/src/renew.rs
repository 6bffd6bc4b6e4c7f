//! Bringing a page to the current form (upgrade, form update): the decisions
//! taken between reading the page, probing its backup files, writing a
//! backup and saving, as a step function that the caller drives.
use vstd::prelude::*;
use crate::json_value::{Json, JsonV, jv_get_path, jv_set_path, jv_usize, strs_view, lemma_get_set_path};
use crate::page_json::{jv_to_usize, rev_path, to_usize};
use crate::records::Outcome;
use crate::json_value::{jv_get, jv_as_str, entries_view, lemma_entries_view};
use crate::page_json::{PageJson, pj_subsections};
use crate::url_parts::{UrlParts, UrlV, href_on, href_on_spec, url_join, url_join_result};
use crate::strings::string_views;

verus! {

/// Which renewal runs: an upgrade of an old page, or a form update. All
/// give the saved document the revision after the backup's; when there is
/// none, a form update keeps the backup's revision (its count up is
/// ignored) and the others fail.
#[derive(PartialEq, Eq, Structural, Clone, Copy)]
pub enum RenewKind {
    Upgrade,
    FormUpdate,
    FormUpdateNextRev,
}

/// How far a renewal has come.
pub enum RenewState {
    Start,
    AwaitDom,
    AwaitJson,
    /// Probing the backup files `next`, `next + 1`, .. below `to`; the last
    /// one found so far is `rev_last`.
    Probing { json: Json, rev_last: usize, next: usize, to: usize },
    AwaitBackup { json: Json, rev_backup: usize },
    AwaitSave,
    Finished,
}

/// What the caller found out.
pub enum RenewEvent {
    /// Whether the page is recorded already.
    Handled(bool),
    /// The page's HTML: `None` when it could not be read; else whether it
    /// has the current form's top element.
    Dom(Option<bool>),
    /// The page's document, read from its HTML.
    Json(Option<Json>),
    /// Whether the backup file asked about exists.
    Exists(bool),
    /// Whether the backup was written.
    Written(bool),
    /// Whether the renewed page was saved.
    Saved(bool),
}

/// What the caller is to do next.
pub enum RenewAction {
    ParseDom,
    ReadJson,
    /// Check whether the file of this revision exists.
    CheckExists(usize),
    /// Write the page as it is to the file of this revision.
    WriteBackup(usize),
    /// Save the page made from this document.
    Save(Json),
    /// Record the page's outcome; the renewal is over.
    Record(Outcome),
    /// The renewal is over, with nothing to record.
    Stop,
}

pub enum RenewStateV {
    Start,
    AwaitDom,
    AwaitJson,
    Probing { json: JsonV, rev_last: usize, next: usize, to: usize },
    AwaitBackup { json: JsonV, rev_backup: usize },
    AwaitSave,
    Finished,
}

pub enum RenewEventV {
    Handled(bool),
    Dom(Option<bool>),
    Json(Option<JsonV>),
    Exists(bool),
    Written(bool),
    Saved(bool),
}

pub enum RenewActionV {
    ParseDom,
    ReadJson,
    CheckExists(usize),
    WriteBackup(usize),
    Save(JsonV),
    Record(Outcome),
    Stop,
}

impl View for RenewState {
    type V = RenewStateV;

    open spec fn view(&self) -> RenewStateV {
        match *self {
            RenewState::Start => RenewStateV::Start,
            RenewState::AwaitDom => RenewStateV::AwaitDom,
            RenewState::AwaitJson => RenewStateV::AwaitJson,
            RenewState::Probing { json, rev_last, next, to } => RenewStateV::Probing { json: json@, rev_last, next, to },
            RenewState::AwaitBackup { json, rev_backup } => RenewStateV::AwaitBackup { json: json@, rev_backup },
            RenewState::AwaitSave => RenewStateV::AwaitSave,
            RenewState::Finished => RenewStateV::Finished,
        }
    }
}

impl View for RenewEvent {
    type V = RenewEventV;

    open spec fn view(&self) -> RenewEventV {
        match *self {
            RenewEvent::Handled(b) => RenewEventV::Handled(b),
            RenewEvent::Dom(d) => RenewEventV::Dom(d),
            RenewEvent::Json(j) => RenewEventV::Json(match j {
                Some(x) => Some(x@),
                None => None,
            }),
            RenewEvent::Exists(b) => RenewEventV::Exists(b),
            RenewEvent::Written(b) => RenewEventV::Written(b),
            RenewEvent::Saved(b) => RenewEventV::Saved(b),
        }
    }
}

impl View for RenewAction {
    type V = RenewActionV;

    open spec fn view(&self) -> RenewActionV {
        match *self {
            RenewAction::ParseDom => RenewActionV::ParseDom,
            RenewAction::ReadJson => RenewActionV::ReadJson,
            RenewAction::CheckExists(r) => RenewActionV::CheckExists(r),
            RenewAction::WriteBackup(r) => RenewActionV::WriteBackup(r),
            RenewAction::Save(j) => RenewActionV::Save(j@),
            RenewAction::Record(o) => RenewActionV::Record(o),
            RenewAction::Stop => RenewActionV::Stop,
        }
    }
}

/// The revision recorded in a page's document, when it can be read.
pub open spec fn json_rev_spec(j: JsonV) -> Option<nat> {
    jv_to_usize(jv_get_path(j, rev_path()))
}

/// After the probing: a backup goes to the revision after the last one
/// found; there is none when that revision would not fit.
pub open spec fn backup_step(json: JsonV, rev_last: usize) -> (RenewStateV, RenewActionV) {
    if rev_last < usize::MAX {
        let b = (rev_last + 1) as usize;
        (RenewStateV::AwaitBackup { json, rev_backup: b }, RenewActionV::WriteBackup(b))
    } else {
        (RenewStateV::Finished, RenewActionV::Record(Outcome::Failed))
    }
}

/// Probing the next revision, while it is below `to`.
pub open spec fn probe_step(json: JsonV, rev_last: usize, next: usize, to: usize) -> (RenewStateV, RenewActionV) {
    if next < to {
        (RenewStateV::Probing { json, rev_last, next, to }, RenewActionV::CheckExists(next))
    } else {
        backup_step(json, rev_last)
    }
}

/// One step of a renewal: from the state and what the caller found out, the
/// next state and what the caller is to do. A page recorded already is left
/// alone; one whose HTML cannot be read, or whose document cannot be found,
/// has failed; one in the current form is recorded as such. Otherwise the
/// backup files after the document's revision (1 when it has none) are
/// probed, up to 99 of them, until one is missing; the page as it is goes to
/// the revision after the last one found; the document then gets the next
/// revision (for a form update, the backup's when there is no next one) and
/// the page made from it is saved, which records it as changed.
pub open spec fn renew_step_spec(kind: RenewKind, state: RenewStateV, event: RenewEventV) -> (RenewStateV, RenewActionV) {
    match (state, event) {
        (RenewStateV::Start, RenewEventV::Handled(h)) => {
            if h { (RenewStateV::Finished, RenewActionV::Stop) } else { (RenewStateV::AwaitDom, RenewActionV::ParseDom) }
        },
        (RenewStateV::AwaitDom, RenewEventV::Dom(d)) => match d {
            None => (RenewStateV::Finished, RenewActionV::Record(Outcome::Failed)),
            Some(true) => (RenewStateV::Finished, RenewActionV::Record(Outcome::Already)),
            Some(false) => (RenewStateV::AwaitJson, RenewActionV::ReadJson),
        },
        (RenewStateV::AwaitJson, RenewEventV::Json(j)) => match j {
            None => (RenewStateV::Finished, RenewActionV::Record(Outcome::Failed)),
            Some(json) => {
                let r: usize = match json_rev_spec(json) {
                    Some(r) => r as usize,
                    None => 1,
                };
                let fm: usize = if r < usize::MAX { (r + 1) as usize } else { usize::MAX };
                let to: usize = if r + 100 <= usize::MAX { (r + 100) as usize } else { usize::MAX };
                probe_step(json, r, fm, to)
            },
        },
        (RenewStateV::Probing { json, rev_last, next, to }, RenewEventV::Exists(e)) => {
            if e && next < usize::MAX {
                probe_step(json, next, (next + 1) as usize, to)
            } else if e {
                backup_step(json, next)
            } else {
                backup_step(json, rev_last)
            }
        },
        (RenewStateV::AwaitBackup { json, rev_backup }, RenewEventV::Written(w)) => {
            if !w {
                (RenewStateV::Finished, RenewActionV::Record(Outcome::Failed))
            } else if rev_backup == usize::MAX && kind == RenewKind::FormUpdate {
                (RenewStateV::AwaitSave, RenewActionV::Save(jv_set_path(json, rev_path(), jv_usize(rev_backup))))
            } else if rev_backup < usize::MAX {
                (RenewStateV::AwaitSave, RenewActionV::Save(jv_set_path(json, rev_path(), jv_usize((rev_backup + 1) as usize))))
            } else {
                (RenewStateV::Finished, RenewActionV::Record(Outcome::Failed))
            }
        },
        (RenewStateV::AwaitSave, RenewEventV::Saved(s)) => {
            if s { (RenewStateV::Finished, RenewActionV::Record(Outcome::Changed)) } else { (RenewStateV::Finished, RenewActionV::Stop) }
        },
        _ => (RenewStateV::Finished, RenewActionV::Stop),
    }
}

fn backup_step_exec(json: Json, rev_last: usize) -> (res: (RenewState, RenewAction))
    ensures
        (res.0@, res.1@) == backup_step(json@, rev_last),
{
    match rev_last.checked_add(1) {
        Some(b) => (RenewState::AwaitBackup { json, rev_backup: b }, RenewAction::WriteBackup(b)),
        None => (RenewState::Finished, RenewAction::Record(Outcome::Failed)),
    }
}

fn probe_step_exec(json: Json, rev_last: usize, next: usize, to: usize) -> (res: (RenewState, RenewAction))
    ensures
        (res.0@, res.1@) == probe_step(json@, rev_last, next, to),
{
    if next < to {
        (RenewState::Probing { json, rev_last, next, to }, RenewAction::CheckExists(next))
    } else {
        backup_step_exec(json, rev_last)
    }
}

/// The revision recorded in a page's document.
pub fn json_rev(json: &Json) -> (res: Option<usize>)
    ensures
        match res {
            Some(r) => json_rev_spec(json@) == Some(r as nat),
            None => json_rev_spec(json@) is None,
        },
{
    let keys = ["data", "page", "rev"];
    assert(strs_view(keys@) =~= rev_path());
    match json.get_path(&keys) {
        Some(v) => to_usize(v).ok(),
        None => None,
    }
}

/// One step of a renewal.
pub fn renew_step(kind: RenewKind, state: RenewState, event: RenewEvent) -> (res: (RenewState, RenewAction))
    ensures
        (res.0@, res.1@) == renew_step_spec(kind, state@, event@),
{
    match (state, event) {
        (RenewState::Start, RenewEvent::Handled(h)) => {
            if h { (RenewState::Finished, RenewAction::Stop) } else { (RenewState::AwaitDom, RenewAction::ParseDom) }
        },
        (RenewState::AwaitDom, RenewEvent::Dom(d)) => match d {
            None => (RenewState::Finished, RenewAction::Record(Outcome::Failed)),
            Some(true) => (RenewState::Finished, RenewAction::Record(Outcome::Already)),
            Some(false) => (RenewState::AwaitJson, RenewAction::ReadJson),
        },
        (RenewState::AwaitJson, RenewEvent::Json(j)) => match j {
            None => (RenewState::Finished, RenewAction::Record(Outcome::Failed)),
            Some(json) => {
                let r = match json_rev(&json) {
                    Some(r) => r,
                    None => 1,
                };
                let fm = match r.checked_add(1) {
                    Some(v) => v,
                    None => usize::MAX,
                };
                let to = match r.checked_add(100) {
                    Some(v) => v,
                    None => usize::MAX,
                };
                probe_step_exec(json, r, fm, to)
            },
        },
        (RenewState::Probing { json, rev_last, next, to }, RenewEvent::Exists(e)) => {
            if e && next < usize::MAX {
                probe_step_exec(json, next, next + 1, to)
            } else if e {
                backup_step_exec(json, next)
            } else {
                backup_step_exec(json, rev_last)
            }
        },
        (RenewState::AwaitBackup { json, rev_backup }, RenewEvent::Written(w)) => {
            if !w {
                return (RenewState::Finished, RenewAction::Record(Outcome::Failed));
            }
            let rev = match rev_backup.checked_add(1) {
                Some(v) => v,
                None => {
                    if kind == RenewKind::FormUpdate {
                        rev_backup
                    } else {
                        return (RenewState::Finished, RenewAction::Record(Outcome::Failed));
                    }
                },
            };
            let mut json = json;
            let keys = ["data", "page", "rev"];
            assert(strs_view(keys@) =~= rev_path());
            json.set_path(&keys, Json::from_usize(rev));
            (RenewState::AwaitSave, RenewAction::Save(json))
        },
        (RenewState::AwaitSave, RenewEvent::Saved(s)) => {
            if s { (RenewState::Finished, RenewAction::Record(Outcome::Changed)) } else { (RenewState::Finished, RenewAction::Stop) }
        },
        _ => (RenewState::Finished, RenewAction::Stop),
    }
}

/// A page is recorded as changed only when its renewed form was saved.
pub proof fn lemma_changed_only_when_saved(kind: RenewKind, state: RenewStateV, event: RenewEventV)
    ensures
        renew_step_spec(kind, state, event).1 == RenewActionV::Record(Outcome::Changed)
            ==> state == RenewStateV::AwaitSave && event == RenewEventV::Saved(true),
{
}

/// The renewed page is saved only once the backup of the page as it was is
/// written.
pub proof fn lemma_save_only_after_backup(kind: RenewKind, state: RenewStateV, event: RenewEventV)
    ensures
        renew_step_spec(kind, state, event).1 is Save ==> state is AwaitBackup && event == RenewEventV::Written(true),
{
}

/// The backup goes to the revision right after the last one found.
pub proof fn lemma_backup_after_last_found(kind: RenewKind, state: RenewStateV, event: RenewEventV)
    ensures
        renew_step_spec(kind, state, event).1 matches RenewActionV::WriteBackup(b) ==> match state {
            RenewStateV::Probing { rev_last, next, .. } => (event == RenewEventV::Exists(true) && b == next + 1)
                || (b == rev_last + 1),
            RenewStateV::AwaitJson => true,
            _ => false,
        },
{
}

/// A number written from a `usize` reads back as that number.
pub proof fn lemma_to_usize_of_usize(n: usize)
    ensures
        jv_to_usize(jv_usize(n)) == Some(n as nat),
{
}

/// The saved document records the revision after the backup's, so that
/// the save does not overwrite that backup (a form update whose backup
/// revision is the largest keeps it, as its count up fails).
pub proof fn lemma_saved_rev(kind: RenewKind, state: RenewStateV, event: RenewEventV)
    ensures
        renew_step_spec(kind, state, event).1 matches RenewActionV::Save(j) ==> match state {
            RenewStateV::AwaitBackup { rev_backup, .. } => json_rev_spec(j) == Some(
                if rev_backup < usize::MAX { (rev_backup + 1) as nat } else { rev_backup as nat },
            ) && (rev_backup == usize::MAX ==> kind == RenewKind::FormUpdate),
            _ => false,
        },
{
    match (state, event) {
        (RenewStateV::AwaitBackup { json, rev_backup }, RenewEventV::Written(true)) => {
            if rev_backup < usize::MAX {
                lemma_get_set_path(json, rev_path(), jv_usize((rev_backup + 1) as usize));
            } else {
                lemma_get_set_path(json, rev_path(), jv_usize(rev_backup));
            }
        },
        _ => {},
    }
}

/// The path of the child page a subsection points to, if it points to one.
pub open spec fn child_path_of(page_url: UrlV, sub: JsonV) -> Option<Seq<char>> {
    match jv_as_str(jv_get(sub, "href"@)) {
        None => None,
        Some(href) => match href_on_spec(page_url, href) {
            Some((_, true)) => match url_join_result(page_url.serialization, href) {
                Some(u) => Some(u.path),
                None => None,
            },
            _ => None,
        },
    }
}

/// The paths of the child pages that the first subsections point to, in order.
pub open spec fn children_paths_prefix(page_url: UrlV, e: Seq<(Seq<char>, JsonV)>) -> Seq<Seq<char>>
    decreases e.len(),
{
    if e.len() == 0 {
        Seq::empty()
    } else {
        let prev = children_paths_prefix(page_url, e.drop_last());
        match child_path_of(page_url, e.last().1) {
            Some(p) => prev.push(p),
            None => prev,
        }
    }
}

/// The paths of the child pages of a page: those its subsections point to
/// below its own directory, in the order of the subsections.
pub open spec fn children_paths_spec(page_url: UrlV, page_json: Option<JsonV>) -> Seq<Seq<char>> {
    match pj_subsections(page_json) {
        Some(e) => children_paths_prefix(page_url, e),
        None => Seq::empty(),
    }
}

/// Whether a subsection points to a child page of the page at `page_url`:
/// its href is text, lies below the page's directory, and reads as a URL
/// from the page's URL.
pub open spec fn points_to_child(page_url: UrlV, e: (Seq<char>, JsonV)) -> bool {
    &&& jv_as_str(jv_get(e.1, "href"@)) is Some
    &&& href_on_spec(page_url, jv_as_str(jv_get(e.1, "href"@))->Some_0) matches Some((_, true))
    &&& url_join_result(page_url.serialization, jv_as_str(jv_get(e.1, "href"@))->Some_0) is Some
}

/// The path of the URL a subsection's href reads as from the page's URL.
pub open spec fn child_path(page_url: UrlV, e: (Seq<char>, JsonV)) -> Seq<char> {
    url_join_result(page_url.serialization, jv_as_str(jv_get(e.1, "href"@))->Some_0)->Some_0.path
}

proof fn lemma_children_paths_filter(page_url: UrlV, e: Seq<(Seq<char>, JsonV)>)
    ensures
        children_paths_prefix(page_url, e)
            == e.filter(|x: (Seq<char>, JsonV)| points_to_child(page_url, x)).map_values(|x: (Seq<char>, JsonV)| child_path(page_url, x)),
    decreases e.len(),
{
    reveal(Seq::filter);
    let pred = |x: (Seq<char>, JsonV)| points_to_child(page_url, x);
    let f = |x: (Seq<char>, JsonV)| child_path(page_url, x);
    if e.len() > 0 {
        lemma_children_paths_filter(page_url, e.drop_last());
        let sub = e.drop_last().filter(pred);
        if pred(e.last()) {
            assert(sub.push(e.last()).map_values(f) =~= sub.map_values(f).push(f(e.last())));
        }
    } else {
        assert(e.filter(pred) =~= Seq::<(Seq<char>, JsonV)>::empty());
        assert(e.filter(pred).map_values(f) =~= Seq::<Seq<char>>::empty());
    }
}

/// The child pages walked from a page are exactly those its subsections
/// point to: one path per subsection that points to a child page (the path
/// of the subsection's href read from the page's URL), in the order of the
/// subsections, and none for any other subsection.
pub proof fn law_children_paths_are_every_child(page_url: UrlV, page_json: Option<JsonV>)
    requires
        pj_subsections(page_json) is Some,
    ensures
        ({
            let e = pj_subsections(page_json)->Some_0;
            let kids = e.filter(|x: (Seq<char>, JsonV)| points_to_child(page_url, x));
            let paths = children_paths_spec(page_url, page_json);
            &&& paths.len() == kids.len()
            &&& forall|k: int| 0 <= k < kids.len() ==> #[trigger] paths[k] == child_path(page_url, kids[k])
            &&& forall|i: int| 0 <= i < e.len() && points_to_child(page_url, #[trigger] e[i]) ==> paths.contains(child_path(page_url, e[i]))
        }),
{
    let e = pj_subsections(page_json)->Some_0;
    let pred = |x: (Seq<char>, JsonV)| points_to_child(page_url, x);
    lemma_children_paths_filter(page_url, e);
    let kids = e.filter(pred);
    let paths = children_paths_spec(page_url, page_json);
    assert forall|i: int| 0 <= i < e.len() && points_to_child(page_url, #[trigger] e[i]) implies paths.contains(child_path(page_url, e[i])) by {
        e.lemma_filter_contains(pred, i);
        let k = choose|k: int| 0 <= k < kids.len() && kids[k] == e[i];
        assert(paths[k] == child_path(page_url, kids[k]));
    }
}

/// The paths of a page's child pages, to walk them in turn.
pub fn page_children_paths(page_url: &UrlParts, page_json: &PageJson) -> (res: Vec<String>)
    ensures
        string_views(res@) == children_paths_spec(page_url@, page_json@),
{
    let mut out: Vec<String> = Vec::new();
    let subs = match page_json.subsections() {
        Some(e) => e,
        None => {
            assert(string_views(out@) =~= Seq::<Seq<char>>::empty());
            return out;
        },
    };
    let ghost ev = entries_view(subs@);
    proof {
        lemma_entries_view(subs@);
    }
    let n = subs.len();
    assert(ev.take(0) =~= Seq::<(Seq<char>, JsonV)>::empty());
    assert(string_views(out@) =~= Seq::<Seq<char>>::empty());
    for i in 0..n
        invariant
            n == subs@.len(),
            ev == entries_view(subs@),
            ev.len() == n,
            forall|x: int| 0 <= x < n ==> #[trigger] ev[x] == (subs@[x].0@, subs@[x].1@),
            string_views(out@) == children_paths_prefix(page_url@, ev.take(i as int)),
    {
        let sub = &subs[i].1;
        assert(ev.take(i + 1).drop_last() =~= ev.take(i as int));
        assert(ev.take(i + 1).last() == ev[i as int]);
        let href = match sub.get("href") {
            Some(h) => h.as_str(),
            None => None,
        };
        if let Some(href) = href {
            if let Some((_, is_child)) = href_on(page_url, href) {
                if is_child {
                    if let Some(u) = url_join(page_url, href) {
                        let ghost before = string_views(out@);
                        out.push(u.path);
                        assert(string_views(out@) =~= before.push(u@.path));
                    }
                }
            }
        }
    }
    assert(ev.take(n as int) =~= ev);
    out
}

} // verus!