//! Clearing out old backup files of a page: which revisions go to the
//! garbage directory, decided step by step while the caller looks at the
//! files and moves them.
use vstd::prelude::*;
use vstd::utf8::encode_utf8;
use crate::page::Page;
use crate::strings::{decimal, push_decimal};
use crate::regex_calls::{regex_find, regex_find_result};
use crate::http::REV_SUFFIX_PATTERN;

verus! {

/// How many of the newest backups are always kept.
pub const FILES_LEAVE: usize = 10;

/// How many days a backup is kept at least.
pub const DAYS_KEEP: usize = 30;

/// How many revisions past the last one moved are probed for old-style
/// backups.
pub const PROBES: usize = 10;

/// Seconds in a day.
pub const ONE_DAY_IN_SECS: u64 = 86400;

/// The age of a file in whole days, from its age in seconds; refused when
/// the number of days does not fit a `usize`.
pub fn duration_modified_days(age_secs: u64) -> (res: Result<usize, ()>)
    ensures
        match res {
            Ok(d) => d == age_secs / 86400,
            Err(_) => age_secs / 86400 > usize::MAX,
        },
{
    let days = age_secs / ONE_DAY_IN_SECS;
    if days <= usize::MAX as u64 {
        Ok(days as usize)
    } else {
        Err(())
    }
}

/// What the caller saw of a backup file.
#[derive(Clone, Copy)]
pub struct RevFileObs {
    /// It is a file.
    pub is_file: bool,
    /// Its age in whole days, when it could be read.
    pub modified_days: Option<usize>,
    /// It has a file name.
    pub has_file_name: bool,
}

/// Whether a backup may go: a file, old enough, with a name.
pub open spec fn may_move(obs: RevFileObs, days_keep: usize) -> bool {
    obs.is_file && (obs.modified_days matches Some(d) && d >= days_keep) && obs.has_file_name
}

/// The sweep over the backups `<page>.N`, from the oldest one that may go
/// (`rev - files_leave`) down to 0.
pub struct HtmlDotRevSweep {
    rev: usize,
    files_leave: usize,
    days_keep: usize,
    stop_on_skip: bool,
    next: Option<usize>,
    moved: Vec<usize>,
}

pub struct HtmlDotRevSweepV {
    pub rev: usize,
    pub files_leave: usize,
    pub days_keep: usize,
    pub stop_on_skip: bool,
    pub next: Option<usize>,
    pub moved: Seq<usize>,
}

impl View for HtmlDotRevSweep {
    type V = HtmlDotRevSweepV;

    closed spec fn view(&self) -> HtmlDotRevSweepV {
        HtmlDotRevSweepV {
            rev: self.rev,
            files_leave: self.files_leave,
            days_keep: self.days_keep,
            stop_on_skip: self.stop_on_skip,
            next: self.next,
            moved: self.moved@,
        }
    }
}

/// Only backups older than the newest `files_leave` revisions are moved,
/// each once, newest first, and the next one to look at is older still.
pub open spec fn sweep_sound(v: HtmlDotRevSweepV) -> bool {
    &&& forall|i: int| 0 <= i < v.moved.len() ==> #[trigger] v.moved[i] + v.files_leave <= v.rev
    &&& forall|i: int, j: int| 0 <= i < j < v.moved.len() ==> v.moved[i] > v.moved[j]
    &&& (v.next matches Some(n) ==> n + v.files_leave <= v.rev
        && forall|i: int| 0 <= i < v.moved.len() ==> #[trigger] v.moved[i] > n)
}

impl HtmlDotRevSweep {
    #[verifier::type_invariant]
    closed spec fn sound(self) -> bool {
        sweep_sound(self@)
    }

    /// A sweep for a page at revision `rev`. With `stop_on_skip`, the first
    /// backup that may not go ends the sweep; else it is passed over.
    pub fn new(rev: usize, files_leave: usize, days_keep: usize, stop_on_skip: bool) -> (res: HtmlDotRevSweep)
        ensures
            res@.rev == rev,
            res@.files_leave == files_leave,
            res@.days_keep == days_keep,
            res@.stop_on_skip == stop_on_skip,
            res@.next == (if files_leave <= rev { Some((rev - files_leave) as usize) } else { None::<usize> }),
            res@.moved.len() == 0,
            sweep_sound(res@),
    {
        let next = rev.checked_sub(files_leave);
        let res = HtmlDotRevSweep { rev, files_leave, days_keep, stop_on_skip, next, moved: Vec::new() };
        assert(res@.moved =~= Seq::<usize>::empty());
        res
    }

    /// The backup revision to look at next; none when the sweep is over.
    pub fn next_rev(&self) -> (res: Option<usize>)
        ensures
            res == self@.next,
    {
        self.next
    }

    /// Whether the backup looked at may go.
    pub fn should_move(&self, obs: RevFileObs) -> (res: bool)
        ensures
            res == may_move(obs, self@.days_keep),
    {
        obs.is_file && match obs.modified_days {
            Some(d) => d >= self.days_keep,
            None => false,
        } && obs.has_file_name
    }

    /// Records what became of the backup looked at: seen as `obs`, and
    /// moved (`renamed`) when it could go. The sweep goes on to the next
    /// older one, or stops.
    pub fn record(&mut self, obs: RevFileObs, renamed: bool)
        requires
            old(self)@.next is Some,
        ensures
            sweep_sound(final(self)@),
            final(self)@.rev == old(self)@.rev,
            final(self)@.files_leave == old(self)@.files_leave,
            final(self)@.days_keep == old(self)@.days_keep,
            final(self)@.stop_on_skip == old(self)@.stop_on_skip,
            ({
                let cur = old(self)@.next.unwrap();
                let mv = may_move(obs, old(self)@.days_keep);
                &&& final(self)@.moved == (if mv && renamed { old(self)@.moved.push(cur) } else { old(self)@.moved })
                &&& final(self)@.next == (if !mv && old(self)@.stop_on_skip || cur == 0 { None } else { Some((cur - 1) as usize) })
            }),
    {
        proof {
            use_type_invariant(&*self);
        }
        let cur = match self.next {
            Some(c) => c,
            None => return,
        };
        let mv = self.should_move(obs);
        let mut tmp = HtmlDotRevSweep::new(0, 1, 0, false);
        std::mem::swap(self, &mut tmp);
        proof {
            use_type_invariant(&tmp);
        }
        let ghost tv = tmp@;
        let HtmlDotRevSweep { rev, files_leave, days_keep, stop_on_skip, next: _, mut moved } = tmp;
        if mv && renamed {
            moved.push(cur);
        }
        let next = if !mv && stop_on_skip || cur == 0 {
            None
        } else {
            Some(cur - 1)
        };
        proof {
            assert(tv.next == Some(cur));
            assert forall|i: int| 0 <= i < moved@.len() implies #[trigger] moved@[i] + files_leave <= rev by {
                if i < tv.moved.len() {
                    assert(tv.moved[i] + tv.files_leave <= tv.rev);
                }
            }
        }
        *self = HtmlDotRevSweep { rev, files_leave, days_keep, stop_on_skip, next, moved };
    }

    /// The backups moved, newest first.
    pub fn moved_revs(&self) -> (res: Vec<usize>)
        ensures
            res@ == self@.moved,
    {
        let mut out = Vec::new();
        let n = self.moved.len();
        for i in 0..n
            invariant
                n == self.moved@.len(),
                out@ == self.moved@.take(i as int),
        {
            out.push(self.moved[i]);
            assert(out@ =~= self.moved@.take(i + 1));
        }
        assert(self.moved@.take(n as int) =~= self.moved@);
        out
    }

    /// How many backups were moved.
    pub fn moved_count(&self) -> (res: usize)
        ensures
            res == self@.moved.len(),
    {
        self.moved.len()
    }
}

/// A backup is moved only when it is older than the newest `files_leave`
/// revisions: a sound sweep never touches those.
pub proof fn lemma_newest_kept(v: HtmlDotRevSweepV, i: int)
    requires
        sweep_sound(v),
        0 <= i < v.moved.len(),
    ensures
        v.moved[i] + v.files_leave <= v.rev,
{
}

/// The sweep over the old-style backups `<stem>_revN.<ext>`, from 0 up,
/// stopping after `PROBES` revisions in a row that were not moved.
pub struct RevDotHtmlSweep {
    rev: usize,
    rev_max: usize,
    done: bool,
    stop_on_path_err: bool,
    moved: Vec<usize>,
}

pub struct RevDotHtmlSweepV {
    pub rev: usize,
    pub rev_max: usize,
    pub done: bool,
    pub stop_on_path_err: bool,
    pub moved: Seq<usize>,
}

impl View for RevDotHtmlSweep {
    type V = RevDotHtmlSweepV;

    closed spec fn view(&self) -> RevDotHtmlSweepV {
        RevDotHtmlSweepV { rev: self.rev, rev_max: self.rev_max, done: self.done, stop_on_path_err: self.stop_on_path_err, moved: self.moved@ }
    }
}

/// The probing never runs more than `PROBES` revisions past the last one
/// moved (or past 0), and the revisions moved rise.
pub open spec fn rev_sweep_sound(v: RevDotHtmlSweepV) -> bool {
    &&& v.rev_max <= (if v.moved.len() > 0 { v.moved.last() as int } else { 0 }) + PROBES
    &&& (!v.done ==> v.rev <= v.rev_max)
    &&& forall|i: int, j: int| 0 <= i < j < v.moved.len() ==> v.moved[i] < v.moved[j]
    &&& forall|i: int| 0 <= i < v.moved.len() ==> #[trigger] v.moved[i] < v.rev || v.done
}

impl RevDotHtmlSweep {
    #[verifier::type_invariant]
    closed spec fn sound(self) -> bool {
        rev_sweep_sound(self@)
    }

    /// A sweep from revision 0. With `stop_on_path_err`, a page whose path
    /// gives no old-style backup name ends the sweep at once.
    pub fn new(stop_on_path_err: bool) -> (res: RevDotHtmlSweep)
        ensures
            res@.rev == 0,
            res@.rev_max == PROBES,
            !res@.done,
            res@.stop_on_path_err == stop_on_path_err,
            res@.moved.len() == 0,
            rev_sweep_sound(res@),
    {
        let res = RevDotHtmlSweep { rev: 0, rev_max: PROBES, done: false, stop_on_path_err, moved: Vec::new() };
        assert(res@.moved =~= Seq::<usize>::empty());
        res
    }

    /// The revision to try next; none when the sweep is over.
    pub fn next_rev(&self) -> (res: Option<usize>)
        ensures
            res == (if self@.done { None } else { Some(self@.rev) }),
    {
        if self.done { None } else { Some(self.rev) }
    }

    /// Records the try: whether the backup's name could be made
    /// (`path_ok`) and whether it was moved.
    pub fn record(&mut self, path_ok: bool, renamed: bool)
        requires
            !old(self)@.done,
        ensures
            rev_sweep_sound(final(self)@),
            final(self)@.stop_on_path_err == old(self)@.stop_on_path_err,
            ({
                let v = old(self)@;
                if !path_ok && v.stop_on_path_err {
                    final(self)@ == RevDotHtmlSweepV { done: true, ..v }
                } else {
                    let hit = path_ok && renamed;
                    let moved = if hit { v.moved.push(v.rev) } else { v.moved };
                    let rev_max = if hit { if v.rev + PROBES <= usize::MAX { (v.rev + PROBES) as usize } else { v.rev } } else { v.rev_max };
                    &&& final(self)@.moved == moved
                    &&& final(self)@.rev_max == rev_max
                    &&& (v.rev == usize::MAX ==> final(self)@.done && final(self)@.rev == v.rev)
                    &&& (v.rev < usize::MAX ==> final(self)@.rev == v.rev + 1 && final(self)@.done == (rev_max < v.rev + 1))
                }
            }),
    {
        proof {
            use_type_invariant(&*self);
        }
        if self.done {
            return;
        }
        let mut tmp = RevDotHtmlSweep::new(false);
        std::mem::swap(self, &mut tmp);
        proof {
            use_type_invariant(&tmp);
        }
        let RevDotHtmlSweep { rev, rev_max, done, stop_on_path_err, mut moved } = tmp;
        if !path_ok && stop_on_path_err {
            *self = RevDotHtmlSweep { rev, rev_max, done: true, stop_on_path_err, moved };
            return;
        }
        let mut rev_max = rev_max;
        if path_ok && renamed {
            moved.push(rev);
            rev_max = match rev.checked_add(PROBES) {
                Some(v) => v,
                None => rev,
            };
        }
        let (new_rev, new_done) = match rev.checked_add(1) {
            Some(r) => (r, rev_max < r),
            None => (rev, true),
        };
        *self = RevDotHtmlSweep { rev: new_rev, rev_max, done: new_done, stop_on_path_err, moved };
    }

    /// How many backups were moved.
    pub fn moved_count(&self) -> (res: usize)
        ensures
            res == self@.moved.len(),
    {
        self.moved.len()
    }
}

/// What `Path::file_stem` gives for a path.
pub uninterp spec fn file_stem_result(path: Seq<char>) -> Option<Seq<char>>;

/// What `Path::extension` gives for a path.
pub uninterp spec fn extension_result(path: Seq<char>) -> Option<Seq<char>>;

/// What `Path::with_file_name` gives for a path and a file name.
pub uninterp spec fn with_file_name_result(path: Seq<char>, name: Seq<char>) -> Seq<char>;

/// Calls `Path::file_stem`. Trusted: the result is the named result.
#[verifier::external_body]
fn path_file_stem(path: &str) -> (res: Option<String>)
    ensures
        match res {
            Some(s) => file_stem_result(path@) == Some(s@),
            None => file_stem_result(path@) is None,
        },
{
    std::path::Path::new(path).file_stem().map(|s| s.to_string_lossy().into_owned())
}

/// Calls `Path::extension`. Trusted: the result is the named result.
#[verifier::external_body]
fn path_extension(path: &str) -> (res: Option<String>)
    ensures
        match res {
            Some(s) => extension_result(path@) == Some(s@),
            None => extension_result(path@) is None,
        },
{
    std::path::Path::new(path).extension().map(|s| s.to_string_lossy().into_owned())
}

/// Calls `Path::with_file_name`. Trusted: the result is the named result.
#[verifier::external_body]
fn path_with_file_name(path: &str, name: &str) -> (res: String)
    ensures
        res@ == with_file_name_result(path@, name@),
{
    std::path::Path::new(path).with_file_name(name).to_string_lossy().into_owned()
}

/// The old-style backup of revision `rev`: next to the page's file, named
/// `<stem>_rev<rev>.<extension>`.
pub open spec fn path_with_rev_dot_spec(file: Seq<char>, rev: usize) -> Option<Seq<char>> {
    match (file_stem_result(file), extension_result(file)) {
        (Some(stem), Some(ext)) => Some(with_file_name_result(file, stem + "_rev"@ + decimal(rev as nat) + "."@ + ext)),
        _ => None,
    }
}

/// The old-style backup of revision `rev` of a page.
pub fn path_with_rev_dot(page: &Page, rev: usize) -> (res: Result<String, ()>)
    ensures
        match res {
            Ok(p) => path_with_rev_dot_spec(page@.0 + page@.1, rev) == Some(p@),
            Err(_) => path_with_rev_dot_spec(page@.0 + page@.1, rev) is None,
        },
{
    let file = page.file_path();
    let stem = match path_file_stem(file.as_str()) {
        Some(s) => s,
        None => return Err(()),
    };
    let ext = match path_extension(file.as_str()) {
        Some(e) => e,
        None => return Err(()),
    };
    let mut name = stem;
    name.append("_rev");
    push_decimal(&mut name, rev);
    name.append(".");
    name.append(ext.as_str());
    Ok(path_with_file_name(file.as_str(), name.as_str()))
}

/// The directory the moved backups go to: `gabage` under the store's root.
pub fn dir_gabage(page: &Page) -> (res: String)
    ensures
        res@ == page@.0 + "/gabage"@,
{
    let mut d = page.stor_root().to_owned();
    d.append("/gabage");
    d
}

/// Whether a page's path names a backup revision, such as `abc.html.003`.
pub fn is_end_with_rev(page: &Page) -> (res: bool)
    ensures
        res == (regex_find_result(REV_SUFFIX_PATTERN@, encode_utf8(page@.1)) is Some),
{
    regex_find(REV_SUFFIX_PATTERN, page.page_path().as_bytes()).is_some()
}

} // verus!
