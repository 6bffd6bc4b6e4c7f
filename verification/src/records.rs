//! Records of what a walk over the pages did to each page: left as it was
//! (already), changed (upgraded or updated), or failed. A page is recorded
//! once, under the first outcome reported for it.
use vstd::prelude::*;
use crate::page::Page;
use crate::json_value::{Json, JsonV, JsonNumber, jv_num, jv_string, jv_get, jv_set, jv_get_path, jv_set_path, strs_view, entry_push, entries_view, lemma_entries_view_empty, lemma_set_set, lemma_set_path_twice};
use crate::page_json::{subsections_path, id_next_path};
use crate::strings::{string_views, clone_strings, seq_join, decimal, usize_to_string, join_strings};

verus! {

/// The three lists of a record, in the order the pages were reported.
pub struct RecordV {
    pub already: Seq<Seq<char>>,
    pub changed: Seq<Seq<char>>,
    pub failed: Seq<Seq<char>>,
}

/// Whether a page path is in one of the lists.
pub open spec fn recorded(r: RecordV, p: Seq<char>) -> bool {
    r.already.contains(p) || r.changed.contains(p) || r.failed.contains(p)
}

/// No path occurs twice, within a list or across lists.
pub open spec fn records_distinct(r: RecordV) -> bool {
    &&& r.already.no_duplicates()
    &&& r.changed.no_duplicates()
    &&& r.failed.no_duplicates()
    &&& forall|p: Seq<char>| r.already.contains(p) ==> !r.changed.contains(p) && !r.failed.contains(p)
    &&& forall|p: Seq<char>| r.changed.contains(p) ==> !r.failed.contains(p)
}

/// The outcome reported for a page.
pub enum Outcome {
    Already,
    Changed,
    Failed,
}

/// Reporting outcome `o` for page path `p`: nothing changes when `p` is
/// already recorded, else `p` goes last in the list of `o`.
pub open spec fn record_add(r: RecordV, o: Outcome, p: Seq<char>) -> RecordV {
    if recorded(r, p) {
        r
    } else {
        match o {
            Outcome::Already => RecordV { already: r.already.push(p), ..r },
            Outcome::Changed => RecordV { changed: r.changed.push(p), ..r },
            Outcome::Failed => RecordV { failed: r.failed.push(p), ..r },
        }
    }
}

/// Once reported, a page is recorded.
pub proof fn lemma_recorded_after_add(r: RecordV, o: Outcome, p: Seq<char>)
    ensures
        recorded(record_add(r, o, p), p),
{
    if !recorded(r, p) {
        match o {
            Outcome::Already => assert(record_add(r, o, p).already.last() == p),
            Outcome::Changed => assert(record_add(r, o, p).changed.last() == p),
            Outcome::Failed => assert(record_add(r, o, p).failed.last() == p),
        }
    }
}

/// The first outcome reported for a page is the one kept: reporting the
/// same page again, with any outcome, changes nothing.
pub proof fn lemma_first_outcome_kept(r: RecordV, o1: Outcome, o2: Outcome, p: Seq<char>)
    ensures
        record_add(record_add(r, o1, p), o2, p) == record_add(r, o1, p),
{
    lemma_recorded_after_add(r, o1, p);
}

/// Reporting a page keeps every path that was recorded, in its list and
/// place, and records nothing but that page.
pub proof fn lemma_add_keeps_others(r: RecordV, o: Outcome, p: Seq<char>, q: Seq<char>)
    ensures
        r.already.is_prefix_of(record_add(r, o, p).already),
        r.changed.is_prefix_of(record_add(r, o, p).changed),
        r.failed.is_prefix_of(record_add(r, o, p).failed),
        recorded(record_add(r, o, p), q) <==> (recorded(r, q) || q == p),
{
    lemma_recorded_after_add(r, o, p);
    let r2 = record_add(r, o, p);
    assert(r.already.is_prefix_of(r2.already));
    assert(r.changed.is_prefix_of(r2.changed));
    assert(r.failed.is_prefix_of(r2.failed));
    if recorded(r, q) {
        if r.already.contains(q) {
            let i = choose|i: int| 0 <= i < r.already.len() && r.already[i] == q;
            assert(r2.already[i] == q);
        } else if r.changed.contains(q) {
            let i = choose|i: int| 0 <= i < r.changed.len() && r.changed[i] == q;
            assert(r2.changed[i] == q);
        } else {
            let i = choose|i: int| 0 <= i < r.failed.len() && r.failed[i] == q;
            assert(r2.failed[i] == q);
        }
    }
    if recorded(r2, q) && q != p && !recorded(r, p) {
        if r2.already.contains(q) {
            let i = choose|i: int| 0 <= i < r2.already.len() && r2.already[i] == q;
            if i < r.already.len() {
                assert(r.already[i] == q);
            }
        }
        if r2.changed.contains(q) {
            let i = choose|i: int| 0 <= i < r2.changed.len() && r2.changed[i] == q;
            if i < r.changed.len() {
                assert(r.changed[i] == q);
            }
        }
        if r2.failed.contains(q) {
            let i = choose|i: int| 0 <= i < r2.failed.len() && r2.failed[i] == q;
            if i < r.failed.len() {
                assert(r.failed[i] == q);
            }
        }
    }
}

/// Reporting a page keeps paths distinct.
pub proof fn lemma_add_keeps_distinct(r: RecordV, o: Outcome, p: Seq<char>)
    requires
        records_distinct(r),
    ensures
        records_distinct(record_add(r, o, p)),
{
    if !recorded(r, p) {
        let r2 = record_add(r, o, p);
        assert forall|q: Seq<char>| #[trigger] r2.already.contains(q) || r2.changed.contains(q) || r2.failed.contains(q)
            implies (r.already.contains(q) || r.changed.contains(q) || r.failed.contains(q) || q == p) by {
            lemma_add_keeps_others(r, o, p, q);
        }
        match o {
            Outcome::Already => {
                assert forall|x: int, y: int| 0 <= x < y < r2.already.len() implies r2.already[x] != r2.already[y] by {
                    if y == r.already.len() {
                        assert(r.already.contains(r.already[x]));
                    }
                }
                assert forall|q: Seq<char>| r2.already.contains(q) implies !r2.changed.contains(q) && !r2.failed.contains(q) by {
                    let i = choose|i: int| 0 <= i < r2.already.len() && r2.already[i] == q;
                    if i < r.already.len() {
                        assert(r.already.contains(q));
                    }
                }
            },
            Outcome::Changed => {
                assert forall|x: int, y: int| 0 <= x < y < r2.changed.len() implies r2.changed[x] != r2.changed[y] by {
                    if y == r.changed.len() {
                        assert(r.changed.contains(r.changed[x]));
                    }
                }
                assert forall|q: Seq<char>| r2.changed.contains(q) implies !r2.failed.contains(q) by {
                    let i = choose|i: int| 0 <= i < r2.changed.len() && r2.changed[i] == q;
                    if i < r.changed.len() {
                        assert(r.changed.contains(q));
                    }
                }
                assert forall|q: Seq<char>| r2.already.contains(q) implies !r2.changed.contains(q) && !r2.failed.contains(q) by {
                    if r2.changed.contains(q) {
                        let i = choose|i: int| 0 <= i < r2.changed.len() && r2.changed[i] == q;
                        if i < r.changed.len() {
                            assert(r.changed.contains(q));
                        }
                    }
                }
            },
            Outcome::Failed => {
                assert forall|x: int, y: int| 0 <= x < y < r2.failed.len() implies r2.failed[x] != r2.failed[y] by {
                    if y == r.failed.len() {
                        assert(r.failed.contains(r.failed[x]));
                    }
                }
                assert forall|q: Seq<char>| r2.changed.contains(q) implies !r2.failed.contains(q) by {
                    if r2.failed.contains(q) {
                        let i = choose|i: int| 0 <= i < r2.failed.len() && r2.failed[i] == q;
                        if i < r.failed.len() {
                            assert(r.failed.contains(q));
                        }
                    }
                }
                assert forall|q: Seq<char>| r2.already.contains(q) implies !r2.changed.contains(q) && !r2.failed.contains(q) by {
                    if r2.failed.contains(q) {
                        let i = choose|i: int| 0 <= i < r2.failed.len() && r2.failed[i] == q;
                        if i < r.failed.len() {
                            assert(r.failed.contains(q));
                        }
                    }
                }
            },
        }
    }
}

/// Whether a list holds a string.
fn contains_str(list: &Vec<String>, s: &str) -> (res: bool)
    ensures
        res == string_views(list@).contains(s@),
{
    let t = s.to_owned();
    let n = list.len();
    for i in 0..n
        invariant
            n == list@.len(),
            t@ == s@,
            forall|j: int| 0 <= j < i ==> list@[j]@ != s@,
    {
        if list[i] == t {
            assert(string_views(list@)[i as int] == s@);
            return true;
        }
    }
    assert forall|j: int| 0 <= j < string_views(list@).len() implies string_views(list@)[j] != s@ by {
        assert(list@[j]@ != s@);
    }
    false
}

/// What a walk over the pages did to each page.
pub struct PathRecord {
    already: Vec<String>,
    changed: Vec<String>,
    failed: Vec<String>,
}

impl View for PathRecord {
    type V = RecordV;

    closed spec fn view(&self) -> RecordV {
        RecordV {
            already: string_views(self.already@),
            changed: string_views(self.changed@),
            failed: string_views(self.failed@),
        }
    }
}

impl PathRecord {
    #[verifier::type_invariant]
    closed spec fn distinct(self) -> bool {
        records_distinct(self@)
    }

    /// An empty record.
    pub fn new() -> (res: PathRecord)
        ensures
            res@.already.len() == 0,
            res@.changed.len() == 0,
            res@.failed.len() == 0,
            records_distinct(res@),
    {
        let res = PathRecord { already: Vec::new(), changed: Vec::new(), failed: Vec::new() };
        assert(res@.already =~= Seq::<Seq<char>>::empty());
        assert(res@.changed =~= Seq::<Seq<char>>::empty());
        assert(res@.failed =~= Seq::<Seq<char>>::empty());
        res
    }

    /// Whether page path `p` is recorded.
    pub fn handled_path(&self, p: &str) -> (res: bool)
        ensures
            res == recorded(self@, p@),
    {
        contains_str(&self.already, p) || contains_str(&self.changed, p) || contains_str(&self.failed, p)
    }

    /// Reports outcome `o` for page path `p`.
    pub fn add(&mut self, o: Outcome, p: &str)
        ensures
            final(self)@ == record_add(old(self)@, o, p@),
            records_distinct(final(self)@),
    {
        proof {
            use_type_invariant(&*self);
            lemma_add_keeps_distinct(self@, o, p@);
        }
        if self.handled_path(p) {
            return;
        }
        let ghost v0 = self@;
        let path = p.to_owned();
        match o {
            Outcome::Already => {
                let mut list = Vec::new();
                std::mem::swap(&mut list, &mut self.already);
                list.push(path);
                proof {
                    assert(string_views(list@) =~= v0.already.push(p@));
                }
                self.already = list;
            },
            Outcome::Changed => {
                let mut list = Vec::new();
                std::mem::swap(&mut list, &mut self.changed);
                list.push(path);
                proof {
                    assert(string_views(list@) =~= v0.changed.push(p@));
                }
                self.changed = list;
            },
            Outcome::Failed => {
                let mut list = Vec::new();
                std::mem::swap(&mut list, &mut self.failed);
                list.push(path);
                proof {
                    assert(string_views(list@) =~= v0.failed.push(p@));
                }
                self.failed = list;
            },
        }
        proof {
            use_type_invariant(&*self);
        }
    }

    pub fn already_list(&self) -> (res: Vec<String>)
        ensures
            string_views(res@) == self@.already,
    {
        clone_strings(&self.already)
    }

    pub fn changed_list(&self) -> (res: Vec<String>)
        ensures
            string_views(res@) == self@.changed,
    {
        clone_strings(&self.changed)
    }

    pub fn failed_list(&self) -> (res: Vec<String>)
        ensures
            string_views(res@) == self@.failed,
    {
        clone_strings(&self.failed)
    }
}

/// The results of upgrading the pages.
pub struct Upres {
    record: PathRecord,
}

impl View for Upres {
    type V = RecordV;

    closed spec fn view(&self) -> RecordV {
        self.record@
    }
}

impl Upres {
    pub fn new() -> (res: Upres)
        ensures
            res@.already.len() == 0,
            res@.changed.len() == 0,
            res@.failed.len() == 0,
            records_distinct(res@),
    {
        Upres { record: PathRecord::new() }
    }

    /// Whether the page is recorded already.
    pub fn handled(&self, page: &Page) -> (res: bool)
        ensures
            res == recorded(self@, page@.1),
    {
        self.record.handled_path(page.page_path())
    }

    /// Records the page as already in the current form, unless it is recorded.
    pub fn already(&mut self, page: &Page)
        ensures
            final(self)@ == record_add(old(self)@, Outcome::Already, page@.1),
            records_distinct(final(self)@),
    {
        self.record.add(Outcome::Already, page.page_path());
    }

    /// Records the page as upgraded, unless it is recorded.
    pub fn upgraded(&mut self, page: &Page)
        ensures
            final(self)@ == record_add(old(self)@, Outcome::Changed, page@.1),
            records_distinct(final(self)@),
    {
        self.record.add(Outcome::Changed, page.page_path());
    }

    /// Records the page as failed, unless it is recorded.
    pub fn failed(&mut self, page: &Page)
        ensures
            final(self)@ == record_add(old(self)@, Outcome::Failed, page@.1),
            records_distinct(final(self)@),
    {
        self.record.add(Outcome::Failed, page.page_path());
    }

    pub fn upgraded_list(&self) -> (res: Vec<String>)
        ensures
            string_views(res@) == self@.changed,
    {
        self.record.changed_list()
    }

    pub fn already_list(&self) -> (res: Vec<String>)
        ensures
            string_views(res@) == self@.already,
    {
        self.record.already_list()
    }

    pub fn failed_list(&self) -> (res: Vec<String>)
        ensures
            string_views(res@) == self@.failed,
    {
        self.record.failed_list()
    }

    /// The record itself.
    pub fn record(&self) -> (res: &PathRecord)
        ensures
            res@ == self@,
    {
        &self.record
    }
}

/// The results of updating the pages' form.
pub struct Log {
    record: PathRecord,
}

impl View for Log {
    type V = RecordV;

    closed spec fn view(&self) -> RecordV {
        self.record@
    }
}

impl Log {
    pub fn new() -> (res: Log)
        ensures
            res@.already.len() == 0,
            res@.changed.len() == 0,
            res@.failed.len() == 0,
            records_distinct(res@),
    {
        Log { record: PathRecord::new() }
    }

    /// Whether the page is recorded already.
    pub fn handled(&self, page: &Page) -> (res: bool)
        ensures
            res == recorded(self@, page@.1),
    {
        self.record.handled_path(page.page_path())
    }

    /// Records the page as already in the current form, unless it is recorded.
    pub fn already(&mut self, page: &Page)
        ensures
            final(self)@ == record_add(old(self)@, Outcome::Already, page@.1),
            records_distinct(final(self)@),
    {
        self.record.add(Outcome::Already, page.page_path());
    }

    /// Records the page as updated, unless it is recorded.
    pub fn updated(&mut self, page: &Page)
        ensures
            final(self)@ == record_add(old(self)@, Outcome::Changed, page@.1),
            records_distinct(final(self)@),
    {
        self.record.add(Outcome::Changed, page.page_path());
    }

    /// Records the page as failed, unless it is recorded.
    pub fn failed(&mut self, page: &Page)
        ensures
            final(self)@ == record_add(old(self)@, Outcome::Failed, page@.1),
            records_distinct(final(self)@),
    {
        self.record.add(Outcome::Failed, page.page_path());
    }

    pub fn updated_list(&self) -> (res: Vec<String>)
        ensures
            string_views(res@) == self@.changed,
    {
        self.record.changed_list()
    }

    pub fn already_list(&self) -> (res: Vec<String>)
        ensures
            string_views(res@) == self@.already,
    {
        self.record.already_list()
    }

    pub fn failed_list(&self) -> (res: Vec<String>)
        ensures
            string_views(res@) == self@.failed,
    {
        self.record.failed_list()
    }

    /// The record itself.
    pub fn record(&self) -> (res: &PathRecord)
        ensures
            res@ == self@,
    {
        &self.record
    }
}

/// A list shown as text: its length first, then its items, one per line.
pub open spec fn list_text(list: Seq<Seq<char>>) -> Seq<char> {
    seq_join(seq![decimal(list.len())] + list, "\n"@)
}

/// Puts the number of items in front of the list and joins the lines.
pub fn list_str(list: &mut Vec<String>) -> (res: String)
    ensures
        string_views(final(list)@) == seq![decimal(old(list)@.len())] + string_views(old(list)@),
        res@ == list_text(string_views(old(list)@)),
{
    let num = list.len();
    let ghost before = string_views(list@);
    list.insert(0, usize_to_string(num));
    assert(string_views(list@) =~= seq![decimal(num as nat)] + before);
    join_strings(list, "\n")
}

/// The log subsection template for `href`: parent `"0"`, id `"1"`, the
/// name as title, `#name` as href and one text content item.
pub open spec fn log_subsection_template(href: Seq<char>) -> JsonV {
    JsonV::Object(seq![
        ("parent"@, JsonV::Short("0"@)),
        ("id"@, JsonV::Short("1"@)),
        ("title"@, jv_string(href)),
        ("href"@, jv_string("#"@ + href)),
        ("content"@, JsonV::Array(seq![JsonV::Object(seq![("type"@, JsonV::Short("text"@))])])),
        ("child"@, JsonV::Array(Seq::empty())),
    ])
}

/// The log subsection `id` named `name`, whose text item holds `text`.
pub open spec fn log_subsection_spec(name: Seq<char>, id: nat, text: Seq<char>) -> JsonV {
    JsonV::Object(seq![
        ("parent"@, JsonV::Short("0"@)),
        ("id"@, jv_num(id)),
        ("title"@, jv_string(name)),
        ("href"@, jv_string("#"@ + name)),
        ("content"@, JsonV::Array(seq![JsonV::Object(seq![("type"@, JsonV::Short("text"@)), ("value"@, JsonV::Str(text))])])),
        ("child"@, JsonV::Array(Seq::empty())),
    ])
}

/// The log subsection template for `href`.
pub fn subsection_new(href: &str) -> (res: Json)
    ensures
        res@ == log_subsection_template(href@),
{
    proof {
        lemma_entries_view_empty();
    }
    let mut link = "#".to_owned();
    link.append(href);
    let mut item: Vec<(String, Json)> = Vec::new();
    entry_push(&mut item, "type", Json::Short("text".to_owned()));
    assert(entries_view(item@) =~= seq![("type"@, JsonV::Short("text"@))]);
    let mut content = Json::new_array();
    content.push(Json::Object(item));
    let mut fields: Vec<(String, Json)> = Vec::new();
    entry_push(&mut fields, "parent", Json::Short("0".to_owned()));
    entry_push(&mut fields, "id", Json::Short("1".to_owned()));
    entry_push(&mut fields, "title", Json::string(href));
    entry_push(&mut fields, "href", Json::string(link.as_str()));
    entry_push(&mut fields, "content", content);
    entry_push(&mut fields, "child", Json::new_array());
    assert(entries_view(fields@) =~= log_subsection_template(href@)->Object_0);
    Json::Object(fields)
}

/// The log subsection `id` named `name` whose text item holds `text`.
fn log_subsection(name: &str, id: u64, text: String) -> (res: Json)
    ensures
        res@ == log_subsection_spec(name@, id as nat, text@),
{
    proof {
        lemma_entries_view_empty();
    }
    let mut link = "#".to_owned();
    link.append(name);
    let mut item: Vec<(String, Json)> = Vec::new();
    entry_push(&mut item, "type", Json::Short("text".to_owned()));
    entry_push(&mut item, "value", Json::Str(text));
    let ghost iv = entries_view(item@);
    let mut content = Json::new_array();
    content.push(Json::Object(item));
    let mut fields: Vec<(String, Json)> = Vec::new();
    entry_push(&mut fields, "parent", Json::Short("0".to_owned()));
    entry_push(&mut fields, "id", Json::Number(JsonNumber { positive: true, mantissa: id, exponent: 0 }));
    entry_push(&mut fields, "title", Json::string(name));
    entry_push(&mut fields, "href", Json::string(link.as_str()));
    entry_push(&mut fields, "content", content);
    entry_push(&mut fields, "child", Json::new_array());
    assert(iv =~= seq![("type"@, JsonV::Short("text"@)), ("value"@, JsonV::Str(text@))]);
    assert(entries_view(fields@) =~= log_subsection_spec(name@, id as nat, text@)->Object_0);
    Json::Object(fields)
}

/// The list `[1, 2, 3]` of the log page's root subsection.
pub open spec fn log_children() -> JsonV {
    JsonV::Array(seq![jv_num(1), jv_num(2), jv_num(3)])
}

/// The document of a log page after the record is written into it: the
/// root subsection lists the children 1, 2, 3, which hold the failed, the
/// changed (named `changed_name`) and the already lists, and the next id is
/// 4. Nothing is written when the subsections are not an object.
pub open spec fn tracing_json(j: JsonV, changed_name: Seq<char>, r: RecordV) -> Option<JsonV> {
    let subs = jv_get_path(j, subsections_path());
    if subs !is Object {
        None
    } else {
        let root = jv_get(subs, "0"@);
        let subs1 = jv_set(subs, "0"@, jv_set(root, "child"@, log_children()));
        let subs2 = jv_set(subs1, "1"@, log_subsection_spec("failed"@, 1, list_text(r.failed)));
        let subs3 = jv_set(subs2, "2"@, log_subsection_spec(changed_name, 2, list_text(r.changed)));
        let subs4 = jv_set(subs3, "3"@, log_subsection_spec("already"@, 3, list_text(r.already)));
        Some(jv_set_path(jv_set_path(j, subsections_path(), subs4), id_next_path(), jv_num(4)))
    }
}

/// Writes a record into the document of its log page.
pub fn tracing_page_save(page_json: Json, changed_name: &str, record: &PathRecord) -> (res: Option<Json>)
    ensures
        res matches Some(j) ==> tracing_json(page_json@, changed_name@, record@) == Some(j@),
        res is None ==> tracing_json(page_json@, changed_name@, record@) is None,
{
    let keys = ["data", "subsection", "data"];
    assert(strs_view(keys@) =~= subsections_path());
    match page_json.get_path(&keys) {
        Some(Json::Object(_)) => {},
        _ => return None,
    }
    let mut j = page_json;
    let ghost j0 = j@;
    let mut subs = j.take_path(&keys);
    let ghost s0 = subs@;
    let mut root = subs.take("0");
    let mut children = Json::new_array();
    children.push(Json::from_usize(1));
    children.push(Json::from_usize(2));
    children.push(Json::from_usize(3));
    assert(children@->Array_0 =~= log_children()->Array_0);
    root.set("child", children);
    let ghost r1 = root@;
    subs.set("0", root);
    proof {
        lemma_set_set(s0, "0"@, JsonV::Null, r1);
    }
    let mut list = record.failed_list();
    subs.set("1", log_subsection("failed", 1, list_str(&mut list)));
    let mut list = record.changed_list();
    subs.set("2", log_subsection(changed_name, 2, list_str(&mut list)));
    let mut list = record.already_list();
    subs.set("3", log_subsection("already", 3, list_str(&mut list)));
    let ghost s4 = subs@;
    j.set_path(&keys, subs);
    proof {
        lemma_set_path_twice(j0, subsections_path(), JsonV::Null, s4);
    }
    let id_keys = ["data", "subsection", "id", "id_next"];
    assert(strs_view(id_keys@) =~= id_next_path());
    j.set_path(&id_keys, Json::from_usize(4));
    Some(j)
}

} // verus!