//! The JSON document kept in each page: its revision, its subsections and
//! where it was moved to.
use vstd::prelude::*;
use crate::json_value::{Json, JsonV, JsonNumber, jv_num, entry_push, entries_view, lemma_entries_view_empty, jv_get, jv_set, jv_lookup, jv_push, jv_string, lemma_entries_view, lemma_set_set, lemma_set_path_twice, jv_get_path, jv_set_path, strs_view, jv_as_str, jv_is_empty};
use crate::strings::{parse_unsigned, parse_unsigned_str, decimal, usize_to_string};

verus! {

/// What `to_usize` reads from a value: a non-negative integer number that
/// fits, or a short string holding a decimal number that fits.
pub open spec fn jv_to_usize(j: JsonV) -> Option<nat> {
    match j {
        JsonV::Number(n) => {
            if n.positive && n.exponent == 0 && n.mantissa <= usize::MAX {
                Some(n.mantissa as nat)
            } else {
                None
            }
        },
        JsonV::Short(s) => parse_unsigned(s, usize::MAX as nat),
        _ => None,
    }
}

/// Reads a `usize` from a number, or from a short string such as `"12"`.
pub fn to_usize(v: &Json) -> (res: Result<usize, String>)
    ensures
        match res {
            Ok(n) => jv_to_usize(v@) == Some(n as nat),
            Err(e) => jv_to_usize(v@) is None && e@ == "Failed to get value in usize."@,
        },
{
    if let Json::Number(number) = v {
        if number.positive && number.exponent == 0 && number.mantissa <= usize::MAX as u64 {
            return Ok(number.mantissa as usize);
        }
    }
    if let Json::Short(short) = v {
        if let Some(n) = parse_unsigned_str(short.as_str(), usize::MAX) {
            return Ok(n);
        }
    }
    Err("Failed to get value in usize.".to_owned())
}

pub open spec fn rev_path() -> Seq<Seq<char>> {
    seq!["data"@, "page"@, "rev"@]
}

/// The root subsection `"0"` of a new page.
pub open spec fn plain_root_subsection() -> JsonV {
    JsonV::Object(seq![
        ("parent"@, jv_num(0)),
        ("id"@, jv_num(0)),
        ("title"@, JsonV::Short(Seq::empty())),
        ("href"@, JsonV::Short(Seq::empty())),
        ("content"@, JsonV::Array(Seq::empty())),
        ("child"@, JsonV::Array(Seq::empty())),
    ])
}

/// The subsection part of a new page.
pub open spec fn plain_subsection() -> JsonV {
    JsonV::Object(seq![
        ("id"@, JsonV::Object(seq![
            ("id_next"@, jv_num(1)),
            ("id_notinuse"@, JsonV::Array(Seq::empty())),
        ])),
        ("data"@, JsonV::Object(seq![("0"@, plain_root_subsection())])),
    ])
}

/// The page part of a new page.
pub open spec fn plain_page() -> JsonV {
    JsonV::Object(seq![
        ("title"@, JsonV::Short(Seq::empty())),
        ("rev"@, jv_num(1)),
        ("rev_speculation"@, jv_num(0)),
        ("group_top"@, JsonV::Boolean(false)),
        ("moved_to"@, JsonV::Short(Seq::empty())),
    ])
}

/// The document of a new page.
pub open spec fn page_json_plain_spec() -> JsonV {
    JsonV::Object(seq![
        ("system"@, JsonV::Object(seq![("version"@, JsonV::Short("0.0.4"@))])),
        ("data"@, JsonV::Object(seq![
            ("page"@, plain_page()),
            ("navi"@, JsonV::Array(Seq::empty())),
            ("subsection"@, plain_subsection()),
        ])),
    ])
}

/// A number made from an unsigned value.
fn num(n: u64) -> (res: Json)
    ensures
        res@ == jv_num(n as nat),
{
    Json::Number(JsonNumber { positive: true, mantissa: n, exponent: 0 })
}

fn empty_short() -> (res: Json)
    ensures
        res@ == JsonV::Short(Seq::empty()),
{
    Json::Short(String::new())
}

/// The document of a new page: version `0.0.4`, revision 1, the next
/// subsection id 1 and the root subsection `"0"`.
pub fn page_json_plain() -> (res: Json)
    ensures
        res@ == page_json_plain_spec(),
{
    proof {
        lemma_entries_view_empty();
    }
    let mut root0: Vec<(String, Json)> = Vec::new();
    entry_push(&mut root0, "parent", num(0));
    entry_push(&mut root0, "id", num(0));
    entry_push(&mut root0, "title", empty_short());
    entry_push(&mut root0, "href", empty_short());
    entry_push(&mut root0, "content", Json::new_array());
    entry_push(&mut root0, "child", Json::new_array());
    assert(entries_view(root0@) =~= plain_root_subsection()->Object_0);
    let root0 = Json::Object(root0);
    let mut sub_data: Vec<(String, Json)> = Vec::new();
    entry_push(&mut sub_data, "0", root0);
    let mut sub_id: Vec<(String, Json)> = Vec::new();
    entry_push(&mut sub_id, "id_next", num(1));
    entry_push(&mut sub_id, "id_notinuse", Json::new_array());
    let mut subsection: Vec<(String, Json)> = Vec::new();
    entry_push(&mut subsection, "id", Json::Object(sub_id));
    entry_push(&mut subsection, "data", Json::Object(sub_data));
    assert(entries_view(sub_id@) =~= plain_subsection()->Object_0[0].1->Object_0);
    assert(entries_view(subsection@) =~= plain_subsection()->Object_0);
    let subsection = Json::Object(subsection);
    let mut page: Vec<(String, Json)> = Vec::new();
    entry_push(&mut page, "title", empty_short());
    entry_push(&mut page, "rev", num(1));
    entry_push(&mut page, "rev_speculation", num(0));
    entry_push(&mut page, "group_top", Json::Boolean(false));
    entry_push(&mut page, "moved_to", empty_short());
    assert(entries_view(page@) =~= plain_page()->Object_0);
    let page = Json::Object(page);
    let mut data: Vec<(String, Json)> = Vec::new();
    entry_push(&mut data, "page", page);
    entry_push(&mut data, "navi", Json::new_array());
    entry_push(&mut data, "subsection", subsection);
    let mut system: Vec<(String, Json)> = Vec::new();
    entry_push(&mut system, "version", Json::Short("0.0.4".to_owned()));
    let mut top: Vec<(String, Json)> = Vec::new();
    assert(entries_view(system@) =~= page_json_plain_spec()->Object_0[0].1->Object_0);
    assert(entries_view(data@) =~= page_json_plain_spec()->Object_0[1].1->Object_0);
    entry_push(&mut top, "system", Json::Object(system));
    entry_push(&mut top, "data", Json::Object(data));
    assert(entries_view(top@) =~= page_json_plain_spec()->Object_0);
    Json::Object(top)
}

pub open spec fn id_next_path() -> Seq<Seq<char>> {
    seq!["data"@, "subsection"@, "id"@, "id_next"@]
}

pub open spec fn subsections_path() -> Seq<Seq<char>> {
    seq!["data"@, "subsection"@, "data"@]
}

pub open spec fn moved_to_path() -> Seq<Seq<char>> {
    seq!["data"@, "page"@, "moved_to"@]
}

/// The revision a document records.
pub open spec fn pj_rev(o: Option<JsonV>) -> Option<nat> {
    match o {
        Some(j) => jv_to_usize(jv_get_path(j, rev_path())),
        None => None,
    }
}

/// The next subsection id a document records.
pub open spec fn pj_id_next(o: Option<JsonV>) -> Option<nat> {
    match o {
        Some(j) => jv_to_usize(jv_get_path(j, id_next_path())),
        None => None,
    }
}

/// Taking a new subsection id: the recorded next id, which is counted up
/// (no id when it cannot be read or counted up).
pub open spec fn pj_id_new(o: Option<JsonV>) -> (Option<JsonV>, Option<nat>) {
    match pj_id_next(o) {
        Some(id) => {
            if id + 1 <= usize::MAX {
                (Some(jv_set_path(o.unwrap(), id_next_path(), jv_num(id + 1))), Some(id))
            } else {
                (o, None)
            }
        },
        None => (o, None),
    }
}

/// The subsections of a document, when they form a non-empty object.
pub open spec fn pj_subsections(o: Option<JsonV>) -> Option<Seq<(Seq<char>, JsonV)>> {
    match o {
        Some(j) => {
            let subs = jv_get_path(j, subsections_path());
            if !jv_is_empty(subs) && subs is Object {
                Some(subs->Object_0)
            } else {
                None
            }
        },
        None => None,
    }
}

/// A new subsection record.
pub open spec fn new_subsection_spec(parent_id: nat, id: nat) -> JsonV {
    JsonV::Object(seq![("parent_id"@, jv_num(parent_id)), ("id"@, jv_num(id))])
}

/// Adding a subsection under `parent_id`: a new id is taken; the record is
/// added when the parent exists and the new id is free, and the parent's
/// `child` list gets the new id.
pub open spec fn pj_subsection_new(o: Option<JsonV>, parent_id: usize) -> (Option<JsonV>, Option<nat>) {
    let (o1, id) = pj_id_new(o);
    match id {
        None => (o1, None),
        Some(id) => {
            let j1 = o1.unwrap();
            let subs = jv_get_path(j1, subsections_path());
            let pkey = decimal(parent_id as nat);
            let ikey = decimal(id);
            if jv_is_empty(subs) || subs !is Object || jv_get(subs, pkey) is Null || jv_get(subs, ikey) !is Null {
                (o1, None)
            } else {
                let subs2 = jv_set(subs, ikey, new_subsection_spec(parent_id as nat, id));
                let parent = jv_get(subs2, pkey);
                let parent2 = jv_set(parent, "child"@, jv_push(jv_get(parent, "child"@), jv_num(id)));
                let subs3 = jv_set(subs2, pkey, parent2);
                (Some(jv_set_path(j1, subsections_path(), subs3)), Some(id))
            }
        },
    }
}

/// A subsection whose `href` reads `href`.
pub open spec fn href_matches(v: JsonV, href: Seq<char>) -> bool {
    &&& v is Object
    &&& jv_lookup(v, "href"@) matches Some(h)
    &&& jv_as_str(h) == Some(href)
}

/// The position of the first subsection at or after `i` whose `href` reads
/// `href`, or -1.
pub open spec fn href_index_from(e: Seq<(Seq<char>, JsonV)>, href: Seq<char>, i: int) -> int
    decreases e.len() - i,
{
    if i < 0 || i >= e.len() {
        -1
    } else if href_matches(e[i].1, href) {
        i
    } else {
        href_index_from(e, href, i + 1)
    }
}

/// The id of the first subsection whose `href` reads `href`, its key read as
/// a decimal number.
pub open spec fn pj_subsection_by_name(o: Option<JsonV>, href: Seq<char>) -> Option<nat> {
    match pj_subsections(o) {
        Some(e) => {
            let i = href_index_from(e, href, 0);
            if i >= 0 { parse_unsigned(e[i].0, usize::MAX as nat) } else { None }
        },
        None => None,
    }
}

/// Where a document says its page was moved to.
pub open spec fn pj_moved_to(o: Option<JsonV>) -> Option<Seq<char>> {
    match o {
        Some(j) => {
            let m = jv_get_path(j, moved_to_path());
            if jv_is_empty(m) { None } else { jv_as_str(m) }
        },
        None => None,
    }
}

/// The path of a subsection's record.
pub open spec fn subsection_path(id: nat) -> Seq<Seq<char>> {
    seq!["data"@, "subsection"@, "data"@, decimal(id)]
}

/// A page's JSON document, which may have been taken out.
pub struct PageJson {
    data: Option<Json>,
}

impl View for PageJson {
    type V = Option<JsonV>;

    closed spec fn view(&self) -> Option<JsonV> {
        match self.data {
            Some(j) => Some(j@),
            None => None,
        }
    }
}

impl PageJson {
    /// The document of a new page.
    pub fn new() -> (res: PageJson)
        ensures
            res@ == Some(page_json_plain_spec()),
    {
        PageJson { data: Some(page_json_plain()) }
    }

    pub fn from(data: Json) -> (res: PageJson)
        ensures
            res@ == Some(data@),
    {
        PageJson { data: Some(data) }
    }

    pub fn value(&self) -> (res: Option<&Json>)
        ensures
            match res {
                Some(v) => self@ == Some(v@),
                None => self@ is None,
            },
    {
        match &self.data {
            Some(v) => Some(v),
            None => None,
        }
    }

    /// Takes the document out.
    pub fn value_take(&mut self) -> (res: Option<Json>)
        ensures
            match res {
                Some(v) => old(self)@ == Some(v@),
                None => old(self)@ is None,
            },
            final(self)@ is None,
    {
        let mut out = None;
        std::mem::swap(&mut self.data, &mut out);
        out
    }

    /// The revision, `data.page.rev`.
    pub fn rev(&self) -> (res: Option<usize>)
        ensures
            match res {
                Some(r) => pj_rev(self@) == Some(r as nat),
                None => pj_rev(self@) is None,
            },
    {
        let value = self.value()?;
        let keys = ["data", "page", "rev"];
        assert(strs_view(keys@) =~= rev_path());
        match value.get_path(&keys) {
            Some(v) => to_usize(v).ok(),
            None => None,
        }
    }

    /// Replaces the document.
    pub fn value_replace(&mut self, data: Json)
        ensures
            final(self)@ == Some(data@),
    {
        self.data = Some(data);
    }

    /// Counts the revision up by one, written as a number; refused, leaving
    /// the document as it was, when there is no revision or it is the
    /// largest.
    pub fn rev_replace_one_up(&mut self) -> (res: Result<(), ()>)
        ensures
            match pj_rev(old(self)@) {
                Some(r) => if r < usize::MAX {
                    &&& res is Ok
                    &&& final(self)@ == Some(jv_set_path(old(self)@.unwrap(), rev_path(), crate::json_value::jv_usize((r + 1) as usize)))
                } else {
                    res is Err && final(self)@ == old(self)@
                },
                None => res is Err && final(self)@ == old(self)@,
            },
    {
        let rev = match self.rev_uped() {
            Some(r) => r,
            None => return Err(()),
        };
        let keys = ["data", "page", "rev"];
        assert(strs_view(keys@) =~= rev_path());
        match &mut self.data {
            Some(d) => {
                d.set_path(&keys, Json::from_usize(rev));
                Ok(())
            },
            None => Err(()),
        }
    }

    /// The revision counted up by one.
    pub fn rev_uped(&self) -> (res: Option<usize>)
        ensures
            match res {
                Some(r) => pj_rev(self@) == Some((r - 1) as nat) && r >= 1,
                None => pj_rev(self@) is None || pj_rev(self@) == Some(usize::MAX as nat),
            },
    {
        let rev = self.rev()?;
        rev.checked_add(1)
    }

    /// The next subsection id, `data.subsection.id.id_next`.
    pub fn subsection_id_next(&self) -> (res: Option<usize>)
        ensures
            match res {
                Some(r) => pj_id_next(self@) == Some(r as nat),
                None => pj_id_next(self@) is None,
            },
    {
        let value = self.value()?;
        let keys = ["data", "subsection", "id", "id_next"];
        assert(strs_view(keys@) =~= id_next_path());
        match value.get_path(&keys) {
            Some(v) => to_usize(v).ok(),
            None => None,
        }
    }

    /// Returns a new subsection id and counts the next id up.
    pub fn subsection_id_new(&mut self) -> (res: Option<usize>)
        ensures
            final(self)@ == pj_id_new(old(self)@).0,
            match res {
                Some(r) => pj_id_new(old(self)@).1 == Some(r as nat),
                None => pj_id_new(old(self)@).1 is None,
            },
    {
        let id = self.subsection_id_next()?;
        let id_next = id.checked_add(1)?;
        let keys = ["data", "subsection", "id", "id_next"];
        assert(strs_view(keys@) =~= id_next_path());
        match &mut self.data {
            Some(data) => {
                data.set_path(&keys, Json::from_usize(id_next));
            },
            None => {},
        }
        Some(id)
    }

    /// The subsections, `data.subsection.data`, when they form a non-empty
    /// object.
    pub fn subsections(&self) -> (res: Option<&Vec<(String, Json)>>)
        ensures
            match res {
                Some(e) => pj_subsections(self@) == Some(entries_view(e@)),
                None => pj_subsections(self@) is None,
            },
    {
        let value = self.value()?;
        let keys = ["data", "subsection", "data"];
        assert(strs_view(keys@) =~= subsections_path());
        let subs = value.get_path(&keys)?;
        if subs.is_empty() {
            return None;
        }
        match subs {
            Json::Object(e) => Some(e),
            _ => None,
        }
    }

    /// Whether there is a subsection besides the root one.
    pub fn subsections_data_exists(&self) -> (res: bool)
        ensures
            res == (pj_subsections(self@) matches Some(e) && e.len() > 1),
    {
        match self.subsections() {
            Some(e) => {
                proof {
                    lemma_entries_view(e@);
                }
                1 < e.len()
            },
            None => false,
        }
    }

    /// Where the page was moved to, `data.page.moved_to`, when it is set.
    pub fn moved_to(&self) -> (res: Option<String>)
        ensures
            match res {
                Some(m) => pj_moved_to(self@) == Some(m@),
                None => pj_moved_to(self@) is None,
            },
    {
        let value = self.value()?;
        let keys = ["data", "page", "moved_to"];
        assert(strs_view(keys@) =~= moved_to_path());
        let moveto = match value.get_path(&keys) {
            Some(m) => m,
            None => return None,
        };
        if moveto.is_empty() {
            return None;
        }
        match moveto.as_str() {
            Some(m) => Some(m.to_owned()),
            None => None,
        }
    }

    /// Adds a subsection under `parent_id` and returns it.
    pub fn subsection_new(&mut self, parent_id: usize) -> (res: Option<Subsection>)
        ensures
            final(self)@ == pj_subsection_new(old(self)@, parent_id).0,
            match res {
                Some(s) => pj_subsection_new(old(self)@, parent_id).1 == Some(s.id as nat),
                None => pj_subsection_new(old(self)@, parent_id).1 is None,
            },
    {
        let parent_id_str = usize_to_string(parent_id);
        let id = self.subsection_id_new()?;
        let id_str = usize_to_string(id);
        let keys = ["data", "subsection", "data"];
        assert(strs_view(keys@) =~= subsections_path());
        let ghost o1 = self@;
        {
            let subs = match self.subsections() {
                Some(e) => e,
                None => return None,
            };
            proof {
                lemma_entries_view(subs@);
            }
            let value = match self.value() {
                Some(v) => v,
                None => return None,
            };
            let subs_json = match value.get_path(&keys) {
                Some(v) => v,
                None => return None,
            };
            match subs_json.get(parent_id_str.as_str()) {
                None => return None,
                Some(p) => {
                    if p.is_null() {
                        return None;
                    }
                },
            }
            match subs_json.get(id_str.as_str()) {
                Some(x) => {
                    if !x.is_null() {
                        return None;
                    }
                },
                None => {},
            }
        }
        let mut data = match self.value_take() {
            Some(d) => d,
            None => return None,
        };
        let ghost j1 = data@;
        let mut subs = data.take_path(&keys);
        let ghost s0 = subs@;
        let mut fields: Vec<(String, Json)> = Vec::new();
        proof {
            lemma_entries_view_empty();
        }
        entry_push(&mut fields, "parent_id", Json::from_usize(parent_id));
        entry_push(&mut fields, "id", Json::from_usize(id));
        assert(entries_view(fields@) =~= new_subsection_spec(parent_id as nat, id as nat)->Object_0);
        let record = Json::Object(fields);
        subs.set(id_str.as_str(), record);
        let ghost s2 = subs@;
        let mut parent = subs.take(parent_id_str.as_str());
        let ghost p0 = parent@;
        let mut child = parent.take("child");
        let ghost c0 = child@;
        child.push(Json::from_usize(id));
        let ghost c1 = child@;
        parent.set("child", child);
        let ghost p2 = parent@;
        subs.set(parent_id_str.as_str(), parent);
        data.set_path(&keys, subs);
        self.data = Some(data);
        proof {
            lemma_set_set(p0, "child"@, JsonV::Null, c1);
            lemma_set_set(s2, parent_id_str@, JsonV::Null, p2);
            lemma_set_path_twice(j1, subsections_path(), JsonV::Null, jv_set(s2, parent_id_str@, p2));
        }
        Some(Subsection { id })
    }

    /// The subsection whose `href` reads `href_arg`, the first one where
    /// several do.
    pub fn subsection_by_name(&mut self, href_arg: &str) -> (res: Option<Subsection>)
        ensures
            final(self)@ == old(self)@,
            match res {
                Some(s) => pj_subsection_by_name(old(self)@, href_arg@) == Some(s.id as nat),
                None => pj_subsection_by_name(old(self)@, href_arg@) is None,
            },
    {
        let subsections = self.subsections()?;
        let ghost e = entries_view(subsections@);
        proof {
            lemma_entries_view(subsections@);
        }
        let n = subsections.len();
        let mut i: usize = 0;
        while i < n
            invariant
                n == subsections@.len(),
                e == entries_view(subsections@),
                e.len() == n,
                forall|x: int| 0 <= x < n ==> #[trigger] e[x] == (subsections@[x].0@, subsections@[x].1@),
                0 <= i <= n,
                href_index_from(e, href_arg@, 0) == href_index_from(e, href_arg@, i as int),
                pj_subsections(old(self)@) == Some(e),
            decreases n - i,
        {
            let entry = &subsections[i];
            let mut matched = false;
            if let Json::Object(_) = &entry.1 {
                if let Some(href) = entry.1.get("href") {
                    matched = href.eq_str(href_arg);
                }
            }
            if matched {
                assert(href_matches(e[i as int].1, href_arg@));
                assert(href_index_from(e, href_arg@, 0) == i);
                assert(e[i as int].0 == entry.0@);
                let id = parse_unsigned_str(entry.0.as_str(), usize::MAX)?;
                return Some(Subsection { id });
            }
            assert(!href_matches(e[i as int].1, href_arg@));
            i = i + 1;
        }
        None
    }
}

/// A subsection of a page's document, known by its id.
pub struct Subsection {
    pub id: usize,
}

impl Subsection {
    pub fn id(&self) -> (res: usize)
        ensures
            res == self.id,
    {
        self.id
    }

    /// Sets the subsection's `title`.
    pub fn title_set(&self, page_json: &mut PageJson, title: &str)
        ensures
            final(page_json)@ == match old(page_json)@ {
                Some(j) => Some(jv_set_path(j, subsection_path(self.id as nat).push("title"@), jv_string(title@))),
                None => None::<JsonV>,
            },
    {
        self.field_set(page_json, "title", title);
    }

    /// Sets the subsection's `href`.
    pub fn href_set(&self, page_json: &mut PageJson, href: &str)
        ensures
            final(page_json)@ == match old(page_json)@ {
                Some(j) => Some(jv_set_path(j, subsection_path(self.id as nat).push("href"@), jv_string(href@))),
                None => None::<JsonV>,
            },
    {
        self.field_set(page_json, "href", href);
    }

    fn field_set(&self, page_json: &mut PageJson, field: &str, text: &str)
        ensures
            final(page_json)@ == match old(page_json)@ {
                Some(j) => Some(jv_set_path(j, subsection_path(self.id as nat).push(field@), jv_string(text@))),
                None => None::<JsonV>,
            },
    {
        let id_str = usize_to_string(self.id);
        let keys = ["data", "subsection", "data", id_str.as_str(), field];
        assert(strs_view(keys@) =~= subsection_path(self.id as nat).push(field@));
        match &mut page_json.data {
            Some(data) => data.set_path(&keys, Json::string(text)),
            None => {},
        }
    }

    /// Makes the subsection's `content` an empty array when it is empty, so
    /// that items can be appended to it.
    pub fn contents_mut(&self, page_json: &mut PageJson)
        ensures
            final(page_json)@ == match old(page_json)@ {
                Some(j) => Some(contents_ensured(j, self.id as nat)),
                None => None::<JsonV>,
            },
    {
        let id_str = usize_to_string(self.id);
        let keys = ["data", "subsection", "data", id_str.as_str()];
        assert(strs_view(keys@) =~= subsection_path(self.id as nat));
        match &mut page_json.data {
            Some(data) => {
                let ghost j0 = data@;
                let mut record = data.take_path(&keys);
                let ghost r0 = record@;
                let empty = match record.get("content") {
                    Some(c) => c.is_empty(),
                    None => true,
                };
                if empty {
                    record.set("content", Json::new_array());
                }
                let ghost r1 = record@;
                data.set_path(&keys, record);
                proof {
                    lemma_set_path_twice(j0, subsection_path(self.id as nat), JsonV::Null, r1);
                }
            },
            None => {},
        }
    }

    /// Appends an item to the subsection's `content`, which is made an empty
    /// array first when it is empty.
    pub fn contents_push(&self, page_json: &mut PageJson, item: Json)
        ensures
            final(page_json)@ == match old(page_json)@ {
                Some(j) => Some(contents_pushed(j, self.id as nat, item@)),
                None => None::<JsonV>,
            },
    {
        let id_str = usize_to_string(self.id);
        let keys = ["data", "subsection", "data", id_str.as_str()];
        assert(strs_view(keys@) =~= subsection_path(self.id as nat));
        match &mut page_json.data {
            Some(data) => {
                let ghost j0 = data@;
                let mut record = data.take_path(&keys);
                let ghost r0 = record@;
                let mut content = record.take("content");
                if content.is_empty() {
                    content = Json::new_array();
                }
                content.push(item);
                let ghost c = content@;
                record.set("content", content);
                let ghost r1 = record@;
                data.set_path(&keys, record);
                proof {
                    lemma_set_set(r0, "content"@, JsonV::Null, c);
                    lemma_set_path_twice(j0, subsection_path(self.id as nat), JsonV::Null, r1);
                }
            },
            None => {},
        }
    }
}

/// The document with the content of subsection `id` made an empty array
/// when it is empty.
pub open spec fn contents_ensured(j: JsonV, id: nat) -> JsonV {
    let record = jv_get_path(j, subsection_path(id));
    if jv_is_empty(jv_get(record, "content"@)) {
        jv_set_path(j, subsection_path(id), jv_set(record, "content"@, JsonV::Array(Seq::empty())))
    } else {
        jv_set_path(j, subsection_path(id), record)
    }
}

/// The document after `item` is appended to the content of subsection `id`.
pub open spec fn contents_pushed(j: JsonV, id: nat, item: JsonV) -> JsonV {
    let record = jv_get_path(j, subsection_path(id));
    let content = jv_get(record, "content"@);
    let content = if jv_is_empty(content) { JsonV::Array(Seq::empty()) } else { content };
    jv_set_path(j, subsection_path(id), jv_set(record, "content"@, jv_push(content, item)))
}

} // verus!