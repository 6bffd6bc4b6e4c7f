//! The JSON document of a page in the form of version 0.0.3.
use vstd::prelude::*;
use crate::json_value::{Json, JsonV, JsonNumber, jv_num, entry_push, entries_view, lemma_entries_view_empty, jv_get_path, strs_view};
use crate::page_json::rev_path;
use crate::strings::{parse_unsigned, parse_unsigned_str};

verus! {

/// The root subsection `"0"` of a 0.0.3 document.
pub open spec fn plain3_root_subsection() -> JsonV {
    JsonV::Object(seq![
        ("parent"@, JsonV::Short(Seq::empty())),
        ("id"@, JsonV::Short("0"@)),
        ("title"@, JsonV::Short(Seq::empty())),
        ("href"@, JsonV::Short(Seq::empty())),
        ("content"@, JsonV::Array(Seq::empty())),
        ("child"@, JsonV::Array(Seq::empty())),
    ])
}

/// The subsection part of a 0.0.3 document.
pub open spec fn plain3_subsection() -> JsonV {
    JsonV::Object(seq![
        ("id"@, JsonV::Object(seq![
            ("id_next"@, jv_num(2)),
            ("id_notinuse"@, JsonV::Array(Seq::empty())),
        ])),
        ("data"@, JsonV::Object(seq![("0"@, plain3_root_subsection())])),
    ])
}

/// The page part of a 0.0.3 document.
pub open spec fn plain3_page() -> JsonV {
    JsonV::Object(seq![
        ("title"@, JsonV::Short(Seq::empty())),
        ("rev"@, jv_num(0)),
        ("rev_speculation"@, jv_num(0)),
        ("group_top"@, JsonV::Boolean(false)),
    ])
}

/// The href part of a 0.0.3 document.
pub open spec fn plain3_href() -> JsonV {
    JsonV::Object(seq![
        ("relation"@, JsonV::Object(Seq::empty())),
        ("last"@, JsonV::Object(Seq::empty())),
        ("history"@, JsonV::Object(Seq::empty())),
    ])
}

/// A new 0.0.3 document.
pub open spec fn json_plain_spec() -> JsonV {
    JsonV::Object(seq![
        ("system"@, JsonV::Object(seq![("version"@, JsonV::Short("0.0.3"@))])),
        ("data"@, JsonV::Object(seq![
            ("page"@, plain3_page()),
            ("navi"@, JsonV::Array(Seq::empty())),
            ("subsection"@, plain3_subsection()),
            ("href"@, plain3_href()),
        ])),
    ])
}

fn num(n: u64) -> (res: Json)
    ensures
        res@ == jv_num(n as nat),
{
    Json::Number(JsonNumber { positive: true, mantissa: n, exponent: 0 })
}

fn short(s: &str) -> (res: Json)
    ensures
        res@ == JsonV::Short(s@),
{
    Json::Short(s.to_owned())
}

fn empty_short() -> (res: Json)
    ensures
        res@ == JsonV::Short(Seq::empty()),
{
    Json::Short(String::new())
}

/// A new 0.0.3 document: revision 0, next subsection id 2.
pub fn json_plain() -> (res: Json)
    ensures
        res@ == json_plain_spec(),
{
    proof {
        lemma_entries_view_empty();
    }
    let mut root0: Vec<(String, Json)> = Vec::new();
    entry_push(&mut root0, "parent", empty_short());
    entry_push(&mut root0, "id", short("0"));
    entry_push(&mut root0, "title", empty_short());
    entry_push(&mut root0, "href", empty_short());
    entry_push(&mut root0, "content", Json::new_array());
    entry_push(&mut root0, "child", Json::new_array());
    assert(entries_view(root0@) =~= plain3_root_subsection()->Object_0);
    let mut sub_data: Vec<(String, Json)> = Vec::new();
    entry_push(&mut sub_data, "0", Json::Object(root0));
    let mut sub_id: Vec<(String, Json)> = Vec::new();
    entry_push(&mut sub_id, "id_next", num(2));
    entry_push(&mut sub_id, "id_notinuse", Json::new_array());
    let mut subsection: Vec<(String, Json)> = Vec::new();
    assert(entries_view(sub_id@) =~= plain3_subsection()->Object_0[0].1->Object_0);
    entry_push(&mut subsection, "id", Json::Object(sub_id));
    entry_push(&mut subsection, "data", Json::Object(sub_data));
    assert(entries_view(subsection@) =~= plain3_subsection()->Object_0);
    let mut page: Vec<(String, Json)> = Vec::new();
    entry_push(&mut page, "title", empty_short());
    entry_push(&mut page, "rev", num(0));
    entry_push(&mut page, "rev_speculation", num(0));
    entry_push(&mut page, "group_top", Json::Boolean(false));
    assert(entries_view(page@) =~= plain3_page()->Object_0);
    let mut href: Vec<(String, Json)> = Vec::new();
    entry_push(&mut href, "relation", Json::new_object());
    entry_push(&mut href, "last", Json::new_object());
    entry_push(&mut href, "history", Json::new_object());
    assert(entries_view(href@) =~= plain3_href()->Object_0);
    let mut data: Vec<(String, Json)> = Vec::new();
    entry_push(&mut data, "page", Json::Object(page));
    entry_push(&mut data, "navi", Json::new_array());
    entry_push(&mut data, "subsection", Json::Object(subsection));
    entry_push(&mut data, "href", Json::Object(href));
    let mut system: Vec<(String, Json)> = Vec::new();
    entry_push(&mut system, "version", short("0.0.3"));
    let mut top: Vec<(String, Json)> = Vec::new();
    assert(entries_view(system@) =~= json_plain_spec()->Object_0[0].1->Object_0);
    assert(entries_view(data@) =~= json_plain_spec()->Object_0[1].1->Object_0);
    entry_push(&mut top, "system", Json::Object(system));
    entry_push(&mut top, "data", Json::Object(data));
    assert(entries_view(top@) =~= json_plain_spec()->Object_0);
    Json::Object(top)
}

/// What the revision of a 0.0.3 document reads as: a non-negative integer
/// number or a short decimal string, that fits in a `u32`.
pub open spec fn contents_rev(o: Option<JsonV>) -> Option<nat> {
    match o {
        None => None,
        Some(j) => match jv_get_path(j, rev_path()) {
            JsonV::Number(n) => {
                if n.positive && n.exponent == 0 && n.mantissa <= u32::MAX {
                    Some(n.mantissa as nat)
                } else {
                    None
                }
            },
            JsonV::Short(s) => parse_unsigned(s, u32::MAX as nat),
            _ => None,
        },
    }
}

/// A page's document in the 0.0.3 form.
pub struct Contents {
    data: Option<Json>,
}

impl View for Contents {
    type V = Option<JsonV>;

    closed spec fn view(&self) -> Option<JsonV> {
        match self.data {
            Some(j) => Some(j@),
            None => None,
        }
    }
}

impl Contents {
    pub fn from(data: Json) -> (res: Contents)
        ensures
            res@ == Some(data@),
    {
        Contents { data: Some(data) }
    }

    pub fn new() -> (res: Contents)
        ensures
            res@ == Some(json_plain_spec()),
    {
        Contents { data: Some(json_plain()) }
    }

    /// Sets a new document unless there is one.
    pub fn data_plain_set(&mut self)
        ensures
            final(self)@ == (if old(self)@ is Some { old(self)@ } else { Some(json_plain_spec()) }),
    {
        if self.data.is_some() {
            return;
        }
        self.data = Some(json_plain());
    }

    pub fn data(&self) -> (res: Option<&Json>)
        ensures
            match res {
                Some(v) => self@ == Some(v@),
                None => self@ is None,
            },
    {
        match &self.data {
            Some(v) => Some(v),
            None => None,
        }
    }

    /// The current revision.
    pub fn rev(&self) -> (res: Option<u32>)
        ensures
            match res {
                Some(r) => contents_rev(self@) == Some(r as nat),
                None => contents_rev(self@) is None,
            },
    {
        let data = self.data()?;
        let keys = ["data", "page", "rev"];
        assert(strs_view(keys@) =~= rev_path());
        match data.get_path(&keys) {
            Some(Json::Number(n)) => {
                if n.positive && n.exponent == 0 && n.mantissa <= u32::MAX as u64 {
                    Some(n.mantissa as u32)
                } else {
                    None
                }
            },
            Some(Json::Short(s)) => match parse_unsigned_str(s.as_str(), u32::MAX as usize) {
                Some(v) => Some(v as u32),
                None => None,
            },
            _ => None,
        }
    }

    /// The revision counted up by one.
    pub fn rev_uped(&self) -> (res: Option<u32>)
        requires
            contents_rev(self@) != Some(u32::MAX as nat),
        ensures
            match res {
                Some(r) => contents_rev(self@) == Some((r - 1) as nat) && r >= 1,
                None => contents_rev(self@) is None,
            },
    {
        let rev = self.rev()?;
        Some(rev + 1)
    }
}

} // verus!
