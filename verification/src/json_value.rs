//! A model of the JSON values of the `json` crate.
use vstd::prelude::*;

verus! {

/// A JSON number as the `json` crate keeps it: sign, integer mantissa and
/// decimal exponent (`Number::as_parts`).
#[derive(Clone, Copy, PartialEq, Eq, Structural)]
pub struct JsonNumber {
    pub positive: bool,
    pub mantissa: u64,
    pub exponent: i16,
}

/// A JSON value, with the variants of `json::JsonValue`: a string of at most
/// 30 bytes is `Short`, a longer one `Str`; object entries keep their order.
pub enum Json {
    Null,
    Short(String),
    Str(String),
    Number(JsonNumber),
    Boolean(bool),
    Object(Vec<(String, Json)>),
    Array(Vec<Json>),
}

/// The mathematical value of a `Json`.
pub enum JsonV {
    Null,
    Short(Seq<char>),
    Str(Seq<char>),
    Number(JsonNumber),
    Boolean(bool),
    Object(Seq<(Seq<char>, JsonV)>),
    Array(Seq<JsonV>),
}

pub open spec fn json_view(j: Json) -> JsonV
    decreases j,
{
    match j {
        Json::Null => JsonV::Null,
        Json::Short(s) => JsonV::Short(s@),
        Json::Str(s) => JsonV::Str(s@),
        Json::Number(n) => JsonV::Number(n),
        Json::Boolean(b) => JsonV::Boolean(b),
        Json::Object(e) => JsonV::Object(entries_view(e@)),
        Json::Array(a) => JsonV::Array(items_view(a@)),
    }
}

pub open spec fn entries_view(e: Seq<(String, Json)>) -> Seq<(Seq<char>, JsonV)>
    decreases e,
{
    if e.len() == 0 {
        Seq::empty()
    } else {
        entries_view(e.drop_last()).push((e.last().0@, json_view(e.last().1)))
    }
}

pub open spec fn items_view(a: Seq<Json>) -> Seq<JsonV>
    decreases a,
{
    if a.len() == 0 {
        Seq::empty()
    } else {
        items_view(a.drop_last()).push(json_view(a.last()))
    }
}

impl View for Json {
    type V = JsonV;

    open spec fn view(&self) -> JsonV {
        json_view(*self)
    }
}


/// The contents of each entry of an object.
pub proof fn lemma_entries_view(e: Seq<(String, Json)>)
    ensures
        entries_view(e).len() == e.len(),
        forall|i: int| 0 <= i < e.len() ==> #[trigger] entries_view(e)[i] == (e[i].0@, json_view(e[i].1)),
    decreases e.len(),
{
    if e.len() > 0 {
        lemma_entries_view(e.drop_last());
    }
}

/// The contents of each item of an array.
pub proof fn lemma_items_view(a: Seq<Json>)
    ensures
        items_view(a).len() == a.len(),
        forall|i: int| 0 <= i < a.len() ==> #[trigger] items_view(a)[i] == json_view(a[i]),
    decreases a.len(),
{
    if a.len() > 0 {
        lemma_items_view(a.drop_last());
    }
}

/// The position of the first entry with key `k` at or after `i`, or -1.
pub open spec fn key_index_from(e: Seq<(Seq<char>, JsonV)>, k: Seq<char>, i: int) -> int
    decreases e.len() - i,
{
    if i < 0 || i >= e.len() {
        -1
    } else if e[i].0 == k {
        i
    } else {
        key_index_from(e, k, i + 1)
    }
}

/// The position of the first entry with key `k`, or -1.
pub open spec fn key_index(e: Seq<(Seq<char>, JsonV)>, k: Seq<char>) -> int {
    key_index_from(e, k, 0)
}

pub proof fn lemma_key_index_from(e: Seq<(Seq<char>, JsonV)>, k: Seq<char>, i: int)
    requires
        0 <= i,
    ensures
        key_index_from(e, k, i) == -1 || (i <= key_index_from(e, k, i) < e.len() && e[key_index_from(e, k, i)].0 == k),
        key_index_from(e, k, i) == -1 ==> forall|j: int| i <= j < e.len() ==> #[trigger] e[j].0 != k,
        forall|j: int| i <= j < key_index_from(e, k, i) ==> #[trigger] e[j].0 != k,
    decreases e.len() - i,
{
    if i < e.len() && e[i].0 != k {
        lemma_key_index_from(e, k, i + 1);
    }
}

/// The first position of key `k`, characterised.
pub proof fn lemma_key_index(e: Seq<(Seq<char>, JsonV)>, k: Seq<char>)
    ensures
        key_index(e, k) == -1 || (0 <= key_index(e, k) < e.len() && e[key_index(e, k)].0 == k),
        key_index(e, k) == -1 ==> forall|j: int| 0 <= j < e.len() ==> #[trigger] e[j].0 != k,
        forall|j: int| 0 <= j < key_index(e, k) ==> #[trigger] e[j].0 != k,
{
    lemma_key_index_from(e, k, 0);
}

/// The first entry with key `k` is at `i`.
pub proof fn lemma_key_index_at(e: Seq<(Seq<char>, JsonV)>, k: Seq<char>, i: int)
    requires
        0 <= i < e.len(),
        e[i].0 == k,
        forall|j: int| 0 <= j < i ==> #[trigger] e[j].0 != k,
    ensures
        key_index(e, k) == i,
{
    lemma_key_index(e, k);
    assert(e[i].0 == k);
}

/// The value under key `k` of an object, `None` when absent or when `j` is
/// not an object.
pub open spec fn jv_lookup(j: JsonV, k: Seq<char>) -> Option<JsonV> {
    match j {
        JsonV::Object(e) => {
            let i = key_index(e, k);
            if i >= 0 { Some(e[i].1) } else { None }
        },
        _ => None,
    }
}

/// `j[k]`: the value under key `k`, `Null` when there is none.
pub open spec fn jv_get(j: JsonV, k: Seq<char>) -> JsonV {
    match jv_lookup(j, k) {
        Some(v) => v,
        None => JsonV::Null,
    }
}

/// `j[k] = v`: a value that is not an object becomes an empty object first;
/// an existing key keeps its place, a new one goes last.
pub open spec fn jv_set(j: JsonV, k: Seq<char>, v: JsonV) -> JsonV {
    match j {
        JsonV::Object(e) => {
            let i = key_index(e, k);
            if i >= 0 {
                JsonV::Object(e.update(i, (k, v)))
            } else {
                JsonV::Object(e.push((k, v)))
            }
        },
        _ => JsonV::Object(seq![(k, v)]),
    }
}

/// `j[k0][k1]..`: reading along a path of keys.
pub open spec fn jv_get_path(j: JsonV, keys: Seq<Seq<char>>) -> JsonV
    decreases keys.len(),
{
    if keys.len() == 0 {
        j
    } else {
        jv_get_path(jv_get(j, keys[0]), keys.drop_first())
    }
}

/// `j[k0][k1].. = v`: writing along a path of keys.
pub open spec fn jv_set_path(j: JsonV, keys: Seq<Seq<char>>, v: JsonV) -> JsonV
    decreases keys.len(),
{
    if keys.len() == 0 {
        v
    } else {
        jv_set(j, keys[0], jv_set_path(jv_get(j, keys[0]), keys.drop_first(), v))
    }
}

/// Setting a key twice keeps the second value.
pub proof fn lemma_set_set(j: JsonV, k: Seq<char>, a: JsonV, b: JsonV)
    ensures
        jv_set(jv_set(j, k, a), k, b) == jv_set(j, k, b),
{
    lemma_set_index(j, k, a);
    match j {
        JsonV::Object(e) => {
            lemma_key_index(e, k);
        },
        _ => {},
    }
    match j {
        JsonV::Object(e) => {
            let i = key_index(e, k);
            if i >= 0 {
                assert(e.update(i, (k, a)).update(i, (k, b)) =~= e.update(i, (k, b)));
            } else {
                assert(e.push((k, a)).update(e.len() as int, (k, b)) =~= e.push((k, b)));
            }
        },
        _ => {
            assert(seq![(k, a)].update(0, (k, b)) =~= seq![(k, b)]);
        },
    }
}

/// Where `j[k] = v` puts the key: in its old place, or last.
pub proof fn lemma_set_index(j: JsonV, k: Seq<char>, v: JsonV)
    ensures
        jv_set(j, k, v) is Object,
        ({
            let e2 = jv_set(j, k, v)->Object_0;
            let i = key_index(e2, k);
            &&& 0 <= i < e2.len()
            &&& e2[i] == (k, v)
            &&& j is Object ==> (key_index(j->Object_0, k) >= 0 ==> i == key_index(j->Object_0, k))
            &&& j is Object ==> (key_index(j->Object_0, k) < 0 ==> i == j->Object_0.len())
            &&& j !is Object ==> i == 0
        }),
{
    match j {
        JsonV::Object(e) => {
            lemma_key_index(e, k);
            let i = key_index(e, k);
            if i >= 0 {
                let e2 = e.update(i, (k, v));
                assert forall|x: int| 0 <= x < i implies #[trigger] e2[x].0 != k by {
                    assert(e[x].0 != k);
                }
                lemma_key_index_at(e2, k, i);
            } else {
                let e2 = e.push((k, v));
                assert forall|x: int| 0 <= x < e.len() implies #[trigger] e2[x].0 != k by {
                    assert(e[x].0 != k);
                }
                lemma_key_index_at(e2, k, e.len() as int);
            }
        },
        _ => {
            lemma_key_index_at(seq![(k, v)], k, 0);
        },
    }
}

/// After `j[k] = v`, `j[k]` reads `v`.
pub proof fn lemma_get_set(j: JsonV, k: Seq<char>, v: JsonV)
    ensures
        jv_lookup(jv_set(j, k, v), k) == Some(v),
{
    lemma_set_index(j, k, v);
}

/// After `j[k] = v`, the other keys read as before.
pub proof fn lemma_get_set_other(j: JsonV, k: Seq<char>, v: JsonV, other: Seq<char>)
    requires
        other != k,
        j is Object,
    ensures
        jv_lookup(jv_set(j, k, v), other) == jv_lookup(j, other),
{
    let e = j->Object_0;
    lemma_key_index(e, k);
    lemma_key_index(e, other);
    let i = key_index(e, k);
    let e2 = if i >= 0 { e.update(i, (k, v)) } else { e.push((k, v)) };
    lemma_key_index(e2, other);
    let o = key_index(e, other);
    let o2 = key_index(e2, other);
    if o >= 0 {
        assert(e2[o].0 == other);
        assert(o2 <= o);
        if o2 < o {
            assert(e2[o2].0 == e[o2].0);
        }
    } else if o2 >= 0 {
        assert(e2[o2].0 == e[o2].0);
    }
}

/// The position of the first entry with key `key`.
fn position(entries: &Vec<(String, Json)>, key: &str) -> (res: Option<usize>)
    ensures
        match res {
            Some(i) => key_index(entries_view(entries@), key@) == i && i < entries@.len(),
            None => key_index(entries_view(entries@), key@) == -1,
        },
{
    let ghost ev = entries_view(entries@);
    proof {
        lemma_entries_view(entries@);
    }
    let k = key.to_owned();
    let n = entries.len();
    let mut i: usize = 0;
    while i < n
        invariant
            n == entries@.len(),
            ev == entries_view(entries@),
            ev.len() == n,
            forall|x: int| 0 <= x < n ==> #[trigger] ev[x] == (entries@[x].0@, json_view(entries@[x].1)),
            0 <= i <= n,
            k@ == key@,
            key_index(ev, key@) == key_index_from(ev, key@, i as int),
        decreases n - i,
    {
        if entries[i].0 == k {
            assert(ev[i as int].0 == key@);
            return Some(i);
        }
        i = i + 1;
    }
    None
}

/// The contents of each key of a path.
pub open spec fn strs_view(keys: Seq<&str>) -> Seq<Seq<char>> {
    keys.map_values(|k: &str| k@)
}

/// Whether a value counts as empty (`JsonValue::is_empty`): null, an empty
/// string, array or object, a zero number, `false`.
pub open spec fn jv_is_empty(j: JsonV) -> bool {
    match j {
        JsonV::Null => true,
        JsonV::Short(s) => s.len() == 0,
        JsonV::Str(s) => s.len() == 0,
        JsonV::Number(n) => n.mantissa == 0,
        JsonV::Boolean(b) => !b,
        JsonV::Object(e) => e.len() == 0,
        JsonV::Array(a) => a.len() == 0,
    }
}

/// The text of a string value.
pub open spec fn jv_as_str(j: JsonV) -> Option<Seq<char>> {
    match j {
        JsonV::Short(s) => Some(s),
        JsonV::Str(s) => Some(s),
        _ => None,
    }
}

/// A string value: short when its UTF-8 encoding has at most 30 bytes.
pub open spec fn jv_string(s: Seq<char>) -> JsonV {
    if vstd::utf8::encode_utf8(s).len() <= 30 {
        JsonV::Short(s)
    } else {
        JsonV::Str(s)
    }
}

/// A non-negative integer value.
pub open spec fn jv_usize(n: usize) -> JsonV {
    JsonV::Number(JsonNumber { positive: true, mantissa: n as u64, exponent: 0 })
}

/// Reading a path in `Null` gives `Null`.
pub proof fn lemma_get_path_null(keys: Seq<Seq<char>>)
    ensures
        jv_get_path(JsonV::Null, keys) == JsonV::Null,
    decreases keys.len(),
{
    if keys.len() > 0 {
        lemma_get_path_null(keys.drop_first());
    }
}

impl Json {
    /// `self[key]`: the value under `key` when `self` is an object that has it.
    pub fn get(&self, key: &str) -> (res: Option<&Json>)
        ensures
            match res {
                Some(v) => jv_lookup(self@, key@) == Some(v@),
                None => jv_lookup(self@, key@) is None,
            },
    {
        match self {
            Json::Object(entries) => {
                proof {
                    lemma_entries_view(entries@);
                }
                match position(entries, key) {
                    Some(i) => {
                        let r = &entries[i].1;
                        assert(entries_view(entries@)[i as int] == (entries@[i as int].0@, r@));
                        Some(r)
                    },
                    None => None,
                }
            },
            _ => None,
        }
    }

    /// `self[key] = value`.
    pub fn set(&mut self, key: &str, value: Json)
        ensures
            final(self)@ == jv_set(old(self)@, key@, value@),
    {
        let mut cur = Json::Null;
        std::mem::swap(self, &mut cur);
        let v = Json::take_set(cur, key, value);
        *self = v.0;
    }

    /// `self[key] = value`, on an owned value; gives back the value that was
    /// under `key` (`Null` when there was none).
    fn take_set(cur: Json, key: &str, value: Json) -> (res: (Json, Json))
        ensures
            res.0@ == jv_set(cur@, key@, value@),
            res.1@ == jv_get(cur@, key@),
    {
        let k = key.to_owned();
        match cur {
            Json::Object(mut entries) => {
                let ghost ev = entries_view(entries@);
                proof {
                    lemma_entries_view(entries@);
                }
                match position(&entries, key) {
                    Some(i) => {
                        let mut slot = (k, value);
                        entries.set_and_swap(i, &mut slot);
                        proof {
                            lemma_entries_view(entries@);
                            assert(entries_view(entries@) =~= ev.update(i as int, (key@, value@)));
                        }
                        (Json::Object(entries), slot.1)
                    },
                    None => {
                        let ghost before = entries@;
                        entries.push((k, value));
                        proof {
                            assert(entries@.drop_last() =~= before);
                        }
                        (Json::Object(entries), Json::Null)
                    },
                }
            },
            _ => {
                let mut entries: Vec<(String, Json)> = Vec::new();
                entries.push((k, value));
                proof {
                    assert(entries@.drop_last() =~= Seq::<(String, Json)>::empty());
                    assert(entries_view(Seq::<(String, Json)>::empty()) =~= Seq::empty());
                    assert(entries_view(entries@) =~= seq![(key@, value@)]);
                }
                (Json::Object(entries), Json::Null)
            },
        }
    }

    /// Takes the value under `key` out, leaving `Null` in its place (the key
    /// is added, and a value that is not an object becomes one, as with
    /// `self[key]` taken mutably).
    pub fn take(&mut self, key: &str) -> (res: Json)
        ensures
            res@ == jv_get(old(self)@, key@),
            final(self)@ == jv_set(old(self)@, key@, JsonV::Null),
    {
        let mut cur = Json::Null;
        std::mem::swap(self, &mut cur);
        let (now, taken) = Json::take_set(cur, key, Json::Null);
        *self = now;
        taken
    }

    /// `self[keys[0]][keys[1]].. = value`.
    pub fn set_path(&mut self, keys: &[&str], value: Json)
        ensures
            final(self)@ == jv_set_path(old(self)@, strs_view(keys@), value@),
    {
        self.set_path_from(keys, 0, value);
        assert(strs_view(keys@).subrange(0, keys@.len() as int) =~= strs_view(keys@));
    }

    fn set_path_from(&mut self, keys: &[&str], i: usize, value: Json)
        requires
            i <= keys@.len(),
        ensures
            final(self)@ == jv_set_path(old(self)@, strs_view(keys@).subrange(i as int, keys@.len() as int), value@),
        decreases keys@.len() - i,
    {
        let ghost rest = strs_view(keys@).subrange(i as int, keys@.len() as int);
        if i == keys.len() {
            *self = value;
        } else {
            let key = keys[i];
            let ghost s0 = self@;
            let mut child = self.take(key);
            child.set_path_from(keys, i + 1, value);
            let ghost c = child@;
            self.set(key, child);
            proof {
                assert(rest[0] == key@);
                assert(rest.drop_first() =~= strs_view(keys@).subrange(i + 1, keys@.len() as int));
                lemma_set_set(s0, key@, JsonV::Null, c);
            }
        }
    }

    /// Takes the value at a path out, leaving `Null` there (keys along the
    /// path are added as `self[k0][k1]..` taken mutably adds them).
    pub fn take_path(&mut self, keys: &[&str]) -> (res: Json)
        ensures
            res@ == jv_get_path(old(self)@, strs_view(keys@)),
            final(self)@ == jv_set_path(old(self)@, strs_view(keys@), JsonV::Null),
    {
        assert(strs_view(keys@).subrange(0, keys@.len() as int) =~= strs_view(keys@));
        self.take_path_from(keys, 0)
    }

    fn take_path_from(&mut self, keys: &[&str], i: usize) -> (res: Json)
        requires
            i <= keys@.len(),
        ensures
            res@ == jv_get_path(old(self)@, strs_view(keys@).subrange(i as int, keys@.len() as int)),
            final(self)@ == jv_set_path(old(self)@, strs_view(keys@).subrange(i as int, keys@.len() as int), JsonV::Null),
        decreases keys@.len() - i,
    {
        let ghost rest = strs_view(keys@).subrange(i as int, keys@.len() as int);
        if i == keys.len() {
            let mut out = Json::Null;
            std::mem::swap(self, &mut out);
            out
        } else {
            let key = keys[i];
            let ghost s0 = self@;
            let mut child = self.take(key);
            let res = child.take_path_from(keys, i + 1);
            let ghost c = child@;
            self.set(key, child);
            proof {
                assert(rest[0] == key@);
                assert(rest.drop_first() =~= strs_view(keys@).subrange(i + 1, keys@.len() as int));
                lemma_set_set(s0, key@, JsonV::Null, c);
            }
            res
        }
    }

    /// `self[keys[0]][keys[1]]..`, `None` standing for the `Null` that a
    /// missing key reads as.
    pub fn get_path(&self, keys: &[&str]) -> (res: Option<&Json>)
        ensures
            match res {
                Some(v) => v@ == jv_get_path(self@, strs_view(keys@)),
                None => jv_get_path(self@, strs_view(keys@)) == JsonV::Null,
            },
    {
        assert(strs_view(keys@).subrange(0, keys@.len() as int) =~= strs_view(keys@));
        self.get_path_from(keys, 0)
    }

    fn get_path_from(&self, keys: &[&str], i: usize) -> (res: Option<&Json>)
        requires
            i <= keys@.len(),
        ensures
            match res {
                Some(v) => v@ == jv_get_path(self@, strs_view(keys@).subrange(i as int, keys@.len() as int)),
                None => jv_get_path(self@, strs_view(keys@).subrange(i as int, keys@.len() as int)) == JsonV::Null,
            },
        decreases keys@.len() - i,
    {
        let ghost rest = strs_view(keys@).subrange(i as int, keys@.len() as int);
        if i == keys.len() {
            Some(self)
        } else {
            proof {
                assert(rest[0] == keys@[i as int]@);
                assert(rest.drop_first() =~= strs_view(keys@).subrange(i + 1, keys@.len() as int));
                lemma_get_path_null(rest.drop_first());
            }
            match self.get(keys[i]) {
                Some(child) => child.get_path_from(keys, i + 1),
                None => None,
            }
        }
    }

    /// A copy of the whole value.
    pub fn deep_clone(&self) -> (res: Json)
        ensures
            res@ == self@,
        decreases self,
    {
        match self {
            Json::Null => Json::Null,
            Json::Short(s) => Json::Short(s.clone()),
            Json::Str(s) => Json::Str(s.clone()),
            Json::Number(n) => Json::Number(*n),
            Json::Boolean(b) => Json::Boolean(*b),
            Json::Object(entries) => {
                let mut out: Vec<(String, Json)> = Vec::new();
                let n = entries.len();
                proof {
                    lemma_entries_view(entries@);
                }
                for i in 0..n
                    invariant
                        n == entries@.len(),
                        *self == Json::Object(*entries),
                        entries_view(out@) == entries_view(entries@).take(i as int),
                        entries_view(entries@).len() == n,
                        forall|x: int| 0 <= x < n ==> #[trigger] entries_view(entries@)[x] == (entries@[x].0@, json_view(entries@[x].1)),
                {
                    let e = &entries[i];
                    assert(decreases_to!(*self => entries@[i as int].1)) by {
                        assert(decreases_to!(*self => (*self)->Object_0));
                        assert(decreases_to!(*entries => entries@));
                        assert(decreases_to!(entries@ => entries@[i as int]));
                        assert(decreases_to!(entries@[i as int] => entries@[i as int].1));
                    }
                    let v = e.1.deep_clone();
                    let ghost before = out@;
                    out.push((e.0.clone(), v));
                    proof {
                        assert(out@.drop_last() =~= before);
                        assert(entries_view(entries@).take(i + 1) =~= entries_view(entries@).take(i as int).push(entries_view(entries@)[i as int]));
                    }
                }
                assert(entries_view(entries@).take(n as int) =~= entries_view(entries@));
                Json::Object(out)
            },
            Json::Array(items) => {
                let mut out: Vec<Json> = Vec::new();
                let n = items.len();
                proof {
                    lemma_items_view(items@);
                }
                for i in 0..n
                    invariant
                        n == items@.len(),
                        *self == Json::Array(*items),
                        items_view(out@) == items_view(items@).take(i as int),
                        items_view(items@).len() == n,
                        forall|x: int| 0 <= x < n ==> #[trigger] items_view(items@)[x] == json_view(items@[x]),
                {
                    assert(decreases_to!(*self => items@[i as int])) by {
                        assert(decreases_to!(*self => (*self)->Array_0));
                        assert(decreases_to!(*items => items@));
                        assert(decreases_to!(items@ => items@[i as int]));
                    }
                    let v = items[i].deep_clone();
                    let ghost before = out@;
                    out.push(v);
                    proof {
                        assert(out@.drop_last() =~= before);
                        assert(items_view(items@).take(i + 1) =~= items_view(items@).take(i as int).push(items_view(items@)[i as int]));
                    }
                }
                assert(items_view(items@).take(n as int) =~= items_view(items@));
                Json::Array(out)
            },
        }
    }

    /// `self[i]`: the item at `i` of an array.
    pub fn at(&self, i: usize) -> (res: Option<&Json>)
        ensures
            match res {
                Some(v) => v@ == jv_at(self@, i as int),
                None => jv_at(self@, i as int) == JsonV::Null,
            },
    {
        match self {
            Json::Array(items) => {
                proof {
                    lemma_items_view(items@);
                }
                if i < items.len() {
                    Some(&items[i])
                } else {
                    None
                }
            },
            _ => None,
        }
    }

    /// Whether the value is `Null`.
    pub fn is_null(&self) -> (res: bool)
        ensures
            res == (self@ is Null),
    {
        match self {
            Json::Null => true,
            _ => false,
        }
    }

    /// `JsonValue::is_empty`.
    pub fn is_empty(&self) -> (res: bool)
        ensures
            res == jv_is_empty(self@),
    {
        match self {
            Json::Null => true,
            Json::Short(s) => s.as_str().is_empty(),
            Json::Str(s) => s.as_str().is_empty(),
            Json::Number(n) => n.mantissa == 0,
            Json::Boolean(b) => !*b,
            Json::Object(e) => {
                proof {
                    lemma_entries_view(e@);
                }
                e.len() == 0
            },
            Json::Array(a) => {
                proof {
                    lemma_items_view(a@);
                }
                a.len() == 0
            },
        }
    }

    /// The text of a string value.
    pub fn as_str(&self) -> (res: Option<&str>)
        ensures
            match res {
                Some(s) => jv_as_str(self@) == Some(s@),
                None => jv_as_str(self@) is None,
            },
    {
        match self {
            Json::Short(s) => Some(s.as_str()),
            Json::Str(s) => Some(s.as_str()),
            _ => None,
        }
    }

    /// `self == s` as the `json` crate compares a value with a `&str`: true
    /// only for a string value with that text.
    pub fn eq_str(&self, s: &str) -> (res: bool)
        ensures
            res == (jv_as_str(self@) == Some(s@)),
    {
        let t = s.to_owned();
        match self {
            Json::Short(v) => *v == t,
            Json::Str(v) => *v == t,
            _ => false,
        }
    }

    /// A string value (`JsonValue::from(&str)`).
    pub fn string(s: &str) -> (res: Json)
        ensures
            res@ == jv_string(s@),
    {
        if s.as_bytes().len() <= 30 {
            Json::Short(s.to_owned())
        } else {
            Json::Str(s.to_owned())
        }
    }

    /// A number value (`JsonValue::from(usize)`).
    pub fn from_usize(n: usize) -> (res: Json)
        ensures
            res@ == jv_usize(n),
    {
        Json::Number(JsonNumber { positive: true, mantissa: n as u64, exponent: 0 })
    }

    /// An empty object.
    pub fn new_object() -> (res: Json)
        ensures
            res@ == JsonV::Object(Seq::empty()),
    {
        Json::Object(Vec::new())
    }

    /// An empty array.
    pub fn new_array() -> (res: Json)
        ensures
            res@ == JsonV::Array(Seq::empty()),
    {
        Json::Array(Vec::new())
    }

    /// `JsonValue::push`: appends to an array; any other value is left as it
    /// is and `false` comes back.
    pub fn push(&mut self, value: Json) -> (ok: bool)
        ensures
            ok == (old(self)@ is Array),
            ok ==> final(self)@ == JsonV::Array(old(self)@->Array_0.push(value@)),
            !ok ==> final(self)@ == old(self)@,
    {
        let mut cur = Json::Null;
        std::mem::swap(self, &mut cur);
        match cur {
            Json::Array(mut items) => {
                let ghost before = items@;
                items.push(value);
                assert(items@.drop_last() =~= before);
                *self = Json::Array(items);
                true
            },
            other => {
                *self = other;
                false
            },
        }
    }

    /// `JsonValue::len`: the number of items of an array or entries of an
    /// object, 0 for any other value.
    pub fn len(&self) -> (n: usize)
        ensures
            n == match self@ {
                JsonV::Array(a) => a.len(),
                JsonV::Object(e) => e.len(),
                _ => 0,
            },
    {
        match self {
            Json::Object(e) => {
                proof {
                    lemma_entries_view(e@);
                }
                e.len()
            },
            Json::Array(a) => {
                proof {
                    lemma_items_view(a@);
                }
                a.len()
            },
            _ => 0,
        }
    }
}

/// Appends an entry, as an object literal lists it.
pub(crate) fn entry_push(entries: &mut Vec<(String, Json)>, key: &str, value: Json)
    ensures
        entries_view(final(entries)@) == entries_view(old(entries)@).push((key@, value@)),
{
    let ghost before = entries@;
    entries.push((key.to_owned(), value));
    assert(entries@.drop_last() =~= before);
}

/// The view of an empty list of entries.
pub proof fn lemma_entries_view_empty()
    ensures
        entries_view(Seq::<(String, Json)>::empty()) == Seq::<(Seq<char>, JsonV)>::empty(),
{
}

/// The value of a number as the `json` crate's `From` of an unsigned integer
/// or of a non-negative signed one makes it.
pub open spec fn jv_num(n: nat) -> JsonV {
    JsonV::Number(JsonNumber { positive: true, mantissa: n as u64, exponent: 0 })
}

/// `j[i]`: the item at `i` of an array, `Null` when there is none.
pub open spec fn jv_at(j: JsonV, i: int) -> JsonV {
    match j {
        JsonV::Array(a) => if 0 <= i < a.len() { a[i] } else { JsonV::Null },
        _ => JsonV::Null,
    }
}

/// `JsonValue::push` on a value: an array gets the item last, any other
/// value stays as it is.
pub open spec fn jv_push(a: JsonV, item: JsonV) -> JsonV {
    match a {
        JsonV::Array(items) => JsonV::Array(items.push(item)),
        _ => a,
    }
}

/// Writing a path twice keeps the second value.
pub proof fn lemma_set_path_twice(j: JsonV, keys: Seq<Seq<char>>, a: JsonV, b: JsonV)
    ensures
        jv_set_path(jv_set_path(j, keys, a), keys, b) == jv_set_path(j, keys, b),
    decreases keys.len(),
{
    if keys.len() > 0 {
        let k = keys[0];
        let rest = keys.drop_first();
        let x = jv_set_path(jv_get(j, k), rest, a);
        lemma_get_set(j, k, x);
        lemma_set_path_twice(jv_get(j, k), rest, a, b);
        lemma_set_set(j, k, x, jv_set_path(jv_get(j, k), rest, b));
    }
}

/// After writing a path, reading it gives what was written.
pub proof fn lemma_get_set_path(j: JsonV, keys: Seq<Seq<char>>, v: JsonV)
    ensures
        jv_get_path(jv_set_path(j, keys, v), keys) == v,
    decreases keys.len(),
{
    if keys.len() > 0 {
        let k = keys[0];
        let rest = keys.drop_first();
        lemma_get_set(j, k, jv_set_path(jv_get(j, k), rest, v));
        lemma_get_set_path(jv_get(j, k), rest, v);
    }
}

/// The `json` crate's value type, carried through the conversions below.
#[verifier::external_type_specification]
#[verifier::external_body]
pub struct ExJsonValue(json::JsonValue);

/// What `json::parse` gives for a text: the value, or `None` where the text
/// is not JSON.
pub uninterp spec fn json_parse_result(src: Seq<char>) -> Option<JsonV>;

/// What `JsonValue::dump` writes for a value: compact JSON text.
pub uninterp spec fn json_dump_result(value: JsonV) -> Seq<char>;

/// Copies a value of the `json` crate into a `Json`, variant by variant.
/// Nothing is promised of it here; `json_parse` states the result.
#[verifier::external_body]
fn json_of_value(v: &json::JsonValue) -> Json {
    match v {
        json::JsonValue::Null => Json::Null,
        json::JsonValue::Short(s) => Json::Short(s.as_str().to_owned()),
        json::JsonValue::String(s) => Json::Str(s.clone()),
        json::JsonValue::Number(n) => {
            let (positive, mantissa, exponent) = n.as_parts();
            Json::Number(JsonNumber { positive, mantissa, exponent })
        },
        json::JsonValue::Boolean(b) => Json::Boolean(*b),
        json::JsonValue::Object(o) => Json::Object(o.iter().map(|(k, x)| (k.to_owned(), json_of_value(x))).collect()),
        json::JsonValue::Array(a) => Json::Array(a.iter().map(json_of_value).collect()),
    }
}

/// Copies a `Json` into a value of the `json` crate, variant by variant.
/// Nothing is promised of it here; `json_dump` states the result.
#[verifier::external_body]
fn value_of_json(j: &Json) -> json::JsonValue {
    match j {
        Json::Null => json::JsonValue::Null,
        Json::Short(s) => json::JsonValue::from(s.as_str()),
        Json::Str(s) => json::JsonValue::String(s.clone()),
        Json::Number(n) => json::JsonValue::Number(json::number::Number::from_parts(n.positive, n.mantissa, n.exponent)),
        Json::Boolean(b) => json::JsonValue::Boolean(*b),
        Json::Object(e) => json::JsonValue::Object(e.iter().map(|(k, x)| (k.as_str(), value_of_json(x))).collect()),
        Json::Array(a) => json::JsonValue::Array(a.iter().map(value_of_json).collect()),
    }
}

/// Calls `json::parse`. Trusted: the result is the named result of the text
/// (the parser is a function of its input).
#[verifier::external_body]
pub(crate) fn json_parse(src: &str) -> (res: Option<Json>)
    ensures
        match res {
            Some(j) => json_parse_result(src@) == Some(j@),
            None => json_parse_result(src@) is None,
        },
{
    match json::parse(src) {
        Ok(v) => Some(json_of_value(&v)),
        Err(_) => None,
    }
}

/// Calls `JsonValue::dump`. Trusted: the text is the named result of the value.
#[verifier::external_body]
pub(crate) fn json_dump(j: &Json) -> (res: String)
    ensures
        res@ == json_dump_result(j@),
{
    value_of_json(j).dump()
}

} // verus!
