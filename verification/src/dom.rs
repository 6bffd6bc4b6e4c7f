//! HTML documents as trees of plain values: read and written by
//! `html5ever`, searched and built here.
use vstd::prelude::*;
use html5ever::tendril::TendrilSink;
use markup5ever_rcdom::NodeData;

verus! {

/// A node of an HTML document.
pub enum DomNode {
    Document(Vec<DomNode>),
    /// A doctype, by its name.
    Doctype(String),
    Text(String),
    Comment(String),
    /// An element: its local name, its attributes (local name, value and
    /// namespace) in order, its children and its namespace.
    Element(String, Vec<(String, String, String)>, Vec<DomNode>, String),
    /// A processing instruction.
    Other,
}

pub enum DomV {
    Document(Seq<DomV>),
    Doctype(Seq<char>),
    Text(Seq<char>),
    Comment(Seq<char>),
    Element(Seq<char>, Seq<(Seq<char>, Seq<char>, Seq<char>)>, Seq<DomV>, Seq<char>),
    Other,
}

pub open spec fn attrs_view(a: Seq<(String, String, String)>) -> Seq<(Seq<char>, Seq<char>, Seq<char>)> {
    a.map_values(|p: (String, String, String)| (p.0@, p.1@, p.2@))
}

/// The namespace of HTML elements.
pub open spec fn html_ns() -> Seq<char> {
    "http://www.w3.org/1999/xhtml"@
}

/// Attributes without a namespace, from name and value pairs.
pub open spec fn plain_attrs(p: Seq<(Seq<char>, Seq<char>)>) -> Seq<(Seq<char>, Seq<char>, Seq<char>)> {
    p.map_values(|q: (Seq<char>, Seq<char>)| (q.0, q.1, Seq::<char>::empty()))
}

pub open spec fn dom_view(d: DomNode) -> DomV
    decreases d,
{
    match d {
        DomNode::Document(c) => DomV::Document(forest_view(c@)),
        DomNode::Doctype(n) => DomV::Doctype(n@),
        DomNode::Text(t) => DomV::Text(t@),
        DomNode::Comment(t) => DomV::Comment(t@),
        DomNode::Element(n, a, c, ns) => DomV::Element(n@, attrs_view(a@), forest_view(c@), ns@),
        DomNode::Other => DomV::Other,
    }
}

pub open spec fn forest_view(f: Seq<DomNode>) -> Seq<DomV>
    decreases f,
{
    if f.len() == 0 {
        Seq::empty()
    } else {
        forest_view(f.drop_last()).push(dom_view(f.last()))
    }
}

impl View for DomNode {
    type V = DomV;

    open spec fn view(&self) -> DomV {
        dom_view(*self)
    }
}

pub proof fn lemma_forest_view(f: Seq<DomNode>)
    ensures
        forest_view(f).len() == f.len(),
        forall|i: int| 0 <= i < f.len() ==> #[trigger] forest_view(f)[i] == dom_view(f[i]),
    decreases f.len(),
{
    if f.len() > 0 {
        lemma_forest_view(f.drop_last());
    }
}

/// The children of a node (none for a leaf).
pub open spec fn children_of(d: DomV) -> Seq<DomV> {
    match d {
        DomV::Document(c) => c,
        DomV::Element(_, _, c, _) => c,
        _ => Seq::empty(),
    }
}

/// The value of the first attribute named `name`.
pub open spec fn first_attr(attrs: Seq<(Seq<char>, Seq<char>, Seq<char>)>, name: Seq<char>) -> Option<Seq<char>>
    decreases attrs.len(),
{
    if attrs.len() == 0 {
        None
    } else if attrs[0].0 == name {
        Some(attrs[0].1)
    } else {
        first_attr(attrs.drop_first(), name)
    }
}

/// Each attribute of the pattern is there: the first attribute of that name
/// has that value.
pub open spec fn attrs_match_spec(attrs: Seq<(Seq<char>, Seq<char>, Seq<char>)>, ptn: Seq<(Seq<char>, Seq<char>)>) -> bool {
    forall|i: int| 0 <= i < ptn.len() ==> #[trigger] first_attr(attrs, ptn[i].0) == Some(ptn[i].1)
}

/// An element with the pattern's name and attributes.
pub open spec fn element_match_spec(d: DomV, name: Seq<char>, ptn: Seq<(Seq<char>, Seq<char>)>) -> bool {
    match d {
        DomV::Element(n, a, _, _) => n == name && attrs_match_spec(a, ptn),
        _ => false,
    }
}

/// The first element matching the pattern among the nodes and, when
/// `recursive`, their descendants, in document order.
pub open spec fn first_match_spec(f: Seq<DomV>, name: Seq<char>, ptn: Seq<(Seq<char>, Seq<char>)>, recursive: bool) -> Option<DomV>
    decreases f,
{
    if f.len() == 0 {
        None
    } else if element_match_spec(f[0], name, ptn) {
        Some(f[0])
    } else {
        let inner = if recursive {
            match f[0] {
                DomV::Document(c) => first_match_spec(c, name, ptn, recursive),
                DomV::Element(_, _, c, _) => first_match_spec(c, name, ptn, recursive),
                _ => None,
            }
        } else {
            None
        };
        if inner is Some {
            inner
        } else {
            first_match_spec(f.drop_first(), name, ptn, recursive)
        }
    }
}

/// A pattern of attributes as plain pairs.
pub open spec fn ptn_view(p: Seq<(&str, &str)>) -> Seq<(Seq<char>, Seq<char>)> {
    p.map_values(|x: (&str, &str)| (x.0@, x.1@))
}

/// The value of the first attribute named `name`.
pub fn first_attr_exec<'a>(attrs: &'a Vec<(String, String, String)>, name: &str) -> (res: Option<&'a String>)
    ensures
        match res {
            Some(v) => first_attr(attrs_view(attrs@), name@) == Some(v@),
            None => first_attr(attrs_view(attrs@), name@) is None,
        },
{
    let ghost av = attrs_view(attrs@);
    let key = name.to_owned();
    let n = attrs.len();
    assert(av.subrange(0, n as int) =~= av);
    for i in 0..n
        invariant
            n == attrs@.len(),
            av == attrs_view(attrs@),
            key@ == name@,
            first_attr(av, name@) == first_attr(av.subrange(i as int, n as int), name@),
    {
        assert(av.subrange(i as int, n as int)[0] == (attrs@[i as int].0@, attrs@[i as int].1@, attrs@[i as int].2@));
        assert(av.subrange(i as int, n as int).drop_first() =~= av.subrange(i + 1, n as int));
        if attrs[i].0 == key {
            return Some(&attrs[i].1);
        }
    }
    None
}

/// Whether the attributes match the pattern.
pub fn attrs_match(attrs: &Vec<(String, String, String)>, ptn: &[(&str, &str)]) -> (res: bool)
    ensures
        res == attrs_match_spec(attrs_view(attrs@), ptn_view(ptn@)),
{
    let ghost pv = ptn_view(ptn@);
    let n = ptn.len();
    for i in 0..n
        invariant
            n == ptn@.len(),
            pv == ptn_view(ptn@),
            forall|j: int| 0 <= j < i ==> #[trigger] first_attr(attrs_view(attrs@), pv[j].0) == Some(pv[j].1),
    {
        let (pn, pvalue) = ptn[i];
        match first_attr_exec(attrs, pn) {
            Some(v) => {
                if *v != pvalue.to_owned() {
                    assert(first_attr(attrs_view(attrs@), pv[i as int].0) != Some(pv[i as int].1));
                    return false;
                }
            },
            None => {
                assert(first_attr(attrs_view(attrs@), pv[i as int].0) != Some(pv[i as int].1));
                return false;
            },
        }
    }
    true
}

/// Whether a node is an element matching the pattern.
pub fn element_match(node: &DomNode, name: &str, ptn: &[(&str, &str)]) -> (res: bool)
    ensures
        res == element_match_spec(node@, name@, ptn_view(ptn@)),
{
    match node {
        DomNode::Element(n, a, _, _) => {
            if *n == name.to_owned() {
                attrs_match(a, ptn)
            } else {
                false
            }
        },
        _ => false,
    }
}

/// The children of a node.
pub fn children<'a>(node: &'a DomNode) -> (res: Option<&'a Vec<DomNode>>)
    ensures
        match res {
            Some(c) => forest_view(c@) == children_of(node@),
            None => children_of(node@) == Seq::<DomV>::empty(),
        },
{
    match node {
        DomNode::Document(c) => Some(c),
        DomNode::Element(_, _, c, _) => Some(c),
        _ => None,
    }
}

/// The first element matching the pattern among the nodes from `start` on
/// (and their descendants when `recursive`).
pub fn child_match_first_from<'a>(nodes: &'a Vec<DomNode>, start: usize, name: &str, ptn: &[(&str, &str)], recursive: bool) -> (res: Option<&'a DomNode>)
    requires
        start <= nodes@.len(),
    ensures
        match res {
            Some(d) => first_match_spec(forest_view(nodes@).subrange(start as int, nodes@.len() as int), name@, ptn_view(ptn@), recursive) == Some(d@),
            None => first_match_spec(forest_view(nodes@).subrange(start as int, nodes@.len() as int), name@, ptn_view(ptn@), recursive) is None,
        },
    decreases nodes@, nodes@.len() - start,
{
    proof {
        lemma_forest_view(nodes@);
    }
    let ghost f = forest_view(nodes@).subrange(start as int, nodes@.len() as int);
    if start >= nodes.len() {
        return None;
    }
    let node = &nodes[start];
    assert(f[0] == node@);
    assert(f.drop_first() =~= forest_view(nodes@).subrange(start + 1, nodes@.len() as int));
    if element_match(node, name, ptn) {
        return Some(node);
    }
    if recursive {
        let kids: Option<&Vec<DomNode>> = match node {
            DomNode::Document(c) => Some(c),
            DomNode::Element(_, _, c, _) => Some(c),
            _ => None,
        };
        if let Some(c) = kids {
            assert(decreases_to!(nodes@ => c@)) by {
                assert(decreases_to!(nodes@ => nodes@[start as int]));
                let n0 = nodes@[start as int];
                if n0 is Document {
                    assert(decreases_to!(n0 => n0->Document_0));
                    assert(decreases_to!(n0->Document_0 => (n0->Document_0)@));
                    assert(*c == n0->Document_0);
                } else if n0 is Element {
                    assert(decreases_to!(n0 => n0->Element_2));
                    assert(decreases_to!(n0->Element_2 => (n0->Element_2)@));
                    assert(*c == n0->Element_2);
                }
            }
            proof {
                lemma_forest_view(c@);
            }
            assert(forest_view(c@).subrange(0, c@.len() as int) =~= forest_view(c@));
            if let Some(found) = child_match_first_from(c, 0, name, ptn, recursive) {
                return Some(found);
            }
        }
    }
    child_match_first_from(nodes, start + 1, name, ptn, recursive)
}

/// The first element under `node` matching the pattern: among its children
/// (and their descendants when `recursive`), in document order.
pub fn child_match_first<'a>(node: &'a DomNode, name: &str, ptn: &[(&str, &str)], recursive: bool) -> (res: Option<&'a DomNode>)
    ensures
        match res {
            Some(d) => first_match_spec(children_of(node@), name@, ptn_view(ptn@), recursive) == Some(d@),
            None => first_match_spec(children_of(node@), name@, ptn_view(ptn@), recursive) is None,
        },
{
    match children(node) {
        Some(c) => {
            proof {
                lemma_forest_view(c@);
            }
            assert(forest_view(c@).subrange(0, c@.len() as int) =~= forest_view(c@));
            child_match_first_from(c, 0, name, ptn, recursive)
        },
        None => None,
    }
}

/// The node type of `markup5ever_rcdom`, carried through the conversions
/// below.
#[verifier::external_type_specification]
#[verifier::external_body]
pub struct ExRcNode(markup5ever_rcdom::Node);

/// The node data type of `markup5ever_rcdom`, built by the conversion below.
#[verifier::external_type_specification]
#[verifier::external_body]
pub struct ExRcNodeData(markup5ever_rcdom::NodeData);

/// The attribute type of `markup5ever`, built by the conversion below.
#[verifier::external_type_specification]
#[verifier::external_body]
pub struct ExRcAttribute(markup5ever::interface::Attribute);

/// No node of the trees is a document node.
pub open spec fn no_docs(f: Seq<DomV>) -> bool
    decreases f,
{
    if f.len() == 0 {
        true
    } else {
        (match f[0] {
            DomV::Document(_) => false,
            DomV::Element(_, _, c, _) => no_docs(c),
            _ => true,
        }) && no_docs(f.drop_first())
    }
}

/// A node that is not a document and has no document node below it.
pub open spec fn node_ok(d: DomV) -> bool {
    match d {
        DomV::Document(_) => false,
        DomV::Element(_, _, c, _) => no_docs(c),
        _ => true,
    }
}

/// No document node below the node itself: what the serializer needs.
pub open spec fn no_inner_docs(d: DomV) -> bool {
    no_docs(children_of(d))
}

/// Trees without document nodes are those whose every tree is one.
pub proof fn lemma_no_docs_all(f: Seq<DomV>)
    ensures
        no_docs(f) <==> forall|i: int| 0 <= i < f.len() ==> #[trigger] node_ok(f[i]),
    decreases f.len(),
{
    if f.len() > 0 {
        lemma_no_docs_all(f.drop_first());
        assert forall|i: int| 1 <= i < f.len() implies #[trigger] node_ok(f[i]) == node_ok(f.drop_first()[i - 1]) by {}
        if no_docs(f) {
            assert forall|i: int| 0 <= i < f.len() implies #[trigger] node_ok(f[i]) by {
                if i > 0 {
                    assert(node_ok(f.drop_first()[i - 1]));
                }
            }
        }
        if forall|i: int| 0 <= i < f.len() ==> #[trigger] node_ok(f[i]) {
            assert(node_ok(f[0]));
            assert forall|j: int| 0 <= j < f.drop_first().len() implies #[trigger] node_ok(f.drop_first()[j]) by {
                assert(node_ok(f[j + 1]));
            }
        }
    }
}

/// Trees without document nodes, with one more such tree.
pub proof fn lemma_no_docs_push(f: Seq<DomV>, d: DomV)
    ensures
        no_docs(f.push(d)) == (no_docs(f) && node_ok(d)),
{
    lemma_no_docs_all(f);
    lemma_no_docs_all(f.push(d));
    if no_docs(f) && node_ok(d) {
        assert forall|i: int| 0 <= i < f.push(d).len() implies #[trigger] node_ok(f.push(d)[i]) by {
            if i < f.len() {
                assert(node_ok(f[i]));
            }
        }
    }
    if no_docs(f.push(d)) {
        assert(node_ok(f.push(d)[f.len() as int]));
        assert forall|i: int| 0 <= i < f.len() implies #[trigger] node_ok(f[i]) by {
            assert(node_ok(f.push(d)[i]));
        }
    }
}

/// Two lists of trees without document nodes, one after the other.
pub proof fn lemma_no_docs_concat(a: Seq<DomV>, b: Seq<DomV>)
    ensures
        no_docs(a + b) == (no_docs(a) && no_docs(b)),
{
    lemma_no_docs_all(a);
    lemma_no_docs_all(b);
    lemma_no_docs_all(a + b);
    if no_docs(a) && no_docs(b) {
        assert forall|i: int| 0 <= i < (a + b).len() implies #[trigger] node_ok((a + b)[i]) by {
            if i < a.len() {
                assert(node_ok(a[i]));
            } else {
                assert(node_ok(b[i - a.len()]));
            }
        }
    }
    if no_docs(a + b) {
        assert forall|i: int| 0 <= i < a.len() implies #[trigger] node_ok(a[i]) by {
            assert(node_ok((a + b)[i]));
        }
        assert forall|i: int| 0 <= i < b.len() implies #[trigger] node_ok(b[i]) by {
            assert(node_ok((a + b)[i + a.len()]));
        }
    }
}

/// The first match among trees without document nodes is such a tree.
pub proof fn lemma_first_match_ok(f: Seq<DomV>, name: Seq<char>, ptn: Seq<(Seq<char>, Seq<char>)>, recursive: bool)
    requires
        no_docs(f),
    ensures
        first_match_spec(f, name, ptn, recursive) matches Some(d) ==> node_ok(d),
    decreases f,
{
    if f.len() > 0 {
        lemma_no_docs_all(f);
        assert(node_ok(f[0]));
        if !element_match_spec(f[0], name, ptn) {
            if recursive {
                match f[0] {
                    DomV::Element(_, _, c, _) => lemma_first_match_ok(c, name, ptn, recursive),
                    _ => {},
                }
            }
            lemma_first_match_ok(f.drop_first(), name, ptn, recursive);
        }
    }
}

/// Every match among trees without document nodes is such a tree.
pub proof fn lemma_all_matches_ok(f: Seq<DomV>, name: Seq<char>, ptn: Seq<(Seq<char>, Seq<char>)>, recursive: bool)
    requires
        no_docs(f),
    ensures
        no_docs(all_matches_spec(f, name, ptn, recursive)),
    decreases f,
{
    if f.len() > 0 {
        lemma_no_docs_all(f);
        assert(node_ok(f[0]));
        let here: Seq<DomV> = if element_match_spec(f[0], name, ptn) { seq![f[0]] } else { Seq::empty() };
        let inner = if recursive {
            match f[0] {
                DomV::Document(c) => all_matches_spec(c, name, ptn, recursive),
                DomV::Element(_, _, c, _) => all_matches_spec(c, name, ptn, recursive),
                _ => Seq::empty(),
            }
        } else {
            Seq::empty()
        };
        if recursive {
            match f[0] {
                DomV::Element(_, _, c, _) => lemma_all_matches_ok(c, name, ptn, recursive),
                _ => {},
            }
        }
        lemma_all_matches_ok(f.drop_first(), name, ptn, recursive);
        let rest = all_matches_spec(f.drop_first(), name, ptn, recursive);
        lemma_no_docs_all(here);
        lemma_no_docs_all(inner);
        lemma_no_docs_all(rest);
        let all = here + inner + rest;
        lemma_no_docs_all(all);
        assert forall|i: int| 0 <= i < all.len() implies #[trigger] node_ok(all[i]) by {
            if i < here.len() {
                assert(all[i] == here[i]);
            } else if i < here.len() + inner.len() {
                assert(all[i] == inner[i - here.len()]);
            } else {
                assert(all[i] == rest[i - here.len() - inner.len()]);
            }
        }
    }
}

/// What `html5ever::parse_document` makes of a text (with the default
/// options), as a tree.
pub uninterp spec fn html_parse_result(source: Seq<char>) -> DomV;

/// What `html5ever::serialize` writes for the children of a node (with the
/// default options, which serialize the children only).
pub uninterp spec fn html_serialize_result(node: DomV) -> Seq<u8>;

/// The children of an `rcdom` node, converted.
#[verifier::external_body]
fn dom_children(h: &std::rc::Rc<markup5ever_rcdom::Node>) -> Vec<DomNode> {
    h.children.borrow().iter().map(|c| dom_of_handle(c)).collect()
}

/// Copies an `rcdom` node and its descendants. Nothing is promised of it
/// here; `html_parse` states the result.
#[verifier::external_body]
fn dom_of_handle(h: &std::rc::Rc<markup5ever_rcdom::Node>) -> DomNode {
    match &h.data {
        NodeData::Document => DomNode::Document(dom_children(h)),
        NodeData::Doctype { name, .. } => DomNode::Doctype(name.to_string()),
        NodeData::Text { contents } => DomNode::Text(contents.borrow().to_string()),
        NodeData::Comment { contents } => DomNode::Comment(contents.to_string()),
        NodeData::Element { name, attrs, .. } => DomNode::Element(
            name.local.to_string(),
            attrs.borrow().iter().map(|a| (a.name.local.to_string(), a.value.to_string(), a.name.ns.to_string())).collect(),
            dom_children(h),
            name.ns.to_string(),
        ),
        NodeData::ProcessingInstruction { .. } => DomNode::Other,
    }
}

/// The `rcdom` attribute with a local name, a value and a namespace.
#[verifier::external_body]
fn rc_attr(name: &str, value: &str, ns: &str) -> markup5ever::interface::Attribute {
    markup5ever::interface::Attribute {
        name: markup5ever::QualName::new(None, markup5ever::Namespace::from(ns), markup5ever::LocalName::from(name)),
        value: value.into(),
    }
}

/// `NodeData::Document`.
#[verifier::external_body]
fn rc_document_data() -> markup5ever_rcdom::NodeData {
    NodeData::Document
}

/// `NodeData::Doctype` with a name and empty ids.
#[verifier::external_body]
fn rc_doctype_data(name: &str) -> markup5ever_rcdom::NodeData {
    NodeData::Doctype { name: name.into(), public_id: "".into(), system_id: "".into() }
}

/// `NodeData::Text` with its contents.
#[verifier::external_body]
fn rc_text_data(contents: &str) -> markup5ever_rcdom::NodeData {
    NodeData::Text { contents: std::cell::RefCell::new(contents.into()) }
}

/// `NodeData::Comment` with its contents.
#[verifier::external_body]
fn rc_comment_data(contents: &str) -> markup5ever_rcdom::NodeData {
    NodeData::Comment { contents: contents.into() }
}

/// `NodeData::Element` with a local name, a namespace and attributes.
#[verifier::external_body]
fn rc_element_data(name: &str, ns: &str, attrs: Vec<markup5ever::interface::Attribute>) -> markup5ever_rcdom::NodeData {
    NodeData::Element {
        name: markup5ever::QualName::new(None, markup5ever::Namespace::from(ns), markup5ever::LocalName::from(name)),
        attrs: std::cell::RefCell::new(attrs),
        template_contents: std::cell::RefCell::new(None),
        mathml_annotation_xml_integration_point: false,
    }
}

/// `NodeData::ProcessingInstruction` with an empty target and contents.
#[verifier::external_body]
fn rc_other_data() -> markup5ever_rcdom::NodeData {
    NodeData::ProcessingInstruction { target: "".into(), contents: "".into() }
}

/// `Node::new` of `markup5ever_rcdom`.
#[verifier::external_body]
fn rc_node(data: markup5ever_rcdom::NodeData) -> std::rc::Rc<markup5ever_rcdom::Node> {
    markup5ever_rcdom::Node::new(data)
}

/// Appends a child to the children of an `rcdom` node.
#[verifier::external_body]
fn rc_append(parent: &std::rc::Rc<markup5ever_rcdom::Node>, child: std::rc::Rc<markup5ever_rcdom::Node>) {
    parent.children.borrow_mut().push(child);
}

/// Builds an `rcdom` tree from a node. Nothing is stated of it here;
/// `html_serialize` states the result.
fn handle_of_dom(d: &DomNode) -> std::rc::Rc<markup5ever_rcdom::Node>
    decreases d,
{
    match d {
        DomNode::Document(c) => {
            let node = rc_node(rc_document_data());
            assert(decreases_to!(*d => (*d)->Document_0));
            append_all(&node, c, Ghost(*d));
            node
        },
        DomNode::Doctype(n) => rc_node(rc_doctype_data(n.as_str())),
        DomNode::Text(t) => rc_node(rc_text_data(t.as_str())),
        DomNode::Comment(t) => rc_node(rc_comment_data(t.as_str())),
        DomNode::Element(n, a, c, ns) => {
            let mut attrs: Vec<markup5ever::interface::Attribute> = Vec::new();
            let m = a.len();
            for i in 0..m
                invariant
                    m == a@.len(),
            {
                attrs.push(rc_attr(a[i].0.as_str(), a[i].1.as_str(), a[i].2.as_str()));
            }
            let node = rc_node(rc_element_data(n.as_str(), ns.as_str(), attrs));
            assert(decreases_to!(*d => (*d)->Element_2));
            append_all(&node, c, Ghost(*d));
            node
        },
        DomNode::Other => rc_node(rc_other_data()),
    }
}

/// Appends the trees of a list, held by `owner`, to an `rcdom` node.
fn append_all(node: &std::rc::Rc<markup5ever_rcdom::Node>, c: &Vec<DomNode>, owner: Ghost<DomNode>)
    requires
        decreases_to!(owner@ => *c),
    decreases owner@, 0int,
{
    let n = c.len();
    for i in 0..n
        invariant
            n == c@.len(),
            decreases_to!(owner@ => *c),
    {
        assert(decreases_to!(owner@ => c@[i as int])) by {
            assert(decreases_to!(*c => c@));
            assert(decreases_to!(c@ => c@[i as int]));
        }
        rc_append(node, handle_of_dom(&c[i]));
    }
}

/// Calls `html5ever::parse_document` with the default options and an
/// `RcDom`. Trusted: the tree is the named result of the text; it is a
/// document node, and no document node lies below it, as `RcDom` makes a
/// document node only for the document itself (and for the contents of a
/// `<template>`, which are kept aside from the children and not read here).
#[verifier::external_body]
pub(crate) fn html_parse(source: &str) -> (res: DomNode)
    ensures
        res@ == html_parse_result(source@),
        res@ is Document,
        no_inner_docs(res@),
{
    let dom = html5ever::parse_document(markup5ever_rcdom::RcDom::default(), Default::default()).one(source);
    dom_of_handle(&dom.document)
}

/// Parses an HTML document into a tree.
pub fn to_dom(source: &str) -> (res: DomNode)
    ensures
        res@ == html_parse_result(source@),
        res@ is Document,
        no_inner_docs(res@),
{
    html_parse(source)
}

/// Calls `html5ever::serialize` with the default options on the node (its
/// children are written). Trusted: the bytes are the named result of the
/// node. The `RcDom` serializer panics on a document node below the top one,
/// so none may be there.
#[verifier::external_body]
pub(crate) fn html_serialize(node: &DomNode) -> (res: Vec<u8>)
    requires
        no_inner_docs(node@),
    ensures
        res@ == html_serialize_result(node@),
{
    let handle = handle_of_dom(node);
    let mut bytes = vec![];
    let opts = html5ever::serialize::SerializeOpts::default();
    let _ = html5ever::serialize(&mut bytes, &markup5ever_rcdom::SerializableHandle::from(handle), opts);
    bytes
}

/// Every element matching the pattern among the nodes and, when
/// `recursive`, their descendants, in document order.
pub open spec fn all_matches_spec(f: Seq<DomV>, name: Seq<char>, ptn: Seq<(Seq<char>, Seq<char>)>, recursive: bool) -> Seq<DomV>
    decreases f,
{
    if f.len() == 0 {
        Seq::empty()
    } else {
        let here: Seq<DomV> = if element_match_spec(f[0], name, ptn) { seq![f[0]] } else { Seq::empty() };
        let inner = if recursive {
            match f[0] {
                DomV::Document(c) => all_matches_spec(c, name, ptn, recursive),
                DomV::Element(_, _, c, _) => all_matches_spec(c, name, ptn, recursive),
                _ => Seq::empty(),
            }
        } else {
            Seq::empty()
        };
        here + inner + all_matches_spec(f.drop_first(), name, ptn, recursive)
    }
}

/// Collects every element matching the pattern among the nodes from `start`
/// on (and their descendants when `recursive`).
fn all_matches_from<'a>(nodes: &'a Vec<DomNode>, start: usize, name: &str, ptn: &[(&str, &str)], recursive: bool, out: &mut Vec<&'a DomNode>)
    requires
        start <= nodes@.len(),
    ensures
        final(out)@.map_values(|d: &DomNode| d@) == old(out)@.map_values(|d: &DomNode| d@)
            + all_matches_spec(forest_view(nodes@).subrange(start as int, nodes@.len() as int), name@, ptn_view(ptn@), recursive),
    decreases nodes@, nodes@.len() - start,
{
    proof {
        lemma_forest_view(nodes@);
    }
    let ghost f = forest_view(nodes@).subrange(start as int, nodes@.len() as int);
    let ghost o0 = out@.map_values(|d: &DomNode| d@);
    if start >= nodes.len() {
        assert(f =~= Seq::<DomV>::empty());
        assert(o0 + all_matches_spec(f, name@, ptn_view(ptn@), recursive) =~= o0);
        return;
    }
    let node = &nodes[start];
    assert(f[0] == node@);
    assert(f.drop_first() =~= forest_view(nodes@).subrange(start + 1, nodes@.len() as int));
    if element_match(node, name, ptn) {
        out.push(node);
        assert(out@.map_values(|d: &DomNode| d@) =~= o0 + seq![node@]);
    } else {
        assert(out@.map_values(|d: &DomNode| d@) =~= o0 + Seq::<DomV>::empty());
    }
    let ghost o1 = out@.map_values(|d: &DomNode| d@);
    if recursive {
        let kids: Option<&Vec<DomNode>> = match node {
            DomNode::Document(c) => Some(c),
            DomNode::Element(_, _, c, _) => Some(c),
            _ => None,
        };
        if let Some(c) = kids {
            assert(decreases_to!(nodes@ => c@)) by {
                assert(decreases_to!(nodes@ => nodes@[start as int]));
                let n0 = nodes@[start as int];
                if n0 is Document {
                    assert(decreases_to!(n0 => n0->Document_0));
                    assert(decreases_to!(n0->Document_0 => (n0->Document_0)@));
                    assert(*c == n0->Document_0);
                } else if n0 is Element {
                    assert(decreases_to!(n0 => n0->Element_2));
                    assert(decreases_to!(n0->Element_2 => (n0->Element_2)@));
                    assert(*c == n0->Element_2);
                }
            }
            proof {
                lemma_forest_view(c@);
            }
            assert(forest_view(c@).subrange(0, c@.len() as int) =~= forest_view(c@));
            all_matches_from(c, 0, name, ptn, recursive, out);
        } else {
            assert(o1 + Seq::<DomV>::empty() =~= o1);
        }
    }
    let ghost o2 = out@.map_values(|d: &DomNode| d@);
    all_matches_from(nodes, start + 1, name, ptn, recursive, out);
    proof {
        let here: Seq<DomV> = if element_match_spec(f[0], name@, ptn_view(ptn@)) { seq![f[0]] } else { Seq::empty() };
        let inner = if recursive {
            match f[0] {
                DomV::Document(c) => all_matches_spec(c, name@, ptn_view(ptn@), recursive),
                DomV::Element(_, _, c, _) => all_matches_spec(c, name@, ptn_view(ptn@), recursive),
                _ => Seq::empty(),
            }
        } else {
            Seq::empty()
        };
        assert(o2 =~= o0 + here + inner);
        assert(out@.map_values(|d: &DomNode| d@) =~= o0 + (here + inner + all_matches_spec(f.drop_first(), name@, ptn_view(ptn@), recursive)));
    }
}

/// Every element under `node` matching the pattern, in document order; with
/// `match_single`, the first one.
pub fn child_match_list<'a>(node: &'a DomNode, name: &str, ptn: &[(&str, &str)], recursive: bool, match_single: bool) -> (res: Vec<&'a DomNode>)
    ensures
        match_single ==> res@.map_values(|d: &DomNode| d@) == match first_match_spec(children_of(node@), name@, ptn_view(ptn@), recursive) {
            Some(d) => seq![d],
            None => Seq::<DomV>::empty(),
        },
        !match_single ==> res@.map_values(|d: &DomNode| d@) == all_matches_spec(children_of(node@), name@, ptn_view(ptn@), recursive),
{
    let mut out: Vec<&'a DomNode> = Vec::new();
    if match_single {
        match child_match_first(node, name, ptn, recursive) {
            Some(d) => {
                out.push(d);
                assert(out@.map_values(|d: &DomNode| d@) =~= seq![d@]);
            },
            None => {
                assert(out@.map_values(|d: &DomNode| d@) =~= Seq::<DomV>::empty());
            },
        }
        return out;
    }
    assert(out@.map_values(|d: &DomNode| d@) =~= Seq::<DomV>::empty());
    match node {
        DomNode::Document(c) | DomNode::Element(_, _, c, _) => {
            proof {
                lemma_forest_view(c@);
            }
            assert(forest_view(c@).subrange(0, c@.len() as int) =~= forest_view(c@));
            all_matches_from(c, 0, name, ptn, recursive, &mut out);
            assert(Seq::<DomV>::empty() + all_matches_spec(forest_view(c@), name@, ptn_view(ptn@), recursive) =~= all_matches_spec(forest_view(c@), name@, ptn_view(ptn@), recursive));
        },
        _ => {
            assert(all_matches_spec(Seq::<DomV>::empty(), name@, ptn_view(ptn@), recursive) =~= Seq::<DomV>::empty());
        },
    }
    out
}

/// What the search finds matches the pattern.
pub proof fn lemma_first_match_matches(f: Seq<DomV>, name: Seq<char>, ptn: Seq<(Seq<char>, Seq<char>)>, recursive: bool)
    ensures
        first_match_spec(f, name, ptn, recursive) matches Some(d) ==> element_match_spec(d, name, ptn),
    decreases f,
{
    if f.len() > 0 && !element_match_spec(f[0], name, ptn) {
        if recursive {
            match f[0] {
                DomV::Document(c) => lemma_first_match_matches(c, name, ptn, recursive),
                DomV::Element(_, _, c, _) => lemma_first_match_matches(c, name, ptn, recursive),
                _ => {},
            }
        }
        lemma_first_match_matches(f.drop_first(), name, ptn, recursive);
    }
}

/// The number of nodes of a tree.
pub open spec fn dom_size(d: DomV) -> nat
    decreases d,
{
    match d {
        DomV::Document(c) => 1 + forest_size(c),
        DomV::Element(_, _, c, _) => 1 + forest_size(c),
        _ => 1,
    }
}

/// The number of nodes of a list of trees.
pub open spec fn forest_size(f: Seq<DomV>) -> nat
    decreases f,
{
    if f.len() == 0 {
        0
    } else {
        dom_size(f[0]) + forest_size(f.drop_first())
    }
}

/// A node's children are smaller than the node.
pub proof fn lemma_children_smaller(d: DomV)
    ensures
        forest_size(children_of(d)) < dom_size(d),
{
    match d {
        DomV::Document(c) => {},
        DomV::Element(_, _, c, _) => {},
        _ => {
            assert(children_of(d) =~= Seq::<DomV>::empty());
        },
    }
}

/// Each tree of a list is no larger than the list.
pub proof fn lemma_member_size(f: Seq<DomV>, i: int)
    requires
        0 <= i < f.len(),
    ensures
        dom_size(f[i]) <= forest_size(f),
    decreases f.len(),
{
    if i > 0 {
        lemma_member_size(f.drop_first(), i - 1);
    }
}

/// What the search finds is no larger than the list searched.
pub proof fn lemma_first_match_size(f: Seq<DomV>, name: Seq<char>, ptn: Seq<(Seq<char>, Seq<char>)>, recursive: bool)
    ensures
        first_match_spec(f, name, ptn, recursive) matches Some(d) ==> dom_size(d) <= forest_size(f),
    decreases f,
{
    if f.len() > 0 {
        lemma_member_size(f, 0);
        if !element_match_spec(f[0], name, ptn) {
            if recursive {
                lemma_children_smaller(f[0]);
                match f[0] {
                    DomV::Document(c) => lemma_first_match_size(c, name, ptn, recursive),
                    DomV::Element(_, _, c, _) => lemma_first_match_size(c, name, ptn, recursive),
                    _ => {},
                }
            }
            lemma_first_match_size(f.drop_first(), name, ptn, recursive);
        }
    }
}

/// Every element found is no larger than the list searched.
pub proof fn lemma_all_matches_size(f: Seq<DomV>, name: Seq<char>, ptn: Seq<(Seq<char>, Seq<char>)>, recursive: bool)
    ensures
        forall|i: int| 0 <= i < all_matches_spec(f, name, ptn, recursive).len()
            ==> #[trigger] dom_size(all_matches_spec(f, name, ptn, recursive)[i]) <= forest_size(f),
    decreases f,
{
    if f.len() > 0 {
        lemma_member_size(f, 0);
        lemma_children_smaller(f[0]);
        let inner = if recursive {
            match f[0] {
                DomV::Document(c) => {
                    lemma_all_matches_size(c, name, ptn, recursive);
                    all_matches_spec(c, name, ptn, recursive)
                },
                DomV::Element(_, _, c, _) => {
                    lemma_all_matches_size(c, name, ptn, recursive);
                    all_matches_spec(c, name, ptn, recursive)
                },
                _ => Seq::empty(),
            }
        } else {
            Seq::empty()
        };
        lemma_all_matches_size(f.drop_first(), name, ptn, recursive);
        let here: Seq<DomV> = if element_match_spec(f[0], name, ptn) { seq![f[0]] } else { Seq::empty() };
        let all = all_matches_spec(f, name, ptn, recursive);
        let rest = all_matches_spec(f.drop_first(), name, ptn, recursive);
        assert(all == here + inner + rest);
        assert forall|i: int| 0 <= i < all.len() implies #[trigger] dom_size(all[i]) <= forest_size(f) by {
            if i < here.len() {
            } else if i < here.len() + inner.len() {
                assert(all[i] == inner[i - here.len()]);
            } else {
                assert(all[i] == rest[i - here.len() - inner.len()]);
            }
        }
    }
}

/// A node with one more child, last (a leaf stays as it is).
pub open spec fn with_child(d: DomV, child: DomV) -> DomV {
    match d {
        DomV::Document(c) => DomV::Document(c.push(child)),
        DomV::Element(n, a, c, ns) => DomV::Element(n, a, c.push(child), ns),
        _ => d,
    }
}

/// A node with other children.
pub open spec fn with_children(d: DomV, c: Seq<DomV>) -> DomV {
    match d {
        DomV::Document(_) => DomV::Document(c),
        DomV::Element(n, a, _, ns) => DomV::Element(n, a, c, ns),
        _ => d,
    }
}

/// A change to an element.
pub enum Edit {
    /// Append a child.
    PushChild(DomNode),
    /// Set the value of the first attribute with this name, if any.
    SetAttr(String, String),
}

pub enum EditV {
    PushChild(DomV),
    SetAttr(Seq<char>, Seq<char>),
}

impl View for Edit {
    type V = EditV;

    open spec fn view(&self) -> EditV {
        match *self {
            Edit::PushChild(d) => EditV::PushChild(d@),
            Edit::SetAttr(k, v) => EditV::SetAttr(k@, v@),
        }
    }
}

/// The attributes with the first one named `k` given the value `v`.
pub open spec fn set_first_attr(a: Seq<(Seq<char>, Seq<char>, Seq<char>)>, k: Seq<char>, v: Seq<char>) -> Seq<(Seq<char>, Seq<char>, Seq<char>)>
    decreases a.len(),
{
    if a.len() == 0 {
        a
    } else if a[0].0 == k {
        a.update(0, (k, v, a[0].2))
    } else {
        seq![a[0]] + set_first_attr(a.drop_first(), k, v)
    }
}

/// A node after a change.
pub open spec fn apply_edit(d: DomV, e: EditV) -> DomV {
    match e {
        EditV::PushChild(c) => with_child(d, c),
        EditV::SetAttr(k, v) => match d {
            DomV::Element(n, a, c, ns) => DomV::Element(n, set_first_attr(a, k, v), c, ns),
            _ => d,
        },
    }
}

/// The nodes with the change made to the first element (in document order,
/// descendants included) that matches the pattern; and whether there was one.
pub open spec fn edit_first_spec(f: Seq<DomV>, name: Seq<char>, ptn: Seq<(Seq<char>, Seq<char>)>, child: EditV) -> (Seq<DomV>, bool)
    decreases f,
{
    if f.len() == 0 {
        (f, false)
    } else if element_match_spec(f[0], name, ptn) {
        (f.update(0, apply_edit(f[0], child)), true)
    } else {
        let (inner, done) = match f[0] {
            DomV::Document(c) => edit_first_spec(c, name, ptn, child),
            DomV::Element(_, _, c, _) => edit_first_spec(c, name, ptn, child),
            _ => (Seq::<DomV>::empty(), false),
        };
        if done {
            (f.update(0, with_children(f[0], inner)), true)
        } else {
            let (rest, done2) = edit_first_spec(f.drop_first(), name, ptn, child);
            (seq![f[0]] + rest, done2)
        }
    }
}

/// When no element matches, nothing changes.
pub proof fn lemma_edit_first_not_done(f: Seq<DomV>, name: Seq<char>, ptn: Seq<(Seq<char>, Seq<char>)>, child: EditV)
    ensures
        !edit_first_spec(f, name, ptn, child).1 ==> edit_first_spec(f, name, ptn, child).0 == f,
    decreases f,
{
    if f.len() > 0 && !element_match_spec(f[0], name, ptn) {
        match f[0] {
            DomV::Document(c) => lemma_edit_first_not_done(c, name, ptn, child),
            DomV::Element(_, _, c, _) => lemma_edit_first_not_done(c, name, ptn, child),
            _ => {},
        }
        lemma_edit_first_not_done(f.drop_first(), name, ptn, child);
        assert(seq![f[0]] + f.drop_first() =~= f);
    }
}

/// A change that brings in no document node.
pub open spec fn edit_ok(e: EditV) -> bool {
    match e {
        EditV::PushChild(c) => node_ok(c),
        EditV::SetAttr(_, _) => true,
    }
}

/// Changing the first match brings in no document node, when the change
/// brings in none.
pub proof fn lemma_edit_keeps_no_docs(f: Seq<DomV>, name: Seq<char>, ptn: Seq<(Seq<char>, Seq<char>)>, e: EditV)
    requires
        no_docs(f),
        edit_ok(e),
    ensures
        no_docs(edit_first_spec(f, name, ptn, e).0),
    decreases f,
{
    if f.len() > 0 {
        lemma_no_docs_all(f);
        assert(node_ok(f[0]));
        let f2 = edit_first_spec(f, name, ptn, e).0;
        if element_match_spec(f[0], name, ptn) {
            let n0 = apply_edit(f[0], e);
            match f[0] {
                DomV::Element(n, a, c, ns) => {
                    match e {
                        EditV::PushChild(x) => lemma_no_docs_push(c, x),
                        _ => {},
                    }
                },
                _ => {},
            }
            assert(node_ok(n0));
            lemma_no_docs_all(f2);
            assert forall|i: int| 0 <= i < f2.len() implies #[trigger] node_ok(f2[i]) by {
                if i > 0 {
                    assert(f2[i] == f[i]);
                }
            }
        } else {
            match f[0] {
                DomV::Element(_, _, c, _) => lemma_edit_keeps_no_docs(c, name, ptn, e),
                _ => {},
            }
            let (inner, done) = match f[0] {
                DomV::Document(c) => edit_first_spec(c, name, ptn, e),
                DomV::Element(_, _, c, _) => edit_first_spec(c, name, ptn, e),
                _ => (Seq::<DomV>::empty(), false),
            };
            if done {
                assert(node_ok(with_children(f[0], inner)));
                lemma_no_docs_all(f2);
                assert forall|i: int| 0 <= i < f2.len() implies #[trigger] node_ok(f2[i]) by {
                    if i > 0 {
                        assert(f2[i] == f[i]);
                    }
                }
            } else {
                lemma_edit_keeps_no_docs(f.drop_first(), name, ptn, e);
                let rest = edit_first_spec(f.drop_first(), name, ptn, e).0;
                lemma_no_docs_all(rest);
                lemma_no_docs_all(f2);
                assert forall|i: int| 0 <= i < f2.len() implies #[trigger] node_ok(f2[i]) by {
                    if i > 0 {
                        assert(f2[i] == rest[i - 1]);
                    }
                }
            }
        }
    }
}

/// Changing the first match under a node brings in no document node below
/// it, when the change brings in none.
pub proof fn lemma_edit_in_keeps_no_docs(d: DomV, name: Seq<char>, ptn: Seq<(Seq<char>, Seq<char>)>, e: EditV)
    requires
        no_inner_docs(d),
        edit_ok(e),
    ensures
        no_inner_docs(edit_first_in(d, name, ptn, e).0),
{
    lemma_edit_keeps_no_docs(children_of(d), name, ptn, e);
}

/// Appending a child to the first element that matches a pattern: it is
/// found again as the first match, with that child last.
pub proof fn lemma_push_then_find(f: Seq<DomV>, name: Seq<char>, ptn: Seq<(Seq<char>, Seq<char>)>, c: DomV)
    ensures
        edit_first_spec(f, name, ptn, EditV::PushChild(c)).1 == (first_match_spec(f, name, ptn, true) is Some),
        edit_first_spec(f, name, ptn, EditV::PushChild(c)).1 ==> first_match_spec(edit_first_spec(f, name, ptn, EditV::PushChild(c)).0, name, ptn, true)
            == Some(with_child(first_match_spec(f, name, ptn, true).unwrap(), c)),
    decreases f,
{
    let e = EditV::PushChild(c);
    if f.len() > 0 && !element_match_spec(f[0], name, ptn) {
        let (f2, done) = edit_first_spec(f, name, ptn, e);
        match f[0] {
            DomV::Document(k) => lemma_push_then_find(k, name, ptn, c),
            DomV::Element(_, _, k, _) => lemma_push_then_find(k, name, ptn, c),
            _ => {},
        }
        let (inner, done1) = match f[0] {
            DomV::Document(k) => edit_first_spec(k, name, ptn, e),
            DomV::Element(_, _, k, _) => edit_first_spec(k, name, ptn, e),
            _ => (Seq::<DomV>::empty(), false),
        };
        if !done1 {
            lemma_push_then_find(f.drop_first(), name, ptn, c);
            let (rest, _) = edit_first_spec(f.drop_first(), name, ptn, e);
            assert((seq![f[0]] + rest)[0] == f[0]);
            assert((seq![f[0]] + rest).drop_first() =~= rest);
        } else {
            assert(f2[0] == with_children(f[0], inner));
            assert(f2.drop_first() =~= f.drop_first());
        }
    }
}

/// The size of a list of trees from `start` on is the size of the first one
/// and of the rest.
pub proof fn lemma_forest_size_split(f: Seq<DomV>, start: int)
    requires
        0 <= start < f.len(),
    ensures
        forest_size(f.subrange(start, f.len() as int)) == dom_size(f[start]) + forest_size(f.subrange(start + 1, f.len() as int)),
{
    let sub = f.subrange(start, f.len() as int);
    assert(sub.drop_first() =~= f.subrange(start + 1, f.len() as int));
}

/// Sets the first attribute named `k`.
fn attrs_set_first(a: &mut Vec<(String, String, String)>, k: String, v: String)
    ensures
        attrs_view(final(a)@) == set_first_attr(attrs_view(old(a)@), k@, v@),
{
    let ghost av = attrs_view(a@);
    let n = a.len();
    assert(av.subrange(0, n as int) =~= av);
    for i in 0..n
        invariant
            n == a@.len(),
            av == attrs_view(old(a)@),
            a@ == old(a)@,
            forall|j: int| 0 <= j < i ==> av[j].0 != k@,
    {
        if a[i].0 == k {
            let ghost pre = av.subrange(0, i as int);
            proof {
                lemma_set_first_attr_at(av, k@, v@, i as int);
            }
            let ns = a[i].2.clone();
            a.set(i, (k, v, ns));
            assert(attrs_view(a@) =~= av.update(i as int, (k@, v@, av[i as int].2)));
            return;
        }
    }
    proof {
        lemma_set_first_attr_none(av, k@, v@);
    }
}

proof fn lemma_set_first_attr_at(a: Seq<(Seq<char>, Seq<char>, Seq<char>)>, k: Seq<char>, v: Seq<char>, i: int)
    requires
        0 <= i < a.len(),
        a[i].0 == k,
        forall|j: int| 0 <= j < i ==> a[j].0 != k,
    ensures
        set_first_attr(a, k, v) == a.update(i, (k, v, a[i].2)),
    decreases i,
{
    if i > 0 {
        lemma_set_first_attr_at(a.drop_first(), k, v, i - 1);
        assert(seq![a[0]] + a.drop_first().update(i - 1, (k, v, a[i].2)) =~= a.update(i, (k, v, a[i].2)));
    }
}

proof fn lemma_set_first_attr_none(a: Seq<(Seq<char>, Seq<char>, Seq<char>)>, k: Seq<char>, v: Seq<char>)
    requires
        forall|j: int| 0 <= j < a.len() ==> a[j].0 != k,
    ensures
        set_first_attr(a, k, v) == a,
    decreases a.len(),
{
    if a.len() > 0 {
        lemma_set_first_attr_none(a.drop_first(), k, v);
        assert(seq![a[0]] + a.drop_first() =~= a);
    }
}

/// Makes a change to a node.
fn node_edit(node: DomNode, e: Edit) -> (res: DomNode)
    ensures
        res@ == apply_edit(node@, e@),
{
    match e {
        Edit::PushChild(child) => node_push(node, child),
        Edit::SetAttr(k, v) => match node {
            DomNode::Element(n, mut a, c, ns) => {
                attrs_set_first(&mut a, k, v);
                DomNode::Element(n, a, c, ns)
            },
            other => other,
        },
    }
}

/// Appends a child to a node.
fn node_push(node: DomNode, child: DomNode) -> (res: DomNode)
    ensures
        res@ == with_child(node@, child@),
{
    match node {
        DomNode::Document(mut c) => {
            let ghost before = c@;
            c.push(child);
            assert(c@.drop_last() =~= before);
            DomNode::Document(c)
        },
        DomNode::Element(n, a, mut c, ns) => {
            let ghost before = c@;
            c.push(child);
            assert(c@.drop_last() =~= before);
            DomNode::Element(n, a, c, ns)
        },
        other => other,
    }
}

/// Appends `child` to the first element among the nodes from `start` on
/// (descendants included) that matches the pattern; gives the child back
/// when there is none.
pub fn edit_first_from(nodes: &mut Vec<DomNode>, start: usize, name: &str, ptn: &[(&str, &str)], child: Edit) -> (res: Option<Edit>)
    requires
        start <= old(nodes)@.len(),
    ensures
        ({
            let f = forest_view(old(nodes)@);
            let (g, done) = edit_first_spec(f.subrange(start as int, f.len() as int), name@, ptn_view(ptn@), child@);
            &&& forest_view(final(nodes)@) == f.subrange(0, start as int) + g
            &&& (res is None <==> done)
            &&& (res matches Some(c) ==> c@ == child@)
        }),
    decreases forest_size(forest_view(old(nodes)@).subrange(start as int, old(nodes)@.len() as int)),
{
    proof {
        lemma_forest_view(nodes@);
    }
    let ghost f = forest_view(nodes@);
    let ghost sub = f.subrange(start as int, f.len() as int);
    if start >= nodes.len() {
        assert(f.subrange(0, start as int) + sub =~= f);
        return Some(child);
    }
    proof {
        lemma_forest_size_split(f, start as int);
        lemma_children_smaller(f[start as int]);
    }
    assert(sub[0] == nodes@[start as int]@);
    assert(sub.drop_first() =~= f.subrange(start + 1, f.len() as int));
    if element_match(&nodes[start], name, ptn) {
        let mut slot = DomNode::Other;
        nodes.set_and_swap(start, &mut slot);
        let updated = node_edit(slot, child);
        nodes.set(start, updated);
        proof {
            lemma_forest_view(nodes@);
            assert(forest_view(nodes@) =~= f.subrange(0, start as int) + sub.update(0, apply_edit(sub[0], child@)));
        }
        return None;
    }
    let ghost n0 = nodes@[start as int];
    let mut slot = DomNode::Other;
    nodes.set_and_swap(start, &mut slot);
    let ghost nodes_mid = nodes@;
    let (rebuilt, leftover) = match slot {
        DomNode::Document(mut c) => {
            proof {
                lemma_forest_view(c@);
                assert(forest_view(c@) == children_of(n0@));
                assert(forest_view(c@).subrange(0, c@.len() as int) =~= forest_view(c@));
                lemma_edit_first_not_done(forest_view(c@), name@, ptn_view(ptn@), child@);
            }
            assert(forest_view(c@).subrange(0, c@.len() as int) =~= forest_view(c@));
            let r = edit_first_from(&mut c, 0, name, ptn, child);
            proof {
                assert(forest_view(c@) =~= Seq::<DomV>::empty() + forest_view(c@));
            }
            (DomNode::Document(c), r)
        },
        DomNode::Element(n, a, mut c, ns) => {
            proof {
                lemma_forest_view(c@);
                assert(forest_view(c@) == children_of(n0@));
                assert(forest_view(c@).subrange(0, c@.len() as int) =~= forest_view(c@));
                lemma_edit_first_not_done(forest_view(c@), name@, ptn_view(ptn@), child@);
            }
            assert(forest_view(c@).subrange(0, c@.len() as int) =~= forest_view(c@));
            let r = edit_first_from(&mut c, 0, name, ptn, child);
            proof {
                assert(forest_view(c@) =~= Seq::<DomV>::empty() + forest_view(c@));
            }
            (DomNode::Element(n, a, c, ns), r)
        },
        other => (other, Some(child)),
    };
    nodes.set(start, rebuilt);
    proof {
        lemma_forest_view(nodes@);
    }
    match leftover {
        None => {
            proof {
                assert(forest_view(nodes@) =~= f.subrange(0, start as int) + sub.update(0, with_children(sub[0], children_of(nodes@[start as int]@))));
            }
            None
        },
        Some(c) => {
            proof {
                assert(nodes@[start as int]@ == n0@);
                assert(forest_view(nodes@) =~= f);
                assert(forest_view(nodes@).subrange(start + 1, nodes@.len() as int) =~= f.subrange(start + 1, f.len() as int));
            }
            let r = edit_first_from(nodes, start + 1, name, ptn, c);
            proof {
                let (rest, d2) = edit_first_spec(f.subrange(start + 1, f.len() as int), name@, ptn_view(ptn@), child@);
                assert(f.subrange(0, start + 1) + rest =~= f.subrange(0, start as int) + (seq![sub[0]] + rest));
            }
            r
        },
    }
}

/// The node with the change made to the first element under it (in
/// document order) that matches the pattern; and whether there was one.
pub open spec fn edit_first_in(d: DomV, name: Seq<char>, ptn: Seq<(Seq<char>, Seq<char>)>, e: EditV) -> (DomV, bool) {
    let (c, done) = edit_first_spec(children_of(d), name, ptn, e);
    (if done { with_children(d, c) } else { d }, done)
}

/// Makes the change to the first element under `node` that matches the
/// pattern; tells whether there was one.
pub fn edit_first(node: &mut DomNode, name: &str, ptn: &[(&str, &str)], e: Edit) -> (res: bool)
    ensures
        (final(node)@, res) == edit_first_in(old(node)@, name@, ptn_view(ptn@), e@),
{
    let ghost d0 = node@;
    let mut slot = DomNode::Other;
    std::mem::swap(node, &mut slot);
    let (rebuilt, done) = match slot {
        DomNode::Document(mut c) => {
            proof {
                lemma_forest_view(c@);
                lemma_edit_first_not_done(forest_view(c@), name@, ptn_view(ptn@), e@);
            }
            assert(forest_view(c@).subrange(0, c@.len() as int) =~= forest_view(c@));
            let r = edit_first_from(&mut c, 0, name, ptn, e);
            assert(forest_view(c@) =~= Seq::<DomV>::empty() + forest_view(c@));
            (DomNode::Document(c), r.is_none())
        },
        DomNode::Element(n, a, mut c, ns) => {
            proof {
                lemma_forest_view(c@);
                lemma_edit_first_not_done(forest_view(c@), name@, ptn_view(ptn@), e@);
            }
            assert(forest_view(c@).subrange(0, c@.len() as int) =~= forest_view(c@));
            let r = edit_first_from(&mut c, 0, name, ptn, e);
            assert(forest_view(c@) =~= Seq::<DomV>::empty() + forest_view(c@));
            (DomNode::Element(n, a, c, ns), r.is_none())
        },
        other => {
            assert(edit_first_spec(Seq::<DomV>::empty(), name@, ptn_view(ptn@), e@).1 == false);
            (other, false)
        },
    };
    *node = rebuilt;
    done
}

impl DomNode {
    /// A copy of the whole tree.
    pub fn deep_clone(&self) -> (res: DomNode)
        ensures
            res@ == self@,
        decreases self,
    {
        match self {
            DomNode::Document(c) => {
                assert(decreases_to!(*self => (*self)->Document_0));
                DomNode::Document(clone_forest(c, Ghost(*self)))
            },
            DomNode::Doctype(n) => DomNode::Doctype(n.clone()),
            DomNode::Text(t) => DomNode::Text(t.clone()),
            DomNode::Comment(t) => DomNode::Comment(t.clone()),
            DomNode::Element(n, a, c, ns) => {
                let mut attrs: Vec<(String, String, String)> = Vec::new();
                let m = a.len();
                for i in 0..m
                    invariant
                        m == a@.len(),
                        attrs_view(attrs@) =~= attrs_view(a@).take(i as int),
                {
                    attrs.push((a[i].0.clone(), a[i].1.clone(), a[i].2.clone()));
                    assert(attrs_view(a@).take(i + 1) =~= attrs_view(a@).take(i as int).push((a@[i as int].0@, a@[i as int].1@, a@[i as int].2@)));
                }
                assert(attrs_view(a@).take(m as int) =~= attrs_view(a@));
                assert(decreases_to!(*self => (*self)->Element_2));
                DomNode::Element(n.clone(), attrs, clone_forest(c, Ghost(*self)), ns.clone())
            },
            DomNode::Other => DomNode::Other,
        }
    }
}

/// A copy of a list of trees held by `owner`.
fn clone_forest(c: &Vec<DomNode>, owner: Ghost<DomNode>) -> (res: Vec<DomNode>)
    requires
        decreases_to!(owner@ => *c),
    ensures
        forest_view(res@) == forest_view(c@),
    decreases owner@, 0int,
{
    proof {
        lemma_forest_view(c@);
    }
    let mut out: Vec<DomNode> = Vec::new();
    let n = c.len();
    for i in 0..n
        invariant
            n == c@.len(),
            decreases_to!(owner@ => *c),
            forest_view(c@).len() == n,
            forall|x: int| 0 <= x < n ==> #[trigger] forest_view(c@)[x] == c@[x]@,
            forest_view(out@) =~= forest_view(c@).take(i as int),
    {
        assert(decreases_to!(owner@ => c@[i as int])) by {
            assert(decreases_to!(*c => c@));
            assert(decreases_to!(c@ => c@[i as int]));
        }
        let d = c[i].deep_clone();
        let ghost before = out@;
        out.push(d);
        proof {
            assert(out@.drop_last() =~= before);
            assert(forest_view(c@).take(i + 1) =~= forest_view(c@).take(i as int).push(forest_view(c@)[i as int]));
        }
    }
    assert(forest_view(c@).take(n as int) =~= forest_view(c@));
    out
}

} // verus!