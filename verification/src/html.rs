//! Access to parsed HTML pages. Parsing and CSS selection are done by the
//! `scraper` crate; what a selection yields is handed to the library as plain
//! values ([`Node`]), and everything built on top of it is verified here.
//!
//! `scraper` is built with its `deterministic` feature, under which an
//! element keeps its attributes in an insertion-ordered map: attributes come
//! out, and `inner_html` serializes them, in source order. Without it the
//! order would follow a randomly seeded hash map, and the selection results
//! named below would not be functions of the page.

use vstd::prelude::*;
use scraper::Node as ScNode;

use crate::text::{concat, owned, starts_with, starts_with_exec, str_eq, trim, trim_end_matches, trim_end_matches_exec, trim_exec};

verus! {

/// One element of a page, as plain values.
#[derive(Debug, Clone)]
pub struct Node {
    /// Local tag name, such as `a` or `div`.
    pub tag: String,
    /// All descendant text, concatenated in document order.
    pub text: String,
    /// The serialized HTML of the element's children.
    pub inner_html: String,
    /// Attributes as (name, value) pairs, in source order (`scraper`'s
    /// `deterministic` feature keeps them so).
    pub attrs: Vec<(String, String)>,
}

/// View of a [`Node`].
pub struct NodeView {
    pub tag: Seq<char>,
    pub text: Seq<char>,
    pub inner_html: Seq<char>,
    pub attrs: Seq<(Seq<char>, Seq<char>)>,
}

impl View for Node {
    type V = NodeView;

    open spec fn view(&self) -> NodeView {
        NodeView {
            tag: self.tag@,
            text: self.text@,
            inner_html: self.inner_html@,
            attrs: self.attrs@.map_values(|p: (String, String)| (p.0@, p.1@)),
        }
    }
}

/// View of a list of nodes.
pub open spec fn nodes_view(v: Seq<Node>) -> Seq<NodeView> {
    v.map_values(|n: Node| n@)
}

/// `scraper::ElementRef`, a reference to an element of a parsed page.
#[verifier::external_type_specification]
#[verifier::external_body]
pub struct ExElementRef<'a>(scraper::ElementRef<'a>);

/// `scraper::ElementRef`: the element's name, `text()` concatenated,
/// `inner_html()` and attributes, converted to a [`Node`].
#[verifier::external_body]
fn node_of(e: &scraper::ElementRef) -> Node {
    Node {
        tag: e.value().name().to_string(),
        text: e.text().collect(),
        inner_html: e.inner_html(),
        attrs: e.value().attrs().map(|(k, v)| (k.to_string(), v.to_string())).collect(),
    }
}

/// The elements of the document `html` that match the CSS selector
/// `selector`, in document order (empty when the selector does not parse).
pub uninterp spec fn html_select(html: Seq<char>, selector: Seq<char>) -> Seq<NodeView>;

/// For each element of `html` matching `outer`, in document order, its
/// descendants matching `inner`, in document order.
pub uninterp spec fn html_select_in(html: Seq<char>, outer: Seq<char>, inner: Seq<char>) -> Seq<
    Seq<NodeView>,
>;

/// For each element of `html` matching `outer`, in document order, its
/// child elements in order.
pub uninterp spec fn html_children(html: Seq<char>, outer: Seq<char>) -> Seq<Seq<NodeView>>;

/// `scraper`: `Html::parse_document`, `Selector::parse`, `Html::select`; each
/// match converted to a [`Node`]. The result is a function of the two strings.
#[verifier::external_body]
pub(crate) fn select_all(html: &str, selector: &str) -> (r: Vec<Node>)
    ensures
        nodes_view(r@) == html_select(html@, selector@),
{
    let doc = scraper::Html::parse_document(html);
    match scraper::Selector::parse(selector) {
        Ok(sel) => doc.select(&sel).map(|e| node_of(&e)).collect(),
        Err(_) => Vec::new(),
    }
}

/// `scraper`: for each match of `outer`, `ElementRef::select` with `inner`.
#[verifier::external_body]
pub(crate) fn select_in(html: &str, outer: &str, inner: &str) -> (r: Vec<Vec<Node>>)
    ensures
        r@.map_values(|v: Vec<Node>| nodes_view(v@)) == html_select_in(html@, outer@, inner@),
{
    let doc = scraper::Html::parse_document(html);
    match (scraper::Selector::parse(outer), scraper::Selector::parse(inner)) {
        (Ok(o), Ok(i)) => doc.select(&o).map(|p| p.select(&i).map(|e| node_of(&e)).collect()).collect(),
        _ => Vec::new(),
    }
}

/// `scraper`: for each match of `outer`, its child elements.
#[verifier::external_body]
pub(crate) fn children_in(html: &str, outer: &str) -> (r: Vec<Vec<Node>>)
    ensures
        r@.map_values(|v: Vec<Node>| nodes_view(v@)) == html_children(html@, outer@),
{
    let doc = scraper::Html::parse_document(html);
    match scraper::Selector::parse(outer) {
        Ok(o) => doc.select(&o).map(|p| p.child_elements().map(|e| node_of(&e)).collect()).collect(),
        Err(_) => Vec::new(),
    }
}


/// For each element of `html` matching `outer`, in document order: for each
/// selector of `inners`, in order, its descendants matching that selector.
pub uninterp spec fn html_select_fields(html: Seq<char>, outer: Seq<char>, inners: Seq<Seq<char>>) -> Seq<
    Seq<Seq<NodeView>>,
>;

/// View of the selections of one element.
pub open spec fn groups_view(g: Seq<Vec<Node>>) -> Seq<Seq<NodeView>> {
    g.map_values(|v: Vec<Node>| nodes_view(v@))
}

/// View of a list of strings.
pub open spec fn strs_view(v: Seq<&str>) -> Seq<Seq<char>> {
    v.map_values(|s: &str| s@)
}

/// `scraper`: for each match of `outer`, `ElementRef::select` with each of `inners`.
#[verifier::external_body]
pub(crate) fn select_fields(html: &str, outer: &str, inners: &Vec<&str>) -> (r: Vec<Vec<Vec<Node>>>)
    ensures
        r@.map_values(|item: Vec<Vec<Node>>| groups_view(item@)) == html_select_fields(html@, outer@, strs_view(inners@)),
{
    let doc = scraper::Html::parse_document(html);
    let sels: Vec<Option<scraper::Selector>> = inners.iter().map(|s| scraper::Selector::parse(s).ok()).collect();
    match scraper::Selector::parse(outer) {
        Ok(o) => doc.select(&o).map(|p| sels.iter().map(|si| match si { Some(si) => p.select(si).map(|e| node_of(&e)).collect(), None => Vec::new() }).collect()).collect(),
        Err(_) => Vec::new(),
    }
}

/// Trimmed text of the first node of selection `k` of an element, or empty.
pub open spec fn group_text(item: Seq<Seq<NodeView>>, k: int) -> Seq<char> {
    if 0 <= k < item.len() {
        first_text(item[k])
    } else {
        Seq::empty()
    }
}

/// Attribute `name` of the first node of selection `k` of an element, or empty.
pub open spec fn group_attr(item: Seq<Seq<NodeView>>, k: int, name: Seq<char>) -> Seq<char> {
    if 0 <= k < item.len() {
        first_attr(item[k], name)
    } else {
        Seq::empty()
    }
}

/// Trimmed text of the first node of selection `k`, or empty.
pub fn group_text_exec(item: &Vec<Vec<Node>>, k: usize) -> (r: String)
    ensures
        r@ == group_text(groups_view(item@), k as int),
{
    if k < item.len() && item[k].len() > 0 {
        element_text(&item[k][0])
    } else {
        String::new()
    }
}

/// Attribute `name` of the first node of selection `k`, or empty.
pub fn group_attr_exec(item: &Vec<Vec<Node>>, k: usize, name: &str) -> (r: String)
    ensures
        r@ == group_attr(groups_view(item@), k as int, name@),
{
    if k < item.len() && item[k].len() > 0 {
        attr_or_empty_exec(&item[k][0], name)
    } else {
        String::new()
    }
}

// ─── what providers read of nodes ──────────────────────────────────────────

/// The value of the first attribute named `name`, if any.
pub open spec fn attr_value(attrs: Seq<(Seq<char>, Seq<char>)>, name: Seq<char>) -> Option<Seq<char>>
    decreases attrs.len(),
{
    if attrs.len() == 0 {
        None
    } else if attrs[0].0 == name {
        Some(attrs[0].1)
    } else {
        attr_value(attrs.skip(1), name)
    }
}

/// The value of attribute `name` of `node`, if present.
pub fn node_attr(node: &Node, name: &str) -> (r: Option<String>)
    ensures
        opt_str_view(r) == attr_value(node@.attrs, name@),
{
    let mut i: usize = 0;
    let ghost all = node@.attrs;
    assert(all.skip(0) =~= all);
    while i < node.attrs.len()
        invariant
            i <= node.attrs.len(),
            all == node@.attrs,
            all.len() == node.attrs@.len(),
            attr_value(all, name@) == attr_value(all.skip(i as int), name@),
        decreases node.attrs.len() - i,
    {
        let ghost rest = all.skip(i as int);
        assert(rest[0] == (node.attrs@[i as int].0@, node.attrs@[i as int].1@));
        if str_eq(node.attrs[i].0.as_str(), name) {
            return Some(node.attrs[i].1.clone());
        }
        assert(rest.skip(1) =~= all.skip(i + 1));
        i += 1;
    }
    None
}

/// View of an optional string.
pub open spec fn opt_str_view(o: Option<String>) -> Option<Seq<char>> {
    match o {
        Some(s) => Some(s@),
        None => None,
    }
}

/// The value of attribute `name`, or empty.
pub open spec fn attr_or_empty(n: NodeView, name: Seq<char>) -> Seq<char> {
    match attr_value(n.attrs, name) {
        Some(v) => v,
        None => Seq::empty(),
    }
}

/// The text of an element, trimmed.
pub open spec fn node_text(n: NodeView) -> Seq<char> {
    trim(n.text)
}

/// The trimmed text of an element.
pub fn element_text(node: &Node) -> (r: String)
    ensures
        r@ == node_text(node@),
{
    trim_exec(node.text.as_str())
}

/// The attribute `name` of an element, or empty.
pub fn attr_or_empty_exec(node: &Node, name: &str) -> (r: String)
    ensures
        r@ == attr_or_empty(node@, name@),
{
    match node_attr(node, name) {
        Some(v) => v,
        None => String::new(),
    }
}

/// The trimmed text of the first node, or empty.
pub open spec fn first_text(nodes: Seq<NodeView>) -> Seq<char> {
    if nodes.len() > 0 {
        node_text(nodes[0])
    } else {
        Seq::empty()
    }
}

/// The attribute of the first node, or empty.
pub open spec fn first_attr(nodes: Seq<NodeView>, name: Seq<char>) -> Seq<char> {
    if nodes.len() > 0 {
        attr_or_empty(nodes[0], name)
    } else {
        Seq::empty()
    }
}

/// Trimmed text of the first element matching `selector`, or empty.
pub open spec fn sel_text(html: Seq<char>, selector: Seq<char>) -> Seq<char> {
    first_text(html_select(html, selector))
}

/// Attribute `name` of the first element matching `selector`, or empty.
pub open spec fn sel_attr(html: Seq<char>, selector: Seq<char>, name: Seq<char>) -> Seq<char> {
    first_attr(html_select(html, selector), name)
}

/// Trimmed text of the first element of `html` that matches `selector`, or empty.
pub fn select_text(html: &str, selector: &str) -> (r: String)
    ensures
        r@ == sel_text(html@, selector@),
{
    let nodes = select_all(html, selector);
    if nodes.len() > 0 {
        element_text(&nodes[0])
    } else {
        String::new()
    }
}

/// Attribute `name` of the first element of `html` that matches `selector`,
/// or empty.
pub fn select_attr(html: &str, selector: &str, name: &str) -> (r: String)
    ensures
        r@ == sel_attr(html@, selector@, name@),
{
    let nodes = select_all(html, selector);
    if nodes.len() > 0 {
        attr_or_empty_exec(&nodes[0], name)
    } else {
        String::new()
    }
}

/// The `content` of `<meta property="key">`, else of `<meta name="key">`.
pub open spec fn meta(html: Seq<char>, key: Seq<char>) -> Seq<char> {
    let by_property = sel_attr(html, "meta[property=\""@ + key + "\"]"@, "content"@);
    if by_property.len() > 0 {
        by_property
    } else {
        sel_attr(html, "meta[name=\""@ + key + "\"]"@, "content"@)
    }
}

/// The `content` of the page's `<meta>` tag for `key`, or empty.
pub fn meta_content(html: &str, key: &str) -> (r: String)
    ensures
        r@ == meta(html@, key@),
{
    let sel = concat(concat("meta[property=\"", key).as_str(), "\"]");
    let v = select_attr(html, sel.as_str(), "content");
    if !v.as_str().is_empty() {
        return v;
    }
    let sel2 = concat(concat("meta[name=\"", key).as_str(), "\"]");
    select_attr(html, sel2.as_str(), "content")
}

/// The first non-empty of two strings (the second when both are empty).
pub open spec fn or_else(a: Seq<char>, b: Seq<char>) -> Seq<char> {
    if a.len() > 0 {
        a
    } else {
        b
    }
}

/// An absolute URL for a link found on a page of `base`: absolute links stay,
/// `//host/…` gets `https:`, `/path` is joined to the site, and a relative
/// path gets a `/` in between.
pub open spec fn normalized_url(base: Seq<char>, href: Seq<char>) -> Seq<char> {
    if starts_with(href, "http"@) {
        href
    } else if starts_with(href, "//"@) {
        "https:"@ + href
    } else if starts_with(href, "/"@) {
        trim_end_matches(base, "/"@) + href
    } else {
        trim_end_matches(base, "/"@) + "/"@ + href
    }
}

/// The absolute URL of a link found on a page of the site `base`.
pub fn normalize_url(base: &str, href: &str) -> (r: String)
    ensures
        r@ == normalized_url(base@, href@),
{
    if starts_with_exec(href, "http") {
        return owned(href);
    }
    if starts_with_exec(href, "//") {
        return concat("https:", href);
    }
    let b = trim_end_matches_exec(base, "/");
    if starts_with_exec(href, "/") {
        concat(b.as_str(), href)
    } else {
        concat(concat(b.as_str(), "/").as_str(), href)
    }
}


/// For each element of `html` matching `selector`, in document order, its
/// descendant text nodes in order.
pub uninterp spec fn html_text_nodes(html: Seq<char>, selector: Seq<char>) -> Seq<Seq<Seq<char>>>;

/// `scraper`: for each match of `selector`, `ElementRef::text()` collected.
#[verifier::external_body]
pub(crate) fn select_text_nodes(html: &str, selector: &str) -> (r: Vec<Vec<String>>)
    ensures
        r@.map_values(|v: Vec<String>| v@.map_values(|t: String| t@)) == html_text_nodes(html@, selector@),
{
    let doc = scraper::Html::parse_document(html);
    match scraper::Selector::parse(selector) {
        Ok(sel) => doc.select(&sel).map(|e| e.text().map(|t| t.to_string()).collect()).collect(),
        Err(_) => Vec::new(),
    }
}


/// The elements of the HTML fragment `html` that match `selector`, in
/// document order (empty when the selector does not parse).
pub uninterp spec fn html_fragment_select(html: Seq<char>, selector: Seq<char>) -> Seq<NodeView>;

/// `scraper`: `Html::parse_fragment`, then `Html::select`; each match
/// converted to a [`Node`].
#[verifier::external_body]
pub(crate) fn fragment_select(html: &str, selector: &str) -> (r: Vec<Node>)
    ensures
        nodes_view(r@) == html_fragment_select(html@, selector@),
{
    let doc = scraper::Html::parse_fragment(html);
    match scraper::Selector::parse(selector) {
        Ok(sel) => doc.select(&sel).map(|e| node_of(&e)).collect(),
        Err(_) => Vec::new(),
    }
}


/// A child of an element: an element, a text node, or something else
/// (a comment, say).
#[derive(Debug)]
pub enum Child {
    Elem(Node),
    Text(String),
    Other,
}

/// View of a [`Child`].
pub enum ChildView {
    Elem(NodeView),
    Text(Seq<char>),
    Other,
}

/// View of a child.
pub open spec fn child_view(c: Child) -> ChildView {
    match c {
        Child::Elem(n) => ChildView::Elem(n@),
        Child::Text(t) => ChildView::Text(t@),
        Child::Other => ChildView::Other,
    }
}

/// View of a list of children.
pub open spec fn children_view(v: Seq<Child>) -> Seq<ChildView> {
    v.map_values(|c: Child| child_view(c))
}

/// For each element of `html` matching `selector`, in document order, its
/// child nodes in order.
pub uninterp spec fn html_child_nodes(html: Seq<char>, selector: Seq<char>) -> Seq<Seq<ChildView>>;

/// `scraper`: for each match of `selector`, its `children()`, elements
/// converted to [`Node`]s and text nodes to their text.
#[verifier::external_body]
pub(crate) fn select_child_nodes(html: &str, selector: &str) -> (r: Vec<Vec<Child>>)
    ensures
        r@.map_values(|v: Vec<Child>| children_view(v@)) == html_child_nodes(html@, selector@),
{
    let doc = scraper::Html::parse_document(html);
    match scraper::Selector::parse(selector) {
        Ok(sel) => doc.select(&sel).map(|e| e.children().map(|c| match (scraper::ElementRef::wrap(c), c.value().as_text()) {
            (Some(el), _) => Child::Elem(node_of(&el)),
            (None, Some(t)) => Child::Text(t.to_string()),
            (None, None) => Child::Other,
        }).collect()).collect(),
        Err(_) => Vec::new(),
    }
}


/// View of the first `mid` element of an outer element with its `inner`
/// elements.
pub open spec fn nested_view(o: Option<(Node, Vec<Node>)>) -> Option<(NodeView, Seq<NodeView>)> {
    match o {
        Some((m, v)) => Some((m@, nodes_view(v@))),
        None => None,
    }
}

/// For each element of `html` matching `outer`, in document order: its
/// first descendant matching `mid`, if any, with that element's
/// descendants matching `inner`, in order.
pub uninterp spec fn html_first_nested(html: Seq<char>, outer: Seq<char>, mid: Seq<char>, inner: Seq<char>) -> Seq<
    Option<(NodeView, Seq<NodeView>)>,
>;

/// `scraper`: for each match of `outer`, `select(mid).next()`, then that
/// element's `select(inner)`.
#[verifier::external_body]
pub(crate) fn select_first_nested(html: &str, outer: &str, mid: &str, inner: &str) -> (r: Vec<Option<(Node, Vec<Node>)>>)
    ensures
        r@.map_values(|o: Option<(Node, Vec<Node>)>| nested_view(o)) == html_first_nested(html@, outer@, mid@, inner@),
{
    let doc = scraper::Html::parse_document(html);
    match (scraper::Selector::parse(outer), scraper::Selector::parse(mid), scraper::Selector::parse(inner)) {
        (Ok(o), Ok(m), Ok(i)) => doc.select(&o).map(|e| e.select(&m).next().map(|a| (node_of(&a), a.select(&i).map(|x| node_of(&x)).collect()))).collect(),
        _ => Vec::new(),
    }
}


/// View of the first `mid` element of an outer element with its text pieces.
pub open spec fn pieces_view(o: Option<(Node, Vec<String>)>) -> Option<(NodeView, Seq<Seq<char>>)> {
    match o {
        Some((m, v)) => Some((m@, v@.map_values(|t: String| t@))),
        None => None,
    }
}

/// For each element of `html` matching `outer`, in document order: its
/// first descendant matching `mid`, if any, with that element's text nodes
/// in order.
pub uninterp spec fn html_first_pieces(html: Seq<char>, outer: Seq<char>, mid: Seq<char>) -> Seq<
    Option<(NodeView, Seq<Seq<char>>)>,
>;

/// `scraper`: for each match of `outer`, `select(mid).next()` with its `text()`.
#[verifier::external_body]
pub(crate) fn select_first_pieces(html: &str, outer: &str, mid: &str) -> (r: Vec<Option<(Node, Vec<String>)>>)
    ensures
        r@.map_values(|o: Option<(Node, Vec<String>)>| pieces_view(o)) == html_first_pieces(html@, outer@, mid@),
{
    let doc = scraper::Html::parse_document(html);
    match (scraper::Selector::parse(outer), scraper::Selector::parse(mid)) {
        (Ok(o), Ok(m)) => doc.select(&o).map(|e| e.select(&m).next().map(|a| (node_of(&a), a.text().map(|t| t.to_string()).collect()))).collect(),
        _ => Vec::new(),
    }
}


/// A node met in a walk through an element's subtree.
#[derive(Debug)]
pub enum Piece {
    /// An element: its tag and its `class` attribute.
    Elem(String, Option<String>),
    Text(String),
    Other,
}

/// View of a [`Piece`].
pub enum PieceView {
    Elem(Seq<char>, Option<Seq<char>>),
    Text(Seq<char>),
    Other,
}

/// View of a node met in a walk, with its depth in the document.
pub open spec fn piece_view(p: (usize, Piece)) -> (int, PieceView) {
    (
        p.0 as int,
        match p.1 {
            Piece::Elem(t, c) => PieceView::Elem(t@, opt_str_view(c)),
            Piece::Text(t) => PieceView::Text(t@),
            Piece::Other => PieceView::Other,
        },
    )
}

/// View of a walk.
pub open spec fn walk_view(v: Seq<(usize, Piece)>) -> Seq<(int, PieceView)> {
    v.map_values(|p: (usize, Piece)| piece_view(p))
}

/// For each element of `html` matching `selector`, in document order: the
/// element and its descendants in document order, each with its depth (its
/// number of ancestors).
pub uninterp spec fn html_walks(html: Seq<char>, selector: Seq<char>) -> Seq<Seq<(int, PieceView)>>;

/// `scraper`: for each match of `selector`, `descendants()`, each with
/// `ancestors().count()`; elements as their name and `class`, text nodes as
/// their text.
#[verifier::external_body]
pub(crate) fn select_walks(html: &str, selector: &str) -> (r: Vec<Vec<(usize, Piece)>>)
    ensures
        r@.map_values(|v: Vec<(usize, Piece)>| walk_view(v@)) == html_walks(html@, selector@),
{
    let doc = scraper::Html::parse_document(html);
    let Ok(sel) = scraper::Selector::parse(selector) else {
        return Vec::new();
    };
    doc.select(&sel).map(|e| e.descendants().map(|n| (n.ancestors().count(), match n.value() {
        ScNode::Element(el) => Piece::Elem(el.name().to_string(), el.attr("class").map(|c| c.to_string())),
        ScNode::Text(t) => Piece::Text(t.to_string()),
        _ => Piece::Other,
    })).collect()).collect()
}


/// Like [`html_select_fields`], for an HTML fragment.
pub uninterp spec fn html_fragment_fields(html: Seq<char>, outer: Seq<char>, inners: Seq<Seq<char>>) -> Seq<
    Seq<Seq<NodeView>>,
>;

/// `scraper`: `Html::parse_fragment`, then for each match of `outer`,
/// `ElementRef::select` with each of `inners`.
#[verifier::external_body]
pub(crate) fn fragment_fields(html: &str, outer: &str, inners: &Vec<&str>) -> (r: Vec<Vec<Vec<Node>>>)
    ensures
        r@.map_values(|item: Vec<Vec<Node>>| groups_view(item@)) == html_fragment_fields(html@, outer@, strs_view(inners@)),
{
    let doc = scraper::Html::parse_fragment(html);
    let sels: Vec<Option<scraper::Selector>> = inners.iter().map(|s| scraper::Selector::parse(s).ok()).collect();
    match scraper::Selector::parse(outer) {
        Ok(o) => doc.select(&o).map(|p| sels.iter().map(|si| match si { Some(si) => p.select(si).map(|e| node_of(&e)).collect(), None => Vec::new() }).collect()).collect(),
        Err(_) => Vec::new(),
    }
}

/// View of an element with its `inner` elements.
pub open spec fn with_inner_view(p: (Node, Vec<Node>)) -> (NodeView, Seq<NodeView>) {
    (p.0@, nodes_view(p.1@))
}

/// For each element of `html` matching `outer`, in document order: each of
/// its descendants matching `mid`, in order, with that element's
/// descendants matching `inner`, in order.
pub uninterp spec fn html_nested(html: Seq<char>, outer: Seq<char>, mid: Seq<char>, inner: Seq<char>) -> Seq<
    Seq<(NodeView, Seq<NodeView>)>,
>;

/// `scraper`: for each match of `outer`, each match of `mid` in it with that
/// element's `select(inner)`.
#[verifier::external_body]
pub(crate) fn select_nested(html: &str, outer: &str, mid: &str, inner: &str) -> (r: Vec<Vec<(Node, Vec<Node>)>>)
    ensures
        r@.map_values(|v: Vec<(Node, Vec<Node>)>| v@.map_values(|p: (Node, Vec<Node>)| with_inner_view(p)))
            == html_nested(html@, outer@, mid@, inner@),
{
    let doc = scraper::Html::parse_document(html);
    let (Ok(o), Ok(m), Ok(i)) = (scraper::Selector::parse(outer), scraper::Selector::parse(mid), scraper::Selector::parse(inner)) else {
        return Vec::new();
    };
    doc.select(&o).map(|e| e.select(&m).map(|a| (node_of(&a), a.select(&i).map(|x| node_of(&x)).collect())).collect()).collect()
}

} // verus!
