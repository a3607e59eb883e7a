//! The document tree that a page load builds: nodes kept in an arena and
//! named by their index, each with its parent and its ordered children.
use vstd::prelude::*;

use crate::messages::UrlRef;
use crate::tags::{
    element_type_of_tag, heading_level_of_tag, spec_heading_level, spec_tag_type, str_eq,
    ElementTypeId, HeadingLevel,
};

verus! {

/// An attribute of an element: its name and its value.
#[derive(Debug)]
pub struct Attr {
    pub name: String,
    pub value: String,
}

/// A doctype declaration as the parser reports it.
#[derive(Debug)]
pub struct Doctype {
    pub name: String,
    pub public_id: Option<String>,
    pub system_id: Option<String>,
    pub force_quirks: bool,
}

/// An element: its kind, its tag name as written, its attributes in document
/// order, its level where it is a heading, and the image it shows where it is
/// an image element.
#[derive(Debug)]
pub struct Element {
    pub type_id: ElementTypeId,
    pub tag_name: String,
    pub attrs: Vec<Attr>,
    pub level: Option<HeadingLevel>,
    pub image: Option<UrlRef>,
}

/// The content of one node of the tree.
#[derive(Debug)]
pub enum NodeData {
    Comment(String),
    Doctype(Doctype),
    Element(Element),
    Text(String),
}

/// The value of the first attribute named `name`, where there is one.
pub open spec fn first_attr_value(attrs: Seq<Attr>, name: Seq<char>) -> Option<Seq<char>>
    decreases attrs.len(),
{
    if attrs.len() == 0 {
        None
    } else if attrs[0].name@ == name {
        Some(attrs[0].value@)
    } else {
        first_attr_value(attrs.drop_first(), name)
    }
}

/// Attribute lookup finds the first attribute of that name wherever it
/// stands, whatever the names and values of the attributes before it.
pub proof fn lemma_first_attr_found(attrs: Seq<Attr>, name: Seq<char>, k: int)
    requires
        0 <= k < attrs.len(),
        attrs[k].name@ == name,
        forall|j: int| 0 <= j < k ==> attrs[j].name@ != name,
    ensures
        first_attr_value(attrs, name) == Some(attrs[k].value@),
    decreases k,
{
    if k > 0 {
        assert(attrs[0].name@ != name);
        let rest = attrs.drop_first();
        assert forall|j: int| 0 <= j < k - 1 implies rest[j].name@ != name by {
            assert(rest[j] == attrs[j + 1]);
        }
        lemma_first_attr_found(rest, name, k - 1);
    }
}

/// Attribute lookup finds nothing exactly when no attribute has that name.
pub proof fn lemma_first_attr_absent(attrs: Seq<Attr>, name: Seq<char>)
    ensures
        (first_attr_value(attrs, name) is None) <==> (forall|j: int|
            0 <= j < attrs.len() ==> #[trigger] attrs[j].name@ != name),
    decreases attrs.len(),
{
    if attrs.len() > 0 {
        let rest = attrs.drop_first();
        lemma_first_attr_absent(rest, name);
        if attrs[0].name@ != name {
            assert forall|j: int| 0 <= j < attrs.len() && (forall|i: int|
                0 <= i < rest.len() ==> #[trigger] rest[i].name@ != name) implies #[trigger] attrs[j].name@
                != name by {
                if j > 0 {
                    assert(attrs[j] == rest[j - 1]);
                }
            }
            assert((forall|j: int| 0 <= j < attrs.len() ==> #[trigger] attrs[j].name@ != name) ==> (
            forall|i: int| 0 <= i < rest.len() ==> #[trigger] rest[i].name@ != name)) by {
                assert forall|i: int| (forall|j: int| 0 <= j < attrs.len() ==> #[trigger] attrs[j].name@ != name) && 0 <= i < rest.len() implies #[trigger] rest[i].name@ != name by {
                    assert(rest[i] == attrs[i + 1]);
                }
            }
        } else {
            assert(attrs[0].name@ == name);
        }
    }
}

/// `e` is a fresh element for the tag name `tag`: its kind and level come from
/// the tag table, it keeps the name as written, and it has no attributes and
/// no image yet.
pub open spec fn is_fresh_element(e: Element, tag: Seq<char>) -> bool {
    &&& e.type_id == spec_tag_type(tag)
    &&& e.tag_name@ == tag
    &&& e.level == spec_heading_level(tag)
    &&& e.attrs@.len() == 0
    &&& e.image is None
}

/// Makes the element that the tag name `tag` stands for.
pub fn build_element_from_tag(tag: &str) -> (e: Element)
    ensures
        is_fresh_element(e, tag@),
{
    let type_id = element_type_of_tag(tag);
    let level = heading_level_of_tag(tag);
    Element { type_id, tag_name: tag.to_owned(), attrs: Vec::new(), level, image: None }
}

/// The value of the first attribute of `attrs` named `name`.
pub fn find_attr(attrs: &Vec<Attr>, name: &str) -> (r: Option<String>)
    ensures
        r matches Some(v) ==> first_attr_value(attrs@, name@) == Some(v@),
        r is None ==> first_attr_value(attrs@, name@) is None,
{
    let n = attrs.len();
    let mut i: usize = 0;
    assert(attrs@.subrange(0, n as int) =~= attrs@);
    while i < n
        invariant
            n == attrs@.len(),
            i <= n,
            first_attr_value(attrs@, name@) == first_attr_value(attrs@.subrange(i as int, n as int), name@),
        decreases n - i,
    {
        let a = &attrs[i];
        if str_eq(a.name.as_str(), name) {
            return Some(a.value.clone());
        }
        assert(attrs@.subrange(i as int, n as int).drop_first() =~= attrs@.subrange(i + 1, n as int));
        i = i + 1;
    }
    None
}

impl Element {
    /// The value of this element's first attribute named `name`.
    pub fn get_attr(&self, name: &str) -> (r: Option<String>)
        ensures
            r matches Some(v) ==> first_attr_value(self.attrs@, name@) == Some(v@),
            r is None ==> first_attr_value(self.attrs@, name@) is None,
    {
        find_attr(&self.attrs, name)
    }
}

/// The document tree. Node `i` has the content `nodes[i]`, the parent
/// `parents[i]` and the children `children[i]`, in order.
pub struct Document {
    nodes: Vec<NodeData>,
    parents: Vec<Option<usize>>,
    children: Vec<Vec<usize>>,
}

impl Document {
    /// The number of nodes.
    pub closed spec fn node_count(&self) -> nat {
        self.nodes@.len()
    }

    /// The content of node `i`.
    pub closed spec fn node(&self, i: int) -> NodeData {
        self.nodes@[i]
    }

    /// The parent of node `i`, where it has one.
    pub closed spec fn parent_of(&self, i: int) -> Option<usize> {
        self.parents@[i]
    }

    /// The children of node `i`, in order.
    pub closed spec fn children_of(&self, i: int) -> Seq<usize> {
        self.children@[i]@
    }

    /// `i` names a node of this tree.
    pub open spec fn has_node(&self, i: int) -> bool {
        0 <= i < self.node_count()
    }

    /// The tree is consistent: every parent and child names a node, a node's
    /// parent lists it among its children, every child of a node has that
    /// node as its parent, and no node is listed twice among its parent's
    /// children.
    pub closed spec fn wf(&self) -> bool {
        &&& self.parents@.len() == self.nodes@.len()
        &&& self.children@.len() == self.nodes@.len()
        &&& forall|i: int| #![trigger self.parents@[i]]
            0 <= i < self.nodes@.len() ==> match self.parents@[i] {
                Some(p) => p < self.nodes@.len() && self.children@[p as int]@.contains(i as usize),
                None => true,
            }
        &&& forall|i: int, j: int| #![trigger self.children@[i]@[j]]
            0 <= i < self.nodes@.len() && 0 <= j < self.children@[i]@.len() ==> {
                let c = self.children@[i]@[j];
                &&& c < self.nodes@.len()
                &&& self.parents@[c as int] == Some(i as usize)
            }
        &&& forall|i: int, j: int, k: int| #![trigger self.children@[i]@[j], self.children@[i]@[k]]
            0 <= i < self.nodes@.len() && 0 <= j < self.children@[i]@.len()
                && 0 <= k < self.children@[i]@.len() && j != k ==> self.children@[i]@[j]
                != self.children@[i]@[k]
    }

    /// In a consistent tree, a node's parent names a node and lists it among
    /// its children, and each child of a node names a node whose parent is
    /// that node.
    pub proof fn lemma_parent_child_agree(&self, i: int)
        requires
            self.wf(),
            self.has_node(i),
        ensures
            self.parent_of(i) matches Some(p) ==> self.has_node(p as int) && self.children_of(
                p as int,
            ).contains(i as usize),
            forall|j: int|
                0 <= j < self.children_of(i).len() ==> self.has_node(
                    #[trigger] self.children_of(i)[j] as int,
                ) && self.parent_of(self.children_of(i)[j] as int) == Some(i as usize),
    {
        assert(self.parents@[i] == self.parents@[i]);
        assert forall|j: int| 0 <= j < self.children_of(i).len() implies self.has_node(
            #[trigger] self.children_of(i)[j] as int,
        ) && self.parent_of(self.children_of(i)[j] as int) == Some(i as usize) by {
            assert(self.children@[i]@[j] == self.children@[i]@[j]);
        }
    }

    /// An empty tree.
    pub fn new() -> (d: Document)
        ensures
            d.wf(),
            d.node_count() == 0,
    {
        Document { nodes: Vec::new(), parents: Vec::new(), children: Vec::new() }
    }

    /// The number of nodes.
    pub fn len(&self) -> (n: usize)
        requires
            self.wf(),
        ensures
            n == self.node_count(),
    {
        self.nodes.len()
    }

    /// The content of node `i`.
    pub fn get(&self, i: usize) -> (r: &NodeData)
        requires
            self.wf(),
            self.has_node(i as int),
        ensures
            *r == self.node(i as int),
    {
        &self.nodes[i]
    }

    /// The parent of node `i`.
    pub fn parent(&self, i: usize) -> (r: Option<usize>)
        requires
            self.wf(),
            self.has_node(i as int),
        ensures
            r == self.parent_of(i as int),
    {
        self.parents[i]
    }

    /// The children of node `i`, in order.
    pub fn children(&self, i: usize) -> (r: &Vec<usize>)
        requires
            self.wf(),
            self.has_node(i as int),
        ensures
            r@ == self.children_of(i as int),
    {
        &self.children[i]
    }

    /// Adds a node with no parent and no children, and returns its name.
    pub fn add_node(&mut self, data: NodeData) -> (id: usize)
        requires
            old(self).wf(),
        ensures
            final(self).wf(),
            id == old(self).node_count(),
            final(self).node_count() == old(self).node_count() + 1,
            final(self).node(id as int) == data,
            final(self).parent_of(id as int) is None,
            final(self).children_of(id as int).len() == 0,
            forall|i: int|
                #![trigger final(self).node(i)]
                #![trigger final(self).parent_of(i)]
                #![trigger final(self).children_of(i)]
                old(self).has_node(i) ==> final(self).node(i) == old(self).node(i)
                    && final(self).parent_of(i) == old(self).parent_of(i)
                    && final(self).children_of(i) == old(self).children_of(i),
    {
        let id = self.nodes.len();
        self.nodes.push(data);
        self.parents.push(None);
        self.children.push(Vec::new());
        proof {
            let n = self.nodes@.len() as int;
            assert forall|i: int| #![trigger self.parents@[i]] 0 <= i < n implies match self.parents@[i] {
                Some(p) => p < n && self.children@[p as int]@.contains(i as usize),
                None => true,
            } by {
                if i < n - 1 {
                    assert(old(self).parents@[i] == self.parents@[i]);
                }
            }
            assert forall|i: int, j: int| #![trigger self.children@[i]@[j]]
                0 <= i < n && 0 <= j < self.children@[i]@.len() implies {
                let c = self.children@[i]@[j];
                &&& c < n
                &&& self.parents@[c as int] == Some(i as usize)
            } by {
                assert(old(self).children@[i]@[j] == self.children@[i]@[j]);
            }
            assert forall|i: int, j: int, k: int| #![trigger self.children@[i]@[j], self.children@[i]@[k]]
                0 <= i < n && 0 <= j < self.children@[i]@.len() && 0 <= k < self.children@[i]@.len()
                    && j != k implies self.children@[i]@[j] != self.children@[i]@[k] by {
                assert(old(self).children@[i]@[j] == self.children@[i]@[j]);
                assert(old(self).children@[i]@[k] == self.children@[i]@[k]);
            }
        }
        id
    }

    /// Makes `child` the last child of `parent`.
    pub fn append_child(&mut self, parent: usize, child: usize)
        requires
            old(self).wf(),
            old(self).has_node(parent as int),
            old(self).has_node(child as int),
            old(self).parent_of(child as int) is None,
        ensures
            final(self).wf(),
            final(self).node_count() == old(self).node_count(),
            final(self).parent_of(child as int) == Some(parent),
            final(self).children_of(parent as int) == old(self).children_of(parent as int).push(
                child,
            ),
            forall|i: int|
                #![trigger final(self).node(i)]
                old(self).has_node(i) ==> final(self).node(i) == old(self).node(i),
            forall|i: int|
                #![trigger final(self).parent_of(i)]
                old(self).has_node(i) && i != child ==> final(self).parent_of(i) == old(
                    self,
                ).parent_of(i),
            forall|i: int|
                #![trigger final(self).children_of(i)]
                old(self).has_node(i) && i != parent ==> final(self).children_of(i) == old(
                    self,
                ).children_of(i),
    {
        let ghost old_children = self.children@;
        let ghost old_parents = self.parents@;
        proof {
            // The child is nobody's child yet.
            assert forall|i: int, j: int|
                0 <= i < old_children.len() && 0 <= j < old_children[i]@.len() implies #[trigger] old_children[i]@[j]
                != child by {
                assert(self.children@[i]@[j] == old_children[i]@[j]);
            }
        }
        self.parents.set(child, Some(parent));
        let mut list: Vec<usize> = Vec::new();
        self.children.set_and_swap(parent, &mut list);
        list.push(child);
        self.children.set_and_swap(parent, &mut list);
        proof {
            let n = self.nodes@.len() as int;
            assert(self.children@[parent as int]@ == old_children[parent as int]@.push(child));
            assert forall|i: int| #![trigger self.parents@[i]] 0 <= i < n implies match self.parents@[i] {
                Some(p) => p < n && self.children@[p as int]@.contains(i as usize),
                None => true,
            } by {
                if i == child {
                    assert(self.children@[parent as int]@[old_children[parent as int]@.len() as int]
                        == child);
                } else {
                    assert(old_parents[i] == self.parents@[i]);
                    if let Some(p) = old_parents[i] {
                        let j = choose|j: int| 0 <= j < old_children[p as int]@.len()
                            && old_children[p as int]@[j] == i as usize;
                        assert(self.children@[p as int]@[j] == i as usize);
                    }
                }
            }
            assert forall|i: int, j: int| #![trigger self.children@[i]@[j]]
                0 <= i < n && 0 <= j < self.children@[i]@.len() implies {
                let c = self.children@[i]@[j];
                &&& c < n
                &&& self.parents@[c as int] == Some(i as usize)
            } by {
                if i == parent && j == old_children[parent as int]@.len() {
                } else {
                    assert(old_children[i]@[j] == self.children@[i]@[j]);
                    assert(old_children[i]@[j] != child);
                }
            }
            assert forall|i: int, j: int, k: int| #![trigger self.children@[i]@[j], self.children@[i]@[k]]
                0 <= i < n && 0 <= j < self.children@[i]@.len() && 0 <= k < self.children@[i]@.len()
                    && j != k implies self.children@[i]@[j] != self.children@[i]@[k] by {
                let m = old_children[i]@.len() as int;
                if i == parent && (j == m || k == m) {
                    if j == m {
                        assert(old_children[i]@[k] != child);
                    } else {
                        assert(old_children[i]@[j] != child);
                    }
                } else {
                    assert(old_children[i]@[j] == self.children@[i]@[j]);
                    assert(old_children[i]@[k] == self.children@[i]@[k]);
                }
            }
        }
    }

    /// Node `i` is an element of kind `style`.
    pub open spec fn spec_is_style_element(&self, i: int) -> bool {
        self.node(i) matches NodeData::Element(e) && e.type_id == ElementTypeId::HTMLStyleElementTypeId
    }

    /// Node `i` is a text node.
    pub open spec fn spec_is_text(&self, i: int) -> bool {
        self.node(i) is Text
    }

    /// The style-element test holds of a node exactly when it is an element of
    /// kind `style`: no other kind of element, and no other kind of node.
    pub proof fn lemma_style_element_exactly(&self, i: int)
        ensures
            self.spec_is_style_element(i) <==> (self.node(i) matches NodeData::Element(e)
                && e.type_id == ElementTypeId::HTMLStyleElementTypeId),
            self.spec_is_text(i) <==> (self.node(i) matches NodeData::Text(_)),
    {
    }

    /// Whether node `i` is a `style` element.
    pub fn is_style_element(&self, i: usize) -> (r: bool)
        requires
            self.wf(),
            self.has_node(i as int),
        ensures
            r == self.spec_is_style_element(i as int),
            r == (self.node(i as int) matches NodeData::Element(e) && e.type_id
                == ElementTypeId::HTMLStyleElementTypeId),
    {
        match &self.nodes[i] {
            NodeData::Element(e) => match e.type_id {
                ElementTypeId::HTMLStyleElementTypeId => true,
                _ => false,
            },
            _ => false,
        }
    }

    /// Whether node `i` is a text node.
    pub fn is_text(&self, i: usize) -> (r: bool)
        requires
            self.wf(),
            self.has_node(i as int),
        ensures
            r == self.spec_is_text(i as int),
            r == (self.node(i as int) is Text),
    {
        match &self.nodes[i] {
            NodeData::Text(_) => true,
            _ => false,
        }
    }
}

} // verus!
