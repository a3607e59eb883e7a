//! What the page load does when the HTML parser asks it to build the tree:
//! it makes the nodes, links them, and asks for the style sheets, scripts and
//! images that the elements name.
use vstd::prelude::*;

use crate::dom::{
    build_element_from_tag, first_attr_value, lemma_first_attr_absent, lemma_first_attr_found, Attr, Doctype, Document, Element, NodeData,
};
use crate::messages::{
    inline_sheet_address, is_inline_sheet_request, is_linked_sheet_request, is_script_request,
    refers_to, CSSMessage, ImageCacheMsg, JSMessage, StylesheetProvenance, UrlRef,
};
use crate::tags::{lemma_no_tag_makes_image, spec_heading_level, spec_tag_type, str_eq, ElementTypeId};

verus! {

/// A start tag as the parser reports it: the tag name and the attributes in
/// the order written.
#[derive(Debug)]
pub struct Tag {
    pub name: String,
    pub attributes: Vec<Attr>,
}

/// What making an element asks of the other tasks.
#[derive(Debug)]
pub struct ElementRequests {
    /// A style sheet to load, for a `<link rel="stylesheet" href=..>`.
    pub css: Option<CSSMessage>,
    /// An image to load ahead of time, for an image element with a `src`.
    pub prefetch: Option<ImageCacheMsg>,
}

/// The `href` of the style sheet that an element of kind `type_id` with the
/// attributes `attrs` links to: only a `link` element whose first `rel` is
/// exactly `stylesheet` and that has an `href` links to one.
pub open spec fn linked_sheet_href(type_id: ElementTypeId, attrs: Seq<Attr>) -> Option<Seq<char>> {
    if type_id == ElementTypeId::HTMLLinkElementTypeId {
        match (first_attr_value(attrs, "rel"@), first_attr_value(attrs, "href"@)) {
            (Some(rel), Some(href)) => if rel == "stylesheet"@ {
                Some(href)
            } else {
                None
            },
            _ => None,
        }
    } else {
        None
    }
}

/// The `src` of the image that an element of kind `type_id` with the
/// attributes `attrs` shows: only image elements show one.
pub open spec fn image_src(type_id: ElementTypeId, attrs: Seq<Attr>) -> Option<Seq<char>> {
    if type_id == ElementTypeId::HTMLImageElementTypeId {
        first_attr_value(attrs, "src"@)
    } else {
        None
    }
}

/// A `link` element asks for a style sheet whenever its first `rel` is
/// exactly `stylesheet` and it has an `href`, wherever among the attributes
/// they stand: the sheet asked for is the first `href`.
pub proof fn lemma_link_asks_for_sheet(attrs: Seq<Attr>, r: int, h: int)
    requires
        0 <= r < attrs.len(),
        attrs[r].name@ == "rel"@,
        attrs[r].value@ == "stylesheet"@,
        forall|j: int| 0 <= j < r ==> attrs[j].name@ != "rel"@,
        0 <= h < attrs.len(),
        attrs[h].name@ == "href"@,
        forall|j: int| 0 <= j < h ==> attrs[j].name@ != "href"@,
    ensures
        linked_sheet_href(ElementTypeId::HTMLLinkElementTypeId, attrs) == Some(attrs[h].value@),
{
    lemma_first_attr_found(attrs, "rel"@, r);
    lemma_first_attr_found(attrs, "href"@, h);
}

/// A `link` element asks for no style sheet when it has no `href`, when it
/// has no `rel`, or when its first `rel` is anything but `stylesheet`; and no
/// other element ever asks for one.
pub proof fn lemma_no_sheet_otherwise(type_id: ElementTypeId, attrs: Seq<Attr>, r: int)
    ensures
        type_id != ElementTypeId::HTMLLinkElementTypeId ==> linked_sheet_href(type_id, attrs)
            is None,
        (forall|j: int| 0 <= j < attrs.len() ==> #[trigger] attrs[j].name@ != "href"@)
            ==> linked_sheet_href(type_id, attrs) is None,
        (forall|j: int| 0 <= j < attrs.len() ==> #[trigger] attrs[j].name@ != "rel"@)
            ==> linked_sheet_href(type_id, attrs) is None,
        (0 <= r < attrs.len() && attrs[r].name@ == "rel"@ && attrs[r].value@ != "stylesheet"@
            && forall|j: int| 0 <= j < r ==> attrs[j].name@ != "rel"@) ==> linked_sheet_href(
            type_id,
            attrs,
        ) is None,
{
    lemma_first_attr_absent(attrs, "href"@);
    lemma_first_attr_absent(attrs, "rel"@);
    if 0 <= r < attrs.len() && attrs[r].name@ == "rel"@ && forall|j: int|
        0 <= j < r ==> attrs[j].name@ != "rel"@ {
        lemma_first_attr_found(attrs, "rel"@, r);
    }
}

/// No element made from a start tag shows an image, so making elements never
/// asks the image cache for anything.
pub proof fn lemma_elements_never_prefetch(name: Seq<char>, attrs: Seq<Attr>)
    ensures
        image_src(spec_tag_type(name), attrs) is None,
{
    lemma_no_tag_makes_image(name);
}

/// The text of a node, where it is a text node.
pub open spec fn text_of(n: NodeData) -> Option<Seq<char>> {
    match n {
        NodeData::Text(t) => Some(t@),
        _ => None,
    }
}

/// The tree under construction for one page, and the page's address.
pub struct HtmlTreeBuilder {
    pub doc: Document,
    pub root: usize,
    pub url: String,
}

impl HtmlTreeBuilder {
    /// The tree is consistent and its root is a node of it.
    pub open spec fn inv(&self) -> bool {
        &&& self.doc.wf()
        &&& self.doc.has_node(self.root as int)
    }

    /// Starts the tree of the page at `url`: a lone `html` element, which is
    /// the root.
    pub fn new(url: String) -> (b: HtmlTreeBuilder)
        ensures
            b.inv(),
            b.url@ == url@,
            b.doc.node_count() == 1,
            b.root == 0,
            b.doc.parent_of(0) is None,
            b.doc.children_of(0).len() == 0,
            b.doc.node(0) matches NodeData::Element(e) && e.type_id
                == ElementTypeId::HTMLHtmlElementTypeId && e.tag_name@ == "html"@ && e.attrs@.len()
                == 0 && e.level is None && e.image is None,
    {
        let mut doc = Document::new();
        let root_element = Element {
            type_id: ElementTypeId::HTMLHtmlElementTypeId,
            tag_name: "html".to_owned(),
            attrs: Vec::new(),
            level: None,
            image: None,
        };
        let root = doc.add_node(NodeData::Element(root_element));
        HtmlTreeBuilder { doc, root, url }
    }

    /// Makes a comment node holding `data`.
    pub fn create_comment(&mut self, data: String) -> (id: usize)
        requires
            old(self).inv(),
        ensures
            final(self).inv(),
            Self::added_one_node(*old(self), *final(self), id),
            final(self).doc.node(id as int) == NodeData::Comment(data),
    {
        self.add(NodeData::Comment(data))
    }

    /// Makes a doctype node as the parser reported it.
    pub fn create_doctype(&mut self, doctype: Doctype) -> (id: usize)
        requires
            old(self).inv(),
        ensures
            final(self).inv(),
            Self::added_one_node(*old(self), *final(self), id),
            final(self).doc.node(id as int) == NodeData::Doctype(doctype),
    {
        self.add(NodeData::Doctype(doctype))
    }

    /// Makes a text node holding `data`.
    pub fn create_text(&mut self, data: String) -> (id: usize)
        requires
            old(self).inv(),
        ensures
            final(self).inv(),
            Self::added_one_node(*old(self), *final(self), id),
            final(self).doc.node(id as int) == NodeData::Text(data),
    {
        self.add(NodeData::Text(data))
    }

    /// `post` is `pre` with nothing changed but the node `id`, with no parent and no
    /// children, at the end of the tree.
    pub open spec fn added_one_node(pre: HtmlTreeBuilder, post: HtmlTreeBuilder, id: usize) -> bool {
        &&& id == pre.doc.node_count()
        &&& post.doc.node_count() == pre.doc.node_count() + 1
        &&& post.doc.parent_of(id as int) is None
        &&& post.doc.children_of(id as int).len() == 0
        &&& post.root == pre.root
        &&& post.url == pre.url
        &&& forall|i: int|
            #![trigger post.doc.node(i)]
            #![trigger post.doc.parent_of(i)]
            #![trigger post.doc.children_of(i)]
            pre.doc.has_node(i) ==> post.doc.node(i) == pre.doc.node(i)
                && post.doc.parent_of(i) == pre.doc.parent_of(i)
                && post.doc.children_of(i) == pre.doc.children_of(i)
    }

    fn add(&mut self, data: NodeData) -> (id: usize)
        requires
            old(self).inv(),
        ensures
            final(self).inv(),
            Self::added_one_node(*old(self), *final(self), id),
            final(self).doc.node(id as int) == data,
    {
        self.doc.add_node(data)
    }

    /// Makes the element that `tag` stands for, with the tag's attributes in
    /// order. A `link` element with `rel` exactly `stylesheet` and an `href`
    /// asks for that sheet, resolved against the page's address; an image
    /// element with a `src` records that image and asks for it ahead of time.
    pub fn create_element(&mut self, tag: Tag) -> (res: (usize, ElementRequests))
        requires
            old(self).inv(),
        ensures
            final(self).inv(),
            Self::added_one_node(*old(self), *final(self), res.0),
            final(self).doc.node(res.0 as int) matches NodeData::Element(e) && {
                &&& e.type_id == spec_tag_type(tag.name@)
                &&& e.tag_name@ == tag.name@
                &&& e.level == spec_heading_level(tag.name@)
                &&& e.attrs@ == tag.attributes@
                &&& match image_src(e.type_id, tag.attributes@) {
                    Some(src) => e.image matches Some(r) && refers_to(r, src, old(self).url@),
                    None => e.image is None,
                }
            },
            match linked_sheet_href(spec_tag_type(tag.name@), tag.attributes@) {
                Some(href) => res.1.css matches Some(m) && is_linked_sheet_request(
                    m,
                    href,
                    old(self).url@,
                ),
                None => res.1.css is None,
            },
            match image_src(spec_tag_type(tag.name@), tag.attributes@) {
                Some(src) => res.1.prefetch matches Some(ImageCacheMsg::Prefetch(r)) && refers_to(
                    r,
                    src,
                    old(self).url@,
                ),
                None => res.1.prefetch is None,
            },
    {
        let Tag { name, attributes } = tag;
        let mut element = build_element_from_tag(name.as_str());
        element.attrs = attributes;
        let mut css: Option<CSSMessage> = None;
        let mut prefetch: Option<ImageCacheMsg> = None;
        match element.type_id {
            ElementTypeId::HTMLLinkElementTypeId => {
                let rel = element.get_attr("rel");
                let href = element.get_attr("href");
                match (rel, href) {
                    (Some(rel), Some(href)) => {
                        if str_eq(rel.as_str(), "stylesheet") {
                            let r = UrlRef { href, base: self.url.clone() };
                            css = Some(
                                CSSMessage::CSSTaskNewFile(StylesheetProvenance::UrlProvenance(r)),
                            );
                        }
                    },
                    _ => {},
                }
            },
            ElementTypeId::HTMLImageElementTypeId => {
                match element.get_attr("src") {
                    None => {},
                    Some(src) => {
                        let shown = UrlRef { href: src.clone(), base: self.url.clone() };
                        element.image = Some(shown);
                        prefetch = Some(
                            ImageCacheMsg::Prefetch(UrlRef { href: src, base: self.url.clone() }),
                        );
                    },
                }
            },
            _ => {},
        }
        let id = self.add(NodeData::Element(element));
        (id, ElementRequests { css, prefetch })
    }

    /// Makes `child` the last child of `parent`. Where `parent` is a `style`
    /// element and `child` a text node, the text is an inline style sheet and
    /// is handed to the style sheet listener. Answers `child`.
    pub fn append_child(&mut self, parent: usize, child: usize) -> (res: (usize, Option<CSSMessage>))
        requires
            old(self).inv(),
            old(self).doc.has_node(parent as int),
            old(self).doc.has_node(child as int),
            old(self).doc.parent_of(child as int) is None,
        ensures
            final(self).inv(),
            res.0 == child,
            final(self).root == old(self).root,
            final(self).url == old(self).url,
            final(self).doc.node_count() == old(self).doc.node_count(),
            final(self).doc.parent_of(child as int) == Some(parent),
            final(self).doc.children_of(parent as int) == old(self).doc.children_of(
                parent as int,
            ).push(child),
            forall|i: int|
                #![trigger final(self).doc.node(i)]
                old(self).doc.has_node(i) ==> final(self).doc.node(i) == old(self).doc.node(i),
            forall|i: int|
                #![trigger final(self).doc.parent_of(i)]
                old(self).doc.has_node(i) && i != child ==> final(self).doc.parent_of(i) == old(
                    self,
                ).doc.parent_of(i),
            forall|i: int|
                #![trigger final(self).doc.children_of(i)]
                old(self).doc.has_node(i) && i != parent ==> final(self).doc.children_of(i) == old(
                    self,
                ).doc.children_of(i),
            if (old(self).doc.node(parent as int) matches NodeData::Element(pe) && pe.type_id
                == ElementTypeId::HTMLStyleElementTypeId) && (old(self).doc.node(
                child as int,
            ) is Text) {
                res.1 matches Some(m) && is_inline_sheet_request(
                    m,
                    text_of(old(self).doc.node(child as int)).unwrap(),
                )
            } else {
                res.1 is None
            },
    {
        self.doc.append_child(parent, child);
        let mut css: Option<CSSMessage> = None;
        if self.doc.is_style_element(parent) && self.doc.is_text(child) {
            match self.doc.get(child) {
                NodeData::Text(text) => {
                    let address = "http://example.com/".to_owned();
                    proof {
                        assert(address@ == inline_sheet_address());
                    }
                    css = Some(
                        CSSMessage::CSSTaskNewFile(
                            StylesheetProvenance::InlineProvenance(address, text.clone()),
                        ),
                    );
                },
                _ => {},
            }
        }
        (child, css)
    }

    /// The script element `script` has been parsed to its end: where it has a
    /// `src`, the script listener is asked for that script, resolved against
    /// the page's address.
    pub fn complete_script(&self, script: usize) -> (r: Option<JSMessage>)
        requires
            self.inv(),
            self.doc.has_node(script as int),
            self.doc.node(script as int) is Element,
        ensures
            self.doc.node(script as int) matches NodeData::Element(e) && match first_attr_value(
                e.attrs@,
                "src"@,
            ) {
                Some(src) => r matches Some(m) && is_script_request(m, src, self.url@),
                None => r is None,
            },
    {
        match self.doc.get(script) {
            NodeData::Element(e) => match e.get_attr("src") {
                Some(src) => Some(JSMessage::JSTaskNewFile(UrlRef { href: src, base: self.url.clone() })),
                None => None,
            },
            _ => None,
        }
    }

    /// Inserting before a node is not supported: the answer is no node.
    pub fn insert_before(&self, parent: usize, child: usize) -> (r: Option<usize>)
        ensures
            r is None,
    {
        None
    }

    /// Removing a child is not supported: the answer is no node.
    pub fn remove_child(&self, parent: usize, child: usize) -> (r: Option<usize>)
        ensures
            r is None,
    {
        None
    }

    /// Moving children to a new parent is not supported: the answer is no node.
    pub fn reparent_children(&self, node: usize, new_parent: usize) -> (r: Option<usize>)
        ensures
            r is None,
    {
        None
    }

    /// Asking for a parent is not supported: the answer is no node.
    pub fn get_parent(&self, node: usize, element_only: bool) -> (r: Option<usize>)
        ensures
            r is None,
    {
        None
    }

    /// Asking whether a node has children is not supported: the answer is no.
    pub fn has_children(&self, node: usize) -> (r: bool)
        ensures
            !r,
    {
        false
    }
}

} // verus!
