use lib::builder::{HtmlTreeBuilder, Tag};
use lib::dom::{build_element_from_tag, find_attr, Attr, Doctype, Document, NodeData};
use lib::messages::{CSSMessage, ImageCacheMsg, JSMessage, StylesheetProvenance};
use lib::tags::{element_type_of_tag, heading_level_of_tag, ElementTypeId, HeadingLevel};

fn attr(name: &str, value: &str) -> Attr {
    Attr { name: name.to_string(), value: value.to_string() }
}

fn tag(name: &str, attrs: Vec<Attr>) -> Tag {
    Tag { name: name.to_string(), attributes: attrs }
}

#[test]
fn every_known_tag_has_its_kind() {
    let table = [
        ("a", ElementTypeId::HTMLAnchorElementTypeId),
        ("aside", ElementTypeId::HTMLAsideElementTypeId),
        ("br", ElementTypeId::HTMLBRElementTypeId),
        ("body", ElementTypeId::HTMLBodyElementTypeId),
        ("bold", ElementTypeId::HTMLBoldElementTypeId),
        ("div", ElementTypeId::HTMLDivElementTypeId),
        ("font", ElementTypeId::HTMLFontElementTypeId),
        ("form", ElementTypeId::HTMLFormElementTypeId),
        ("hr", ElementTypeId::HTMLHRElementTypeId),
        ("head", ElementTypeId::HTMLHeadElementTypeId),
        ("html", ElementTypeId::HTMLHtmlElementTypeId),
        ("input", ElementTypeId::HTMLInputElementTypeId),
        ("i", ElementTypeId::HTMLItalicElementTypeId),
        ("link", ElementTypeId::HTMLLinkElementTypeId),
        ("li", ElementTypeId::HTMLListItemElementTypeId),
        ("meta", ElementTypeId::HTMLMetaElementTypeId),
        ("ol", ElementTypeId::HTMLOListElementTypeId),
        ("option", ElementTypeId::HTMLOptionElementTypeId),
        ("p", ElementTypeId::HTMLParagraphElementTypeId),
        ("script", ElementTypeId::HTMLScriptElementTypeId),
        ("section", ElementTypeId::HTMLSectionElementTypeId),
        ("select", ElementTypeId::HTMLSelectElementTypeId),
        ("small", ElementTypeId::HTMLSmallElementTypeId),
        ("span", ElementTypeId::HTMLSpanElementTypeId),
        ("style", ElementTypeId::HTMLStyleElementTypeId),
        ("tbody", ElementTypeId::HTMLTableBodyElementTypeId),
        ("td", ElementTypeId::HTMLTableCellElementTypeId),
        ("table", ElementTypeId::HTMLTableElementTypeId),
        ("tr", ElementTypeId::HTMLTableRowElementTypeId),
        ("title", ElementTypeId::HTMLTitleElementTypeId),
        ("ul", ElementTypeId::HTMLUListElementTypeId),
    ];
    for (name, kind) in table.iter() {
        assert_eq!(element_type_of_tag(name), *kind, "tag {}", name);
        let e = build_element_from_tag(name);
        assert_eq!(e.type_id, *kind);
        assert_eq!(e.tag_name, *name);
        assert!(e.attrs.is_empty());
        assert!(e.level.is_none());
        assert!(e.image.is_none());
    }
}

#[test]
fn headings_carry_their_level() {
    let levels = [
        ("h1", HeadingLevel::Heading1),
        ("h2", HeadingLevel::Heading2),
        ("h3", HeadingLevel::Heading3),
        ("h4", HeadingLevel::Heading4),
        ("h5", HeadingLevel::Heading5),
        ("h6", HeadingLevel::Heading6),
    ];
    for (name, level) in levels.iter() {
        let e = build_element_from_tag(name);
        assert_eq!(e.type_id, ElementTypeId::HTMLHeadingElementTypeId);
        assert_eq!(e.level, Some(*level));
        assert_eq!(e.tag_name, *name);
        assert_eq!(heading_level_of_tag(name), Some(*level));
    }
    assert_eq!(heading_level_of_tag("h7"), None);
    assert_eq!(heading_level_of_tag("hr"), None);
}

#[test]
fn other_tags_are_unknown_and_keep_their_name() {
    for name in ["img", "foo", "", "A", "h7", "h", "divx", "STYLE"].iter() {
        let e = build_element_from_tag(name);
        assert_eq!(e.type_id, ElementTypeId::UnknownElementTypeId, "tag {}", name);
        assert_eq!(e.tag_name, *name);
        assert!(e.level.is_none());
    }
}

#[test]
fn first_attribute_of_a_name_wins() {
    let attrs = vec![attr("rel", "stylesheet"), attr("href", "a.css"), attr("rel", "icon")];
    assert_eq!(find_attr(&attrs, "rel"), Some("stylesheet".to_string()));
    assert_eq!(find_attr(&attrs, "href"), Some("a.css".to_string()));
    assert_eq!(find_attr(&attrs, "src"), None);
    assert_eq!(find_attr(&Vec::new(), "rel"), None);
}

#[test]
fn a_new_tree_is_a_lone_html_root() {
    let b = HtmlTreeBuilder::new("http://www.example.org/index.html".to_string());
    assert_eq!(b.root, 0);
    assert_eq!(b.doc.len(), 1);
    assert_eq!(b.url, "http://www.example.org/index.html");
    match b.doc.get(0) {
        NodeData::Element(e) => {
            assert_eq!(e.type_id, ElementTypeId::HTMLHtmlElementTypeId);
            assert_eq!(e.tag_name, "html");
            assert!(e.attrs.is_empty());
        }
        _ => panic!("the root is not an element"),
    }
    assert_eq!(b.doc.parent(0), None);
    assert!(b.doc.children(0).is_empty());
}

#[test]
fn created_nodes_are_added_unattached() {
    let mut b = HtmlTreeBuilder::new("http://x/".to_string());
    let c = b.create_comment(" note ".to_string());
    let t = b.create_text("hello".to_string());
    let d = b.create_doctype(Doctype {
        name: "html".to_string(),
        public_id: Some("-//W3C//DTD HTML 4.01//EN".to_string()),
        system_id: None,
        force_quirks: false,
    });
    assert_eq!((c, t, d), (1, 2, 3));
    assert_eq!(b.doc.len(), 4);
    match b.doc.get(c) {
        NodeData::Comment(s) => assert_eq!(s, " note "),
        _ => panic!("not a comment"),
    }
    match b.doc.get(t) {
        NodeData::Text(s) => assert_eq!(s, "hello"),
        _ => panic!("not a text node"),
    }
    match b.doc.get(d) {
        NodeData::Doctype(dt) => {
            assert_eq!(dt.name, "html");
            assert_eq!(dt.public_id.as_deref(), Some("-//W3C//DTD HTML 4.01//EN"));
            assert_eq!(dt.system_id, None);
            assert!(!dt.force_quirks);
        }
        _ => panic!("not a doctype"),
    }
    for i in 1..4 {
        assert_eq!(b.doc.parent(i), None);
        assert!(b.doc.children(i).is_empty());
    }
}

#[test]
fn appended_children_keep_their_order() {
    let mut b = HtmlTreeBuilder::new("http://x/".to_string());
    let (body, _) = b.create_element(tag("body", vec![]));
    let (p, _) = b.create_element(tag("p", vec![attr("class", "x")]));
    let t = b.create_text("one".to_string());
    let (r, css) = b.append_child(0, body);
    assert_eq!(r, body);
    assert!(css.is_none());
    b.append_child(body, p);
    b.append_child(body, t);
    assert_eq!(b.doc.children(0), &vec![body]);
    assert_eq!(b.doc.children(body), &vec![p, t]);
    assert_eq!(b.doc.parent(body), Some(0));
    assert_eq!(b.doc.parent(p), Some(body));
    assert_eq!(b.doc.parent(t), Some(body));
    match b.doc.get(p) {
        NodeData::Element(e) => {
            assert_eq!(e.type_id, ElementTypeId::HTMLParagraphElementTypeId);
            assert_eq!(e.attrs.len(), 1);
            assert_eq!(e.get_attr("class"), Some("x".to_string()));
        }
        _ => panic!("not an element"),
    }
}

#[test]
fn stylesheet_link_asks_for_the_sheet() {
    let mut b = HtmlTreeBuilder::new("http://www.example.org/dir/page.html".to_string());
    let (_, req) = b.create_element(tag(
        "link",
        vec![attr("rel", "stylesheet"), attr("href", "style/main.css")],
    ));
    match req.css {
        Some(CSSMessage::CSSTaskNewFile(StylesheetProvenance::UrlProvenance(u))) => {
            assert_eq!(u.href, "style/main.css");
            assert_eq!(u.base, "http://www.example.org/dir/page.html");
        }
        other => panic!("unexpected request {:?}", other),
    }
    assert!(req.prefetch.is_none());
}

#[test]
fn other_links_ask_for_nothing() {
    let mut b = HtmlTreeBuilder::new("http://x/".to_string());
    let cases = vec![
        tag("link", vec![attr("rel", "icon"), attr("href", "f.ico")]),
        tag("link", vec![attr("rel", "Stylesheet"), attr("href", "a.css")]),
        tag("link", vec![attr("rel", "stylesheet")]),
        tag("link", vec![attr("href", "a.css")]),
        tag("link", vec![attr("rel", "icon"), attr("rel", "stylesheet"), attr("href", "a.css")]),
        tag("a", vec![attr("rel", "stylesheet"), attr("href", "a.css")]),
    ];
    for t in cases {
        let (_, req) = b.create_element(t);
        assert!(req.css.is_none());
        assert!(req.prefetch.is_none());
    }
}

#[test]
fn images_by_tag_are_unknown_elements_and_are_not_fetched() {
    let mut b = HtmlTreeBuilder::new("http://x/".to_string());
    let (id, req) = b.create_element(tag("img", vec![attr("src", "pic.png")]));
    assert!(req.prefetch.is_none());
    assert!(req.css.is_none());
    match b.doc.get(id) {
        NodeData::Element(e) => {
            assert_eq!(e.type_id, ElementTypeId::UnknownElementTypeId);
            assert!(e.image.is_none());
            assert_eq!(e.get_attr("src"), Some("pic.png".to_string()));
        }
        _ => panic!("not an element"),
    }
    let _unused: Option<ImageCacheMsg> = req.prefetch;
}

#[test]
fn text_in_a_style_element_is_an_inline_sheet() {
    let mut b = HtmlTreeBuilder::new("http://x/".to_string());
    let (style, _) = b.create_element(tag("style", vec![]));
    let t = b.create_text("p { color: red }".to_string());
    let (r, css) = b.append_child(style, t);
    assert_eq!(r, t);
    match css {
        Some(CSSMessage::CSSTaskNewFile(StylesheetProvenance::InlineProvenance(url, data))) => {
            assert_eq!(url, "http://example.com/");
            assert_eq!(data, "p { color: red }");
        }
        other => panic!("unexpected request {:?}", other),
    }
}

#[test]
fn other_appends_are_no_sheets() {
    let mut b = HtmlTreeBuilder::new("http://x/".to_string());
    let (style, _) = b.create_element(tag("style", vec![]));
    let (div, _) = b.create_element(tag("div", vec![]));
    let (inner, _) = b.create_element(tag("span", vec![]));
    let t = b.create_text("p {}".to_string());
    let c = b.create_comment("p {}".to_string());
    assert!(b.append_child(div, t).1.is_none());
    assert!(b.append_child(style, inner).1.is_none());
    assert!(b.append_child(style, c).1.is_none());
}

#[test]
fn completed_script_with_src_asks_for_it() {
    let mut b = HtmlTreeBuilder::new("http://host/page".to_string());
    let (s1, _) = b.create_element(tag("script", vec![attr("type", "text/javascript"), attr("src", "app.js")]));
    let (s2, _) = b.create_element(tag("script", vec![]));
    match b.complete_script(s1) {
        Some(JSMessage::JSTaskNewFile(u)) => {
            assert_eq!(u.href, "app.js");
            assert_eq!(u.base, "http://host/page");
        }
        other => panic!("unexpected request {:?}", other),
    }
    assert!(b.complete_script(s2).is_none());
}

#[test]
fn unsupported_tree_questions_answer_nothing() {
    let mut b = HtmlTreeBuilder::new("http://x/".to_string());
    let (div, _) = b.create_element(tag("div", vec![]));
    b.append_child(0, div);
    assert_eq!(b.insert_before(0, div), None);
    assert_eq!(b.remove_child(0, div), None);
    assert_eq!(b.reparent_children(div, 0), None);
    assert_eq!(b.get_parent(div, true), None);
    assert!(!b.has_children(0));
}

#[test]
fn an_empty_document_has_no_nodes() {
    let d = Document::new();
    assert_eq!(d.len(), 0);
}

#[test]
fn a_node_appended_to_itself_is_its_own_parent() {
    let mut b = HtmlTreeBuilder::new("http://x/".to_string());
    let (div, _) = b.create_element(tag("div", vec![]));
    let (r, css) = b.append_child(div, div);
    assert_eq!(r, div);
    assert!(css.is_none());
    assert_eq!(b.doc.parent(div), Some(div));
    assert_eq!(b.doc.children(div), &vec![div]);
}
