//! The table from tag names to element kinds.
use vstd::prelude::*;

verus! {
/// The kind of an HTML element, as the DOM tells element types apart.
#[derive(Clone, Copy, Debug, PartialEq, Eq, Structural)]
pub enum ElementTypeId {
    HTMLAnchorElementTypeId,
    HTMLAsideElementTypeId,
    HTMLBRElementTypeId,
    HTMLBodyElementTypeId,
    HTMLBoldElementTypeId,
    HTMLDivElementTypeId,
    HTMLFontElementTypeId,
    HTMLFormElementTypeId,
    HTMLHRElementTypeId,
    HTMLHeadElementTypeId,
    HTMLHeadingElementTypeId,
    HTMLHtmlElementTypeId,
    HTMLImageElementTypeId,
    HTMLInputElementTypeId,
    HTMLItalicElementTypeId,
    HTMLLinkElementTypeId,
    HTMLListItemElementTypeId,
    HTMLMetaElementTypeId,
    HTMLOListElementTypeId,
    HTMLOptionElementTypeId,
    HTMLParagraphElementTypeId,
    HTMLScriptElementTypeId,
    HTMLSectionElementTypeId,
    HTMLSelectElementTypeId,
    HTMLSmallElementTypeId,
    HTMLSpanElementTypeId,
    HTMLStyleElementTypeId,
    HTMLTableBodyElementTypeId,
    HTMLTableCellElementTypeId,
    HTMLTableElementTypeId,
    HTMLTableRowElementTypeId,
    HTMLTitleElementTypeId,
    HTMLUListElementTypeId,
    UnknownElementTypeId,
}

/// The level of a heading element (`h1` to `h6`).
#[derive(Clone, Copy, Debug, PartialEq, Eq, Structural)]
pub enum HeadingLevel {
    Heading1,
    Heading2,
    Heading3,
    Heading4,
    Heading5,
    Heading6,
}

/// The element kind that a tag name stands for: each known tag name has its own kind,
/// `h1` to `h6` are headings, and every other name is an unknown element.
pub open spec fn spec_tag_type(tag: Seq<char>) -> ElementTypeId {
    if tag == "a"@ {
        ElementTypeId::HTMLAnchorElementTypeId
    } else if tag == "aside"@ {
        ElementTypeId::HTMLAsideElementTypeId
    } else if tag == "br"@ {
        ElementTypeId::HTMLBRElementTypeId
    } else if tag == "body"@ {
        ElementTypeId::HTMLBodyElementTypeId
    } else if tag == "bold"@ {
        ElementTypeId::HTMLBoldElementTypeId
    } else if tag == "div"@ {
        ElementTypeId::HTMLDivElementTypeId
    } else if tag == "font"@ {
        ElementTypeId::HTMLFontElementTypeId
    } else if tag == "form"@ {
        ElementTypeId::HTMLFormElementTypeId
    } else if tag == "hr"@ {
        ElementTypeId::HTMLHRElementTypeId
    } else if tag == "head"@ {
        ElementTypeId::HTMLHeadElementTypeId
    } else if tag == "html"@ {
        ElementTypeId::HTMLHtmlElementTypeId
    } else if tag == "input"@ {
        ElementTypeId::HTMLInputElementTypeId
    } else if tag == "i"@ {
        ElementTypeId::HTMLItalicElementTypeId
    } else if tag == "link"@ {
        ElementTypeId::HTMLLinkElementTypeId
    } else if tag == "li"@ {
        ElementTypeId::HTMLListItemElementTypeId
    } else if tag == "meta"@ {
        ElementTypeId::HTMLMetaElementTypeId
    } else if tag == "ol"@ {
        ElementTypeId::HTMLOListElementTypeId
    } else if tag == "option"@ {
        ElementTypeId::HTMLOptionElementTypeId
    } else if tag == "p"@ {
        ElementTypeId::HTMLParagraphElementTypeId
    } else if tag == "script"@ {
        ElementTypeId::HTMLScriptElementTypeId
    } else if tag == "section"@ {
        ElementTypeId::HTMLSectionElementTypeId
    } else if tag == "select"@ {
        ElementTypeId::HTMLSelectElementTypeId
    } else if tag == "small"@ {
        ElementTypeId::HTMLSmallElementTypeId
    } else if tag == "span"@ {
        ElementTypeId::HTMLSpanElementTypeId
    } else if tag == "style"@ {
        ElementTypeId::HTMLStyleElementTypeId
    } else if tag == "tbody"@ {
        ElementTypeId::HTMLTableBodyElementTypeId
    } else if tag == "td"@ {
        ElementTypeId::HTMLTableCellElementTypeId
    } else if tag == "table"@ {
        ElementTypeId::HTMLTableElementTypeId
    } else if tag == "tr"@ {
        ElementTypeId::HTMLTableRowElementTypeId
    } else if tag == "title"@ {
        ElementTypeId::HTMLTitleElementTypeId
    } else if tag == "ul"@ {
        ElementTypeId::HTMLUListElementTypeId
    } else if spec_heading_level(tag) is Some {
        ElementTypeId::HTMLHeadingElementTypeId
    } else {
        ElementTypeId::UnknownElementTypeId
    }
}

/// The heading level that a tag name stands for, where it names a heading.
pub open spec fn spec_heading_level(tag: Seq<char>) -> Option<HeadingLevel> {
    if tag == "h1"@ {
        Some(HeadingLevel::Heading1)
    } else if tag == "h2"@ {
        Some(HeadingLevel::Heading2)
    } else if tag == "h3"@ {
        Some(HeadingLevel::Heading3)
    } else if tag == "h4"@ {
        Some(HeadingLevel::Heading4)
    } else if tag == "h5"@ {
        Some(HeadingLevel::Heading5)
    } else if tag == "h6"@ {
        Some(HeadingLevel::Heading6)
    } else {
        None
    }
}

/// Whether two strings hold the same characters.
pub fn str_eq(a: &str, b: &str) -> (r: bool)
    ensures
        r == (a@ == b@),
{
    let x = a.to_owned();
    let y = b.to_owned();
    x == y
}

/// The heading level of `tag`, where `tag` is one of `h1` to `h6`.
pub fn heading_level_of_tag(tag: &str) -> (r: Option<HeadingLevel>)
    ensures
        r == spec_heading_level(tag@),
{
    if str_eq(tag, "h1") {
        Some(HeadingLevel::Heading1)
    } else if str_eq(tag, "h2") {
        Some(HeadingLevel::Heading2)
    } else if str_eq(tag, "h3") {
        Some(HeadingLevel::Heading3)
    } else if str_eq(tag, "h4") {
        Some(HeadingLevel::Heading4)
    } else if str_eq(tag, "h5") {
        Some(HeadingLevel::Heading5)
    } else if str_eq(tag, "h6") {
        Some(HeadingLevel::Heading6)
    } else {
        None
    }
}

/// The element kind of `tag`, looked up in the table of known tags.
pub fn element_type_of_tag(tag: &str) -> (r: ElementTypeId)
    ensures
        r == spec_tag_type(tag@),
{
    if str_eq(tag, "a") {
        ElementTypeId::HTMLAnchorElementTypeId
    } else if str_eq(tag, "aside") {
        ElementTypeId::HTMLAsideElementTypeId
    } else if str_eq(tag, "br") {
        ElementTypeId::HTMLBRElementTypeId
    } else if str_eq(tag, "body") {
        ElementTypeId::HTMLBodyElementTypeId
    } else if str_eq(tag, "bold") {
        ElementTypeId::HTMLBoldElementTypeId
    } else if str_eq(tag, "div") {
        ElementTypeId::HTMLDivElementTypeId
    } else if str_eq(tag, "font") {
        ElementTypeId::HTMLFontElementTypeId
    } else if str_eq(tag, "form") {
        ElementTypeId::HTMLFormElementTypeId
    } else if str_eq(tag, "hr") {
        ElementTypeId::HTMLHRElementTypeId
    } else if str_eq(tag, "head") {
        ElementTypeId::HTMLHeadElementTypeId
    } else if str_eq(tag, "html") {
        ElementTypeId::HTMLHtmlElementTypeId
    } else if str_eq(tag, "input") {
        ElementTypeId::HTMLInputElementTypeId
    } else if str_eq(tag, "i") {
        ElementTypeId::HTMLItalicElementTypeId
    } else if str_eq(tag, "link") {
        ElementTypeId::HTMLLinkElementTypeId
    } else if str_eq(tag, "li") {
        ElementTypeId::HTMLListItemElementTypeId
    } else if str_eq(tag, "meta") {
        ElementTypeId::HTMLMetaElementTypeId
    } else if str_eq(tag, "ol") {
        ElementTypeId::HTMLOListElementTypeId
    } else if str_eq(tag, "option") {
        ElementTypeId::HTMLOptionElementTypeId
    } else if str_eq(tag, "p") {
        ElementTypeId::HTMLParagraphElementTypeId
    } else if str_eq(tag, "script") {
        ElementTypeId::HTMLScriptElementTypeId
    } else if str_eq(tag, "section") {
        ElementTypeId::HTMLSectionElementTypeId
    } else if str_eq(tag, "select") {
        ElementTypeId::HTMLSelectElementTypeId
    } else if str_eq(tag, "small") {
        ElementTypeId::HTMLSmallElementTypeId
    } else if str_eq(tag, "span") {
        ElementTypeId::HTMLSpanElementTypeId
    } else if str_eq(tag, "style") {
        ElementTypeId::HTMLStyleElementTypeId
    } else if str_eq(tag, "tbody") {
        ElementTypeId::HTMLTableBodyElementTypeId
    } else if str_eq(tag, "td") {
        ElementTypeId::HTMLTableCellElementTypeId
    } else if str_eq(tag, "table") {
        ElementTypeId::HTMLTableElementTypeId
    } else if str_eq(tag, "tr") {
        ElementTypeId::HTMLTableRowElementTypeId
    } else if str_eq(tag, "title") {
        ElementTypeId::HTMLTitleElementTypeId
    } else if str_eq(tag, "ul") {
        ElementTypeId::HTMLUListElementTypeId
    } else if heading_level_of_tag(tag).is_some() {
        ElementTypeId::HTMLHeadingElementTypeId
    } else {
        ElementTypeId::UnknownElementTypeId
    }
}

/// A tag name stands for a heading exactly when it has a heading level.
pub proof fn lemma_heading_iff_level(tag: Seq<char>)
    ensures
        (spec_tag_type(tag) == ElementTypeId::HTMLHeadingElementTypeId) <==> (spec_heading_level(
            tag,
        ) is Some),
{
    if spec_heading_level(tag) is Some {
        // A heading name is `h` and a digit; no entry of the table has that form.
        assert(tag.len() == 2 && tag[0] == 'h' && '1' <= tag[1] <= '6') by {
            reveal_strlit("h1");
            reveal_strlit("h2");
            reveal_strlit("h3");
            reveal_strlit("h4");
            reveal_strlit("h5");
            reveal_strlit("h6");
        }
        reveal_strlit("a");
        reveal_strlit("aside");
        reveal_strlit("br");
        reveal_strlit("body");
        reveal_strlit("bold");
        reveal_strlit("div");
        reveal_strlit("font");
        reveal_strlit("form");
        reveal_strlit("hr");
        reveal_strlit("head");
        reveal_strlit("html");
        reveal_strlit("input");
        reveal_strlit("i");
        reveal_strlit("link");
        reveal_strlit("li");
        reveal_strlit("meta");
        reveal_strlit("ol");
        reveal_strlit("option");
        reveal_strlit("p");
        reveal_strlit("script");
        reveal_strlit("section");
        reveal_strlit("select");
        reveal_strlit("small");
        reveal_strlit("span");
        reveal_strlit("style");
        reveal_strlit("tbody");
        reveal_strlit("td");
        reveal_strlit("table");
        reveal_strlit("tr");
        reveal_strlit("title");
        reveal_strlit("ul");
        assert("br"@[0] != 'h' || "br"@[1] == 'r');
        assert("hr"@[0] != 'h' || "hr"@[1] == 'r');
        assert("li"@[0] != 'h' || "li"@[1] == 'r');
        assert("ol"@[0] != 'h' || "ol"@[1] == 'r');
        assert("td"@[0] != 'h' || "td"@[1] == 'r');
        assert("tr"@[0] != 'h' || "tr"@[1] == 'r');
        assert("ul"@[0] != 'h' || "ul"@[1] == 'r');
    }
}

/// Two tag names that get the same kind, and the same level, are the same
/// name, unless the kind is unknown: each known kind is named by one tag only.
pub proof fn lemma_known_kind_names_one_tag(t1: Seq<char>, t2: Seq<char>)
    requires
        spec_tag_type(t1) == spec_tag_type(t2),
        spec_heading_level(t1) == spec_heading_level(t2),
        spec_tag_type(t1) != ElementTypeId::UnknownElementTypeId,
    ensures
        t1 == t2,
{
}

/// Every name that is neither in the table nor `h1` to `h6` is an unknown
/// element.
pub proof fn lemma_other_names_are_unknown(tag: Seq<char>)
    requires
        tag != "a"@,
        tag != "aside"@,
        tag != "br"@,
        tag != "body"@,
        tag != "bold"@,
        tag != "div"@,
        tag != "font"@,
        tag != "form"@,
        tag != "hr"@,
        tag != "head"@,
        tag != "html"@,
        tag != "input"@,
        tag != "i"@,
        tag != "link"@,
        tag != "li"@,
        tag != "meta"@,
        tag != "ol"@,
        tag != "option"@,
        tag != "p"@,
        tag != "script"@,
        tag != "section"@,
        tag != "select"@,
        tag != "small"@,
        tag != "span"@,
        tag != "style"@,
        tag != "tbody"@,
        tag != "td"@,
        tag != "table"@,
        tag != "tr"@,
        tag != "title"@,
        tag != "ul"@,
        tag != "h1"@,
        tag != "h2"@,
        tag != "h3"@,
        tag != "h4"@,
        tag != "h5"@,
        tag != "h6"@,
    ensures
        spec_tag_type(tag) == ElementTypeId::UnknownElementTypeId,
        spec_heading_level(tag) is None,
{
}

/// No tag name stands for an image element: the table has no entry for one.
pub proof fn lemma_no_tag_makes_image(tag: Seq<char>)
    ensures
        spec_tag_type(tag) != ElementTypeId::HTMLImageElementTypeId,
{
}

} // verus!
