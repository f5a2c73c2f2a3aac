//! The fixed tag sets: the sanitization allowlist, void elements and raw-text elements.

use vstd::prelude::*;
use crate::names::{same_text, Namespace, QualName};

verus! {

/// Tags that are written as markup; every other tag is written as escaped text.
pub open spec fn is_allowed_tag(t: Seq<char>) -> bool {
    t == "p"@ || t == "br"@ || t == "strong"@ || t == "em"@ || t == "del"@
        || t == "blockquote"@ || t == "code"@ || t == "pre"@ || t == "h1"@ || t == "h2"@
        || t == "h3"@ || t == "h4"@ || t == "h5"@ || t == "h6"@ || t == "a"@ || t == "ul"@
        || t == "ol"@ || t == "li"@ || t == "hr"@
}

/// HTML elements that never have children or a closing tag.
pub open spec fn is_void_tag(t: Seq<char>) -> bool {
    t == "area"@ || t == "base"@ || t == "basefont"@ || t == "bgsound"@ || t == "br"@
        || t == "col"@ || t == "embed"@ || t == "frame"@ || t == "hr"@ || t == "img"@
        || t == "input"@ || t == "keygen"@ || t == "link"@ || t == "meta"@ || t == "param"@
        || t == "source"@ || t == "track"@ || t == "wbr"@
}

/// HTML elements whose text content is written without escaping.
pub open spec fn is_raw_text_tag(t: Seq<char>) -> bool {
    t == "style"@ || t == "script"@ || t == "xmp"@ || t == "iframe"@ || t == "noembed"@
        || t == "noframes"@ || t == "plaintext"@
}

/// True when the element is an HTML void element.
pub open spec fn is_void_element(name: QualName) -> bool {
    name.ns is Html && is_void_tag(name.local@)
}

/// Whether the delimiters of an element with tag text `tag` are literalized:
/// true exactly when the tag is not on the allowlist.
pub fn should_sanitize(tag: &str) -> (r: bool)
    ensures
        r == !is_allowed_tag(tag@),
{
    let allowed = same_text(tag, "p") || same_text(tag, "br") || same_text(tag, "strong")
        || same_text(tag, "em") || same_text(tag, "del") || same_text(tag, "blockquote")
        || same_text(tag, "code") || same_text(tag, "pre") || same_text(tag, "h1")
        || same_text(tag, "h2") || same_text(tag, "h3") || same_text(tag, "h4")
        || same_text(tag, "h5") || same_text(tag, "h6") || same_text(tag, "a")
        || same_text(tag, "ul") || same_text(tag, "ol") || same_text(tag, "li")
        || same_text(tag, "hr");
    !allowed
}

/// Whether `tag` names a void element.
pub fn void_tag(tag: &str) -> (r: bool)
    ensures
        r == is_void_tag(tag@),
{
    same_text(tag, "area") || same_text(tag, "base") || same_text(tag, "basefont")
        || same_text(tag, "bgsound") || same_text(tag, "br") || same_text(tag, "col")
        || same_text(tag, "embed") || same_text(tag, "frame") || same_text(tag, "hr")
        || same_text(tag, "img") || same_text(tag, "input") || same_text(tag, "keygen")
        || same_text(tag, "link") || same_text(tag, "meta") || same_text(tag, "param")
        || same_text(tag, "source") || same_text(tag, "track") || same_text(tag, "wbr")
}

/// Whether `tag` names a raw-text element.
pub fn raw_text_tag(tag: &str) -> (r: bool)
    ensures
        r == is_raw_text_tag(tag@),
{
    same_text(tag, "style") || same_text(tag, "script") || same_text(tag, "xmp")
        || same_text(tag, "iframe") || same_text(tag, "noembed") || same_text(tag, "noframes")
        || same_text(tag, "plaintext")
}

/// Whether the element is an HTML void element, whose subtree produces no output.
pub fn void_element(name: &QualName) -> (r: bool)
    ensures
        r == is_void_element(*name),
{
    match name.ns {
        Namespace::Html => void_tag(name.local.as_str()),
        _ => false,
    }
}

} // verus!
