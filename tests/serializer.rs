use html_serializer::escape::escape_text;
use html_serializer::names::{Diagnostic, Namespace, QualName};
use html_serializer::serializer::{
    Attribute, HtmlSerializer, SerializeError, SerializeOpts, TraversalScope,
};

fn name(ns: Namespace, local: &str) -> QualName {
    QualName::new(ns, local.to_string())
}

fn html(local: &str) -> QualName {
    name(Namespace::Html, local)
}

fn attr(ns: Namespace, local: &str, value: &str) -> Attribute {
    Attribute { name: name(ns, local), value: value.to_string() }
}

fn opts(scope: TraversalScope) -> SerializeOpts {
    SerializeOpts { scripting_enabled: true, traversal_scope: scope, create_missing_parent: false }
}

fn include_node() -> HtmlSerializer {
    HtmlSerializer::new(opts(TraversalScope::IncludeNode))
}

#[test]
fn allowed_paragraph_escapes_ampersand_only() {
    let mut ser = include_node();
    ser.start_elem(html("p"), &[]).unwrap();
    ser.write_text("Hello & \"world\"").unwrap();
    ser.end_elem(html("p")).unwrap();
    assert_eq!(ser.writer, "<p>Hello &amp; \"world\"</p>");
}

#[test]
fn disallowed_div_is_literalized() {
    let mut ser = include_node();
    ser.start_elem(html("div"), &[attr(Namespace::Empty, "class", "a")]).unwrap();
    ser.write_text("hi").unwrap();
    ser.end_elem(html("div")).unwrap();
    assert_eq!(ser.writer, "&lt;div class=\"a\"&gt;hi&lt;/div&gt;");
}

#[test]
fn void_br_has_no_end_tag() {
    let mut ser = include_node();
    ser.start_elem(html("p"), &[]).unwrap();
    ser.write_text("line1").unwrap();
    ser.start_elem(html("br"), &[]).unwrap();
    ser.end_elem(html("br")).unwrap();
    ser.write_text("line2").unwrap();
    ser.end_elem(html("p")).unwrap();
    assert_eq!(ser.writer, "<p>line1<br>line2</p>");
}

#[test]
fn script_text_is_raw() {
    // `script` is not on the allowlist, so its tags are literalized; its text
    // content is written without escaping.
    let mut ser = include_node();
    ser.start_elem(html("script"), &[]).unwrap();
    ser.write_text("if (a < b) { }").unwrap();
    ser.end_elem(html("script")).unwrap();
    assert_eq!(ser.writer, "&lt;script&gt;if (a < b) { }&lt;/script&gt;");
}

#[test]
fn noscript_text_escaped_without_scripting() {
    let mut o = opts(TraversalScope::IncludeNode);
    o.scripting_enabled = false;
    let mut ser = HtmlSerializer::new(o);
    ser.start_elem(html("noscript"), &[]).unwrap();
    ser.write_text("<b>").unwrap();
    ser.end_elem(html("noscript")).unwrap();
    assert_eq!(ser.writer, "&lt;noscript&gt;&lt;b&gt;&lt;/noscript&gt;");
}

#[test]
fn noscript_text_raw_with_scripting() {
    let mut ser = include_node();
    ser.start_elem(html("noscript"), &[]).unwrap();
    ser.write_text("<b>").unwrap();
    ser.end_elem(html("noscript")).unwrap();
    assert_eq!(ser.writer, "&lt;noscript&gt;<b>&lt;/noscript&gt;");
}

#[test]
fn end_on_empty_stack_recovers_when_allowed() {
    let mut o = opts(TraversalScope::IncludeNode);
    o.create_missing_parent = true;
    let mut ser = HtmlSerializer::new(o);
    // The first close pops the seed context; the second finds the stack empty.
    ser.end_elem(html("p")).unwrap();
    assert_eq!(ser.depth(), 0);
    assert_eq!(ser.end_elem(html("em")), Ok(()));
    assert_eq!(ser.diagnostics(), &vec![Diagnostic::MissingParent]);
    ser.start_elem(html("p"), &[]).unwrap();
    ser.write_text("x").unwrap();
    ser.end_elem(html("p")).unwrap();
    assert_eq!(ser.writer, "</p></em><p>x</p>");
    assert_eq!(ser.diagnostics(), &vec![Diagnostic::MissingParent, Diagnostic::MissingParent]);
}

#[test]
fn empty_stack_fails_when_not_allowed() {
    let mut ser = include_node();
    ser.end_elem(html("p")).unwrap();
    assert_eq!(ser.end_elem(html("p")), Err(SerializeError::MissingParent));
    assert_eq!(ser.start_elem(html("p"), &[]), Err(SerializeError::MissingParent));
    assert_eq!(ser.write_text("t"), Err(SerializeError::MissingParent));
    assert_eq!(ser.writer, "</p>");
    assert_eq!(ser.depth(), 0);
    assert!(ser.diagnostics().is_empty());
}

#[test]
fn stack_depth_is_balanced() {
    let mut ser = include_node();
    assert_eq!(ser.depth(), 1);
    ser.start_elem(html("ul"), &[]).unwrap();
    ser.start_elem(html("li"), &[]).unwrap();
    ser.write_text("a").unwrap();
    assert_eq!(ser.depth(), 3);
    ser.end_elem(html("li")).unwrap();
    ser.end_elem(html("ul")).unwrap();
    assert_eq!(ser.depth(), 1);
    assert_eq!(ser.writer, "<ul><li>a</li></ul>");
}

#[test]
fn children_of_void_element_are_suppressed() {
    let mut ser = include_node();
    ser.start_elem(html("img"), &[attr(Namespace::Empty, "src", "x")]).unwrap();
    ser.start_elem(html("p"), &[]).unwrap();
    ser.start_elem(html("em"), &[]).unwrap();
    assert_eq!(ser.depth(), 4);
    ser.end_elem(html("em")).unwrap();
    ser.end_elem(html("p")).unwrap();
    ser.end_elem(html("img")).unwrap();
    ser.start_elem(html("p"), &[]).unwrap();
    ser.end_elem(html("p")).unwrap();
    assert_eq!(ser.writer, "&lt;img src=\"x\"&gt;<p></p>");
}

#[test]
fn sanitization_ignores_namespace() {
    let mut ser = include_node();
    ser.start_elem(name(Namespace::Svg, "a"), &[]).unwrap();
    ser.end_elem(name(Namespace::Svg, "a")).unwrap();
    ser.start_elem(name(Namespace::Svg, "circle"), &[]).unwrap();
    ser.end_elem(name(Namespace::Svg, "circle")).unwrap();
    assert_eq!(ser.writer, "<a></a>&lt;circle&gt;&lt;/circle&gt;");
    assert!(ser.diagnostics().is_empty());
}

#[test]
fn foreign_void_name_is_not_void() {
    let mut ser = include_node();
    ser.start_elem(name(Namespace::MathMl, "br"), &[]).unwrap();
    ser.write_text("x").unwrap();
    ser.end_elem(name(Namespace::MathMl, "br")).unwrap();
    assert_eq!(ser.writer, "<br>x</br>");
}

#[test]
fn attribute_prefixes() {
    let mut ser = include_node();
    let attrs = [
        attr(Namespace::Xml, "lang", "en"),
        attr(Namespace::Xmlns, "xlink", "u"),
        attr(Namespace::Xmlns, "xmlns", "v"),
        attr(Namespace::XLink, "href", "w"),
        attr(Namespace::Other("urn:x".to_string()), "k", "y"),
    ];
    ser.start_elem(html("a"), &attrs).unwrap();
    assert_eq!(
        ser.writer,
        "<a xml:lang=\"en\" xmlns:xlink=\"u\" xmlns=\"v\" xlink:href=\"w\" unknown_namespace:k=\"y\">"
    );
    assert_eq!(ser.diagnostics(), &vec![Diagnostic::UnknownAttrNamespace]);
}

#[test]
fn attribute_values_use_attribute_mode() {
    let mut ser = include_node();
    ser.start_elem(html("a"), &[attr(Namespace::Empty, "title", "<\"&\u{a0}>")]).unwrap();
    assert_eq!(ser.writer, "<a title=\"<&quot;&amp;&nbsp;>\">");
}

#[test]
fn duplicate_attributes_kept_in_order() {
    let mut ser = include_node();
    let attrs = [attr(Namespace::Empty, "b", "2"), attr(Namespace::Empty, "a", "1"), attr(Namespace::Empty, "b", "3")];
    ser.start_elem(html("p"), &attrs).unwrap();
    assert_eq!(ser.writer, "<p b=\"2\" a=\"1\" b=\"3\">");
}

#[test]
fn unexpected_element_namespace_is_noted() {
    let mut ser = include_node();
    let n = name(Namespace::Other("urn:y".to_string()), "p");
    ser.start_elem(n.clone(), &[]).unwrap();
    ser.end_elem(n).unwrap();
    assert_eq!(ser.writer, "<p></p>");
    assert_eq!(
        ser.diagnostics(),
        &vec![Diagnostic::UnexpectedNamespace, Diagnostic::UnexpectedNamespace]
    );
}

#[test]
fn text_escaping_in_text_mode() {
    let mut ser = include_node();
    ser.write_text("a<b>&\u{a0}\"é").unwrap();
    assert_eq!(ser.writer, "a&lt;b&gt;&amp;&nbsp;\"é");
}

#[test]
fn children_only_root_seeds_raw_text() {
    let ser_opts = opts(TraversalScope::ChildrenOnly(Some(html("style"))));
    let mut ser = HtmlSerializer::new(ser_opts);
    ser.write_text("a > b & c").unwrap();
    assert_eq!(ser.writer, "a > b & c");
    assert_eq!(ser.depth(), 1);
}

#[test]
fn children_only_foreign_root_is_noted() {
    let root = name(Namespace::Other("urn:z".to_string()), "script");
    let mut ser = HtmlSerializer::new(opts(TraversalScope::ChildrenOnly(Some(root))));
    ser.write_text("<x>").unwrap();
    assert_eq!(ser.writer, "<x>");
    assert_eq!(ser.diagnostics(), &vec![Diagnostic::UnexpectedNamespace]);
}

#[test]
fn default_options() {
    let o = SerializeOpts::default();
    assert!(o.scripting_enabled);
    assert!(!o.create_missing_parent);
    assert!(matches!(o.traversal_scope, TraversalScope::ChildrenOnly(None)));
    let mut ser = HtmlSerializer::new(o);
    ser.write_text("<").unwrap();
    assert_eq!(ser.writer, "&lt;");
}

#[test]
fn comment_doctype_and_instruction_are_verbatim() {
    let mut ser = include_node();
    ser.write_comment(" a & <b> ");
    ser.write_doctype("html");
    ser.write_processing_instruction("xml-stylesheet", "href=\"s&t\"");
    assert_eq!(ser.writer, "<!-- a & <b> --><!DOCTYPE html><?xml-stylesheet href=\"s&t\">");
}

#[test]
fn take_output_empties_writer() {
    let mut ser = include_node();
    ser.start_elem(html("em"), &[]).unwrap();
    assert_eq!(ser.take_output(), "<em>");
    ser.end_elem(html("em")).unwrap();
    assert_eq!(ser.take_output(), "</em>");
    assert_eq!(ser.writer, "");
}

#[test]
fn escape_text_literalizes_punctuation() {
    assert_eq!(escape_text("</", true), "&lt;/");
    assert_eq!(escape_text(">", true), "&gt;");
    assert_eq!(escape_text("=\"", true), "=\"");
    assert_eq!(escape_text("<", false), "<");
    assert_eq!(escape_text("a&\u{a0}b", true), "a&amp;&nbsp;b");
}

#[test]
fn opts_are_kept() {
    let ser = include_node();
    assert!(matches!(ser.opts().traversal_scope, TraversalScope::IncludeNode));
}

fn unescape(t: &str) -> String {
    t.replace("&lt;", "<")
        .replace("&gt;", ">")
        .replace("&quot;", "\"")
        .replace("&nbsp;", "\u{a0}")
        .replace("&amp;", "&")
}

#[test]
fn escaped_text_decodes_back() {
    for text in ["", "plain", "a & b", "&amp;", "<&lt;>", "x\u{a0}y", "\"q\" & 'r'"] {
        let mut ser = include_node();
        ser.write_text(text).unwrap();
        assert_eq!(unescape(&ser.writer), text);
        let mut ser = include_node();
        ser.start_elem(html("p"), &[attr(Namespace::Empty, "v", text)]).unwrap();
        let out = ser.take_output();
        let value = &out["<p v=\"".len()..out.len() - "\">".len()];
        assert_eq!(unescape(value), text);
    }
}
