//! Qualified names, namespaces, and the text emitted for tags and attribute prefixes.

use vstd::prelude::*;
use vstd::string::*;

verus! {

/// The namespace part of a qualified name.
#[derive(Clone, Debug)]
pub enum Namespace {
    /// No namespace (plain attributes).
    Empty,
    Html,
    MathMl,
    Svg,
    Xml,
    Xmlns,
    XLink,
    /// Any other namespace, by its URL.
    Other(String),
}

/// A namespace together with a local name, labelling an element or an attribute.
#[derive(Clone, Debug)]
pub struct QualName {
    pub ns: Namespace,
    pub local: String,
}

/// A non-fatal condition noticed while serializing.
#[derive(Clone, Copy, Debug, PartialEq, Eq, Structural)]
pub enum Diagnostic {
    /// An element outside the HTML, MathML and SVG namespaces; only its local name is kept.
    UnexpectedNamespace,
    /// An attribute in an unrecognized namespace; it is written with `unknown_namespace:`.
    UnknownAttrNamespace,
    /// A close or a child with no open context; a default one was put in its place.
    MissingParent,
}

impl QualName {
    pub fn new(ns: Namespace, local: String) -> (r: QualName)
        ensures
            r.ns == ns,
            r.local == local,
    {
        QualName { ns, local }
    }
}

/// True when element names in `ns` are written without a diagnostic.
pub open spec fn is_markup_ns(ns: Namespace) -> bool {
    ns is Html || ns is MathMl || ns is Svg
}

/// The diagnostics recorded when resolving the tag text of an element name.
pub open spec fn tag_diagnostics(name: QualName) -> Seq<Diagnostic> {
    if is_markup_ns(name.ns) {
        Seq::empty()
    } else {
        seq![Diagnostic::UnexpectedNamespace]
    }
}

/// The prefix written before an attribute's local name.
pub open spec fn attr_prefix(name: QualName) -> Seq<char> {
    match name.ns {
        Namespace::Empty => Seq::empty(),
        Namespace::Xml => "xml:"@,
        Namespace::Xmlns => if name.local@ == "xmlns"@ {
            Seq::empty()
        } else {
            "xmlns:"@
        },
        Namespace::XLink => "xlink:"@,
        _ => "unknown_namespace:"@,
    }
}

/// The diagnostics recorded when writing an attribute's prefix.
pub open spec fn attr_diagnostics(name: QualName) -> Seq<Diagnostic> {
    match name.ns {
        Namespace::Empty | Namespace::Xml | Namespace::Xmlns | Namespace::XLink => Seq::empty(),
        _ => seq![Diagnostic::UnknownAttrNamespace],
    }
}

/// Compares two strings character by character.
pub fn same_text(a: &str, b: &str) -> (r: bool)
    ensures
        r == (a@ == b@),
{
    let n = a.unicode_len();
    if n != b.unicode_len() {
        return false;
    }
    let mut i: usize = 0;
    while i < n
        invariant
            n == a@.len(),
            n == b@.len(),
            i <= n,
            a@.take(i as int) == b@.take(i as int),
        decreases n - i,
    {
        if a.get_char(i) != b.get_char(i) {
            return false;
        }
        proof {
            assert(a@.take(i + 1) =~= a@.take(i as int).push(a@[i as int]));
            assert(b@.take(i + 1) =~= b@.take(i as int).push(b@[i as int]));
        }
        i = i + 1;
    }
    proof {
        assert(a@ =~= a@.take(n as int));
        assert(b@ =~= b@.take(n as int));
    }
    true
}

/// The tag text of an element: its local name, whatever the namespace.
/// A namespace other than HTML, MathML or SVG is noted in `diagnostics`.
pub fn tagname<'a>(name: &'a QualName, diagnostics: &mut Vec<Diagnostic>) -> (r: &'a str)
    ensures
        r@ == name.local@,
        final(diagnostics)@ == old(diagnostics)@ + tag_diagnostics(*name),
{
    match name.ns {
        Namespace::Html | Namespace::MathMl | Namespace::Svg => {},
        _ => {
            diagnostics.push(Diagnostic::UnexpectedNamespace);
        },
    }
    proof {
        assert(final(diagnostics)@ =~= old(diagnostics)@ + tag_diagnostics(*name));
    }
    name.local.as_str()
}

/// Appends the prefix of an attribute name to `out`, noting an unrecognized
/// namespace in `diagnostics`.
pub fn push_attr_prefix(out: &mut String, name: &QualName, diagnostics: &mut Vec<Diagnostic>)
    ensures
        final(out)@ == old(out)@ + attr_prefix(*name),
        final(diagnostics)@ == old(diagnostics)@ + attr_diagnostics(*name),
{
    match name.ns {
        Namespace::Empty => {},
        Namespace::Xml => out.append("xml:"),
        Namespace::Xmlns => {
            if !same_text(name.local.as_str(), "xmlns") {
                out.append("xmlns:");
            }
        },
        Namespace::XLink => out.append("xlink:"),
        _ => {
            diagnostics.push(Diagnostic::UnknownAttrNamespace);
            out.append("unknown_namespace:");
        },
    }
    proof {
        assert(final(out)@ =~= old(out)@ + attr_prefix(*name));
        assert(final(diagnostics)@ =~= old(diagnostics)@ + attr_diagnostics(*name));
    }
}

} // verus!
