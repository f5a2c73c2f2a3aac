//! The serializer core: the context stack and the six event handlers.

use vstd::prelude::*;
use vstd::string::*;
use crate::escape::{delimiter, escape_text, escaped, push_escaped};
use crate::names::{
    attr_diagnostics, attr_prefix, push_attr_prefix, same_text, tag_diagnostics, tagname,
    Diagnostic, Namespace, QualName,
};
use crate::policy::{
    is_allowed_tag, is_raw_text_tag, is_void_element, raw_text_tag, should_sanitize,
    void_element,
};

verus! {

/// Whether the root node's own tags are written.
#[derive(Clone, Debug)]
pub enum TraversalScope {
    /// Write the node itself and its children.
    IncludeNode,
    /// Write only the children, treating the given name, if any, as their parent.
    ChildrenOnly(Option<QualName>),
}

/// Options for one serialization run.
#[derive(Clone, Debug)]
pub struct SerializeOpts {
    /// Is scripting enabled? Decides whether `noscript` content is escaped.
    pub scripting_enabled: bool,
    /// Serialize the root node? Default: `ChildrenOnly(None)`.
    pub traversal_scope: TraversalScope,
    /// On a close or a child with no open context, put a default context in
    /// its place instead of failing. Default: false.
    pub create_missing_parent: bool,
}

impl Default for SerializeOpts {
    fn default() -> (r: SerializeOpts)
        ensures
            r.scripting_enabled,
            r.traversal_scope == TraversalScope::ChildrenOnly(None),
            !r.create_missing_parent,
    {
        SerializeOpts {
            scripting_enabled: true,
            traversal_scope: TraversalScope::ChildrenOnly(None),
            create_missing_parent: false,
        }
    }
}

/// An attribute: a qualified name and a value.
#[derive(Clone, Debug)]
pub struct Attribute {
    pub name: QualName,
    pub value: String,
}

/// The serializer was asked for the parent of an element while no element is
/// open, and the options do not allow a default one to stand in.
#[derive(Clone, Copy, Debug, PartialEq, Eq, Structural)]
pub enum SerializeError {
    MissingParent,
}

/// One open element, as the stack records it.
pub struct ElemInfo {
    /// The local name, for elements in the HTML namespace only.
    pub html_name: Option<String>,
    /// Whether the element's subtree produces no output.
    pub ignore_children: bool,
}

/// The model of a context entry.
pub struct ContextEntry {
    pub html_name: Option<Seq<char>>,
    pub suppressed: bool,
}

impl View for ElemInfo {
    type V = ContextEntry;

    open spec fn view(&self) -> ContextEntry {
        ContextEntry {
            html_name: match self.html_name {
                Some(s) => Some(s@),
                None => None,
            },
            suppressed: self.ignore_children,
        }
    }
}

/// The model of a serializer: what was written, the context stack from the
/// bottom up, the diagnostics in the order they were noticed, and the options.
pub struct SerState {
    pub out: Seq<char>,
    pub context: Seq<ContextEntry>,
    pub diagnostics: Seq<Diagnostic>,
    pub opts: SerializeOpts,
}

/// The name a new context entry records for an element.
pub open spec fn html_local(name: QualName) -> Option<Seq<char>> {
    if name.ns is Html {
        Some(name.local@)
    } else {
        None
    }
}

/// The entry that stands in for a missing parent.
pub open spec fn default_entry() -> ContextEntry {
    ContextEntry { html_name: None, suppressed: false }
}

/// The seed entry's name: the root's tag text when only its children are written.
pub open spec fn seed_name(scope: TraversalScope) -> Option<Seq<char>> {
    match scope {
        TraversalScope::ChildrenOnly(Some(n)) => Some(n.local@),
        _ => None,
    }
}

/// The diagnostics recorded when the serializer is made.
pub open spec fn seed_diagnostics(scope: TraversalScope) -> Seq<Diagnostic> {
    match scope {
        TraversalScope::ChildrenOnly(Some(n)) => tag_diagnostics(n),
        _ => Seq::empty(),
    }
}

/// The state of a fresh serializer.
pub open spec fn initial_state(opts: SerializeOpts) -> SerState {
    SerState {
        out: Seq::empty(),
        context: seq![ContextEntry { html_name: seed_name(opts.traversal_scope), suppressed: false }],
        diagnostics: seed_diagnostics(opts.traversal_scope),
        opts,
    }
}

/// True when a handler that needs a parent context cannot have one.
pub open spec fn lacks_parent(s: SerState) -> bool {
    s.context.len() == 0 && !s.opts.create_missing_parent
}

/// The state once a parent context is there: a default entry is put on an
/// empty stack, with a diagnostic.
pub open spec fn with_parent(s: SerState) -> SerState {
    if s.context.len() == 0 {
        SerState {
            context: seq![default_entry()],
            diagnostics: s.diagnostics.push(Diagnostic::MissingParent),
            ..s
        }
    } else {
        s
    }
}

/// The text written for one attribute of an element whose delimiters are
/// literalized when `sanitize` holds.
pub open spec fn attr_text(a: Attribute, sanitize: bool) -> Seq<char> {
    " "@ + attr_prefix(a.name) + a.name.local@ + delimiter("=\""@, sanitize) + escaped(
        a.value@,
        true,
    ) + delimiter("\""@, sanitize)
}

/// The text written for a list of attributes, in the order given.
pub open spec fn attrs_text(attrs: Seq<Attribute>, sanitize: bool) -> Seq<char>
    decreases attrs.len(),
{
    if attrs.len() == 0 {
        Seq::empty()
    } else {
        attrs_text(attrs.drop_last(), sanitize) + attr_text(attrs.last(), sanitize)
    }
}

/// The diagnostics recorded while writing a list of attributes.
pub open spec fn attrs_diagnostics(attrs: Seq<Attribute>) -> Seq<Diagnostic>
    decreases attrs.len(),
{
    if attrs.len() == 0 {
        Seq::empty()
    } else {
        attrs_diagnostics(attrs.drop_last()) + attr_diagnostics(attrs.last().name)
    }
}

/// Whether the tag text `tag` is written as literal text rather than markup.
pub open spec fn sanitized(tag: Seq<char>) -> bool {
    !is_allowed_tag(tag)
}

/// The start tag written for an element.
pub open spec fn start_tag_text(name: QualName, attrs: Seq<Attribute>) -> Seq<char> {
    let tag = name.local@;
    delimiter("<"@, sanitized(tag)) + tag + attrs_text(attrs, sanitized(tag)) + delimiter(
        ">"@,
        sanitized(tag),
    )
}

/// The end tag written for an element.
pub open spec fn end_tag_text(name: QualName) -> Seq<char> {
    let tag = name.local@;
    delimiter("</"@, sanitized(tag)) + tag + delimiter(">"@, sanitized(tag))
}

/// The state after an element opens, when a parent context can be had.
pub open spec fn after_start(s: SerState, name: QualName, attrs: Seq<Attribute>) -> SerState {
    let p = with_parent(s);
    if p.context.last().suppressed {
        SerState {
            context: p.context.push(ContextEntry { html_name: html_local(name), suppressed: true }),
            ..p
        }
    } else {
        SerState {
            out: p.out + start_tag_text(name, attrs),
            context: p.context.push(
                ContextEntry { html_name: html_local(name), suppressed: is_void_element(name) },
            ),
            diagnostics: p.diagnostics + tag_diagnostics(name) + attrs_diagnostics(attrs),
            opts: p.opts,
        }
    }
}

/// The state after an element closes, when the stack is not empty or a
/// default entry may stand in.
pub open spec fn after_end(s: SerState, name: QualName) -> SerState {
    if s.context.len() == 0 {
        SerState {
            out: s.out + end_tag_text(name),
            diagnostics: s.diagnostics.push(Diagnostic::MissingParent) + tag_diagnostics(name),
            ..s
        }
    } else if s.context.last().suppressed {
        SerState { context: s.context.drop_last(), ..s }
    } else {
        SerState {
            out: s.out + end_tag_text(name),
            context: s.context.drop_last(),
            diagnostics: s.diagnostics + tag_diagnostics(name),
            opts: s.opts,
        }
    }
}

/// Whether text is escaped inside the element described by `top`.
pub open spec fn text_is_escaped(top: ContextEntry, scripting_enabled: bool) -> bool {
    match top.html_name {
        Some(t) => if is_raw_text_tag(t) {
            false
        } else if t == "noscript"@ {
            !scripting_enabled
        } else {
            true
        },
        None => true,
    }
}

/// The state after a text node, when a parent context can be had.
pub open spec fn after_text(s: SerState, text: Seq<char>) -> SerState {
    let p = with_parent(s);
    let written = if text_is_escaped(p.context.last(), p.opts.scripting_enabled) {
        escaped(text, false)
    } else {
        text
    };
    SerState { out: p.out + written, ..p }
}

/// The state with `extra` appended to what was written.
pub open spec fn appended(s: SerState, extra: Seq<char>) -> SerState {
    SerState { out: s.out + extra, ..s }
}

/// A serializer that writes markup text into a string.
pub struct HtmlSerializer {
    /// What has been written so far.
    pub writer: String,
    opts: SerializeOpts,
    stack: Vec<ElemInfo>,
    diagnostics: Vec<Diagnostic>,
}

impl View for HtmlSerializer {
    type V = SerState;

    closed spec fn view(&self) -> SerState {
        SerState {
            out: self.writer@,
            context: self.stack@.map_values(|e: ElemInfo| e@),
            diagnostics: self.diagnostics@,
            opts: self.opts,
        }
    }
}

/// Appends the start tag of an element with tag text `tag` to `out`.
fn push_start_tag(
    out: &mut String,
    diagnostics: &mut Vec<Diagnostic>,
    tag: &str,
    attrs: &[Attribute],
    sanitize: bool,
)
    ensures
        final(out)@ == old(out)@ + delimiter("<"@, sanitize) + tag@ + attrs_text(attrs@, sanitize)
            + delimiter(">"@, sanitize),
        final(diagnostics)@ == old(diagnostics)@ + attrs_diagnostics(attrs@),
{
    let ghost out0 = out@;
    let ghost diags0 = diagnostics@;
    out.append(escape_text("<", sanitize).as_str());
    out.append(tag);
    let ghost head = out@;
    let mut i: usize = 0;
    while i < attrs.len()
        invariant
            i <= attrs@.len(),
            head == out0 + delimiter("<"@, sanitize) + tag@,
            out@ == head + attrs_text(attrs@.take(i as int), sanitize),
            diagnostics@ == diags0 + attrs_diagnostics(attrs@.take(i as int)),
        decreases attrs.len() - i,
    {
        let a = &attrs[i];
        let ghost before = out@;
        out.append(" ");
        push_attr_prefix(out, &a.name, diagnostics);
        out.append(a.name.local.as_str());
        out.append(escape_text("=\"", sanitize).as_str());
        push_escaped(out, a.value.as_str(), true);
        out.append(escape_text("\"", sanitize).as_str());
        proof {
            let next = attrs@.take(i + 1);
            assert(next.drop_last() =~= attrs@.take(i as int));
            assert(next.last() == *a);
            assert(out@ =~= before + attr_text(*a, sanitize));
            assert(out@ =~= head + attrs_text(next, sanitize));
            assert(diagnostics@ =~= diags0 + attrs_diagnostics(next));
        }
        i = i + 1;
    }
    out.append(escape_text(">", sanitize).as_str());
    proof {
        assert(attrs@.take(attrs@.len() as int) =~= attrs@);
        assert(final(out)@ =~= old(out)@ + delimiter("<"@, sanitize) + tag@ + attrs_text(
            attrs@,
            sanitize,
        ) + delimiter(">"@, sanitize));
    }
}

/// Appends the end tag of an element with tag text `tag` to `out`.
fn push_end_tag(out: &mut String, tag: &str, sanitize: bool)
    ensures
        final(out)@ == old(out)@ + delimiter("</"@, sanitize) + tag@ + delimiter(">"@, sanitize),
{
    out.append(escape_text("</", sanitize).as_str());
    out.append(tag);
    out.append(escape_text(">", sanitize).as_str());
}

impl HtmlSerializer {
    /// A serializer with nothing written and one seed context, which carries
    /// the root's tag text when only the root's children are written.
    pub fn new(opts: SerializeOpts) -> (r: HtmlSerializer)
        ensures
            r@ == initial_state(opts),
    {
        let mut diagnostics: Vec<Diagnostic> = Vec::new();
        let html_name = match &opts.traversal_scope {
            TraversalScope::ChildrenOnly(Some(n)) => {
                let tag = tagname(n, &mut diagnostics);
                Some(tag.to_owned())
            },
            _ => None,
        };
        let mut stack: Vec<ElemInfo> = Vec::new();
        stack.push(ElemInfo { html_name, ignore_children: false });
        let r = HtmlSerializer { writer: String::new(), opts, stack, diagnostics };
        proof {
            assert(diagnostics@ =~= seed_diagnostics(opts.traversal_scope));
            assert(r@.context =~= initial_state(opts).context);
        }
        r
    }

    /// The options the serializer was made with.
    pub fn opts(&self) -> (r: &SerializeOpts)
        ensures
            *r == self@.opts,
    {
        &self.opts
    }

    /// The number of entries on the context stack.
    pub fn depth(&self) -> (r: usize)
        ensures
            r == self@.context.len(),
    {
        self.stack.len()
    }

    /// The diagnostics recorded so far, oldest first.
    pub fn diagnostics(&self) -> (r: &Vec<Diagnostic>)
        ensures
            r@ == self@.diagnostics,
    {
        &self.diagnostics
    }

    /// Hands out what was written so far and leaves the output empty.
    pub fn take_output(&mut self) -> (r: String)
        ensures
            r@ == old(self)@.out,
            final(self)@ == (SerState { out: Seq::empty(), ..old(self)@ }),
    {
        let mut r = String::new();
        std::mem::swap(&mut r, &mut self.writer);
        proof {
            assert(final(self)@.context =~= old(self)@.context);
        }
        r
    }

    /// Makes sure there is a parent context; false when there is none and the
    /// options do not allow a default one.
    fn parent(&mut self) -> (r: bool)
        ensures
            r == !lacks_parent(old(self)@),
            r ==> final(self)@ == with_parent(old(self)@),
            r ==> final(self).stack@.len() > 0,
            !r ==> final(self)@ == old(self)@,
    {
        if self.stack.len() == 0 {
            if !self.opts.create_missing_parent {
                return false;
            }
            self.diagnostics.push(Diagnostic::MissingParent);
            self.stack.push(ElemInfo { html_name: None, ignore_children: false });
            proof {
                assert(self@.context =~= seq![default_entry()]);
            }
        }
        true
    }

    /// Writes the start tag of an element and opens its context.
    ///
    /// Inside a suppressed element nothing is written and the new context is
    /// suppressed too. Fails, changing nothing, when the stack is empty and the
    /// options do not allow a default parent.
    pub fn start_elem(&mut self, name: QualName, attrs: &[Attribute]) -> (r: Result<
        (),
        SerializeError,
    >)
        ensures
            lacks_parent(old(self)@) ==> r == Err::<(), SerializeError>(
                SerializeError::MissingParent,
            ) && final(self)@ == old(self)@,
            !lacks_parent(old(self)@) ==> r is Ok && final(self)@ == after_start(
                old(self)@,
                name,
                attrs@,
            ),
    {
        if !self.parent() {
            return Err(SerializeError::MissingParent);
        }
        let ghost p = self@;
        let html_name = match name.ns {
            Namespace::Html => Some(name.local.clone()),
            _ => None,
        };
        let last = self.stack.len() - 1;
        if self.stack[last].ignore_children {
            self.stack.push(ElemInfo { html_name, ignore_children: true });
            proof {
                assert(self@.context =~= p.context.push(
                    ContextEntry { html_name: html_local(name), suppressed: true },
                ));
            }
            return Ok(());
        }
        let tag = tagname(&name, &mut self.diagnostics);
        let sanitize = should_sanitize(tag);
        push_start_tag(&mut self.writer, &mut self.diagnostics, tag, attrs, sanitize);
        let ignore_children = void_element(&name);
        self.stack.push(ElemInfo { html_name, ignore_children });
        proof {
            assert(self@.context =~= p.context.push(
                ContextEntry { html_name: html_local(name), suppressed: is_void_element(name) },
            ));
            assert(self@.out =~= p.out + start_tag_text(name, attrs@));
            assert(self@.diagnostics =~= p.diagnostics + tag_diagnostics(name)
                + attrs_diagnostics(attrs@));
        }
        Ok(())
    }

    /// Closes the innermost context and writes the end tag, unless that
    /// context was suppressed.
    ///
    /// On an empty stack a default context stands in when the options allow
    /// it; otherwise this fails and changes nothing.
    pub fn end_elem(&mut self, name: QualName) -> (r: Result<(), SerializeError>)
        ensures
            lacks_parent(old(self)@) ==> r == Err::<(), SerializeError>(
                SerializeError::MissingParent,
            ) && final(self)@ == old(self)@,
            !lacks_parent(old(self)@) ==> r is Ok && final(self)@ == after_end(old(self)@, name),
    {
        let ghost s = self@;
        let info = match self.stack.pop() {
            Some(info) => info,
            None => {
                if !self.opts.create_missing_parent {
                    return Err(SerializeError::MissingParent);
                }
                self.diagnostics.push(Diagnostic::MissingParent);
                ElemInfo { html_name: None, ignore_children: false }
            },
        };
        proof {
            if s.context.len() > 0 {
                assert(self@.context =~= s.context.drop_last());
                assert(info@ == s.context.last());
            }
        }
        if info.ignore_children {
            return Ok(());
        }
        let tag = tagname(&name, &mut self.diagnostics);
        let sanitize = should_sanitize(tag);
        push_end_tag(&mut self.writer, tag, sanitize);
        proof {
            assert(self@.out =~= s.out + end_tag_text(name));
        }
        Ok(())
    }

    /// Writes a text node: verbatim inside a raw-text element (and inside
    /// `noscript` when scripting is enabled), escaped everywhere else.
    pub fn write_text(&mut self, text: &str) -> (r: Result<(), SerializeError>)
        ensures
            lacks_parent(old(self)@) ==> r == Err::<(), SerializeError>(
                SerializeError::MissingParent,
            ) && final(self)@ == old(self)@,
            !lacks_parent(old(self)@) ==> r is Ok && final(self)@ == after_text(old(self)@, text@),
    {
        if !self.parent() {
            return Err(SerializeError::MissingParent);
        }
        let ghost p = self@;
        let last = self.stack.len() - 1;
        let escape = match &self.stack[last].html_name {
            Some(t) => {
                if raw_text_tag(t.as_str()) {
                    false
                } else if same_text(t.as_str(), "noscript") {
                    !self.opts.scripting_enabled
                } else {
                    true
                }
            },
            None => true,
        };
        proof {
            assert(self.stack@[last as int]@ == p.context.last());
        }
        if escape {
            push_escaped(&mut self.writer, text, false);
        } else {
            self.writer.append(text);
        }
        proof {
            assert(self@.context =~= p.context);
        }
        Ok(())
    }

    /// Writes `<!--`, the text verbatim, and `-->`.
    pub fn write_comment(&mut self, text: &str)
        ensures
            final(self)@ == appended(old(self)@, "<!--"@ + text@ + "-->"@),
    {
        self.writer.append("<!--");
        self.writer.append(text);
        self.writer.append("-->");
        proof {
            assert(self@.out =~= old(self)@.out + ("<!--"@ + text@ + "-->"@));
        }
    }

    /// Writes `<!DOCTYPE `, the name verbatim, and `>`.
    pub fn write_doctype(&mut self, name: &str)
        ensures
            final(self)@ == appended(old(self)@, "<!DOCTYPE "@ + name@ + ">"@),
    {
        self.writer.append("<!DOCTYPE ");
        self.writer.append(name);
        self.writer.append(">");
        proof {
            assert(self@.out =~= old(self)@.out + ("<!DOCTYPE "@ + name@ + ">"@));
        }
    }

    /// Writes `<?`, the target, a space, the data verbatim, and `>`.
    pub fn write_processing_instruction(&mut self, target: &str, data: &str)
        ensures
            final(self)@ == appended(old(self)@, "<?"@ + target@ + " "@ + data@ + ">"@),
    {
        self.writer.append("<?");
        self.writer.append(target);
        self.writer.append(" ");
        self.writer.append(data);
        self.writer.append(">");
        proof {
            assert(self@.out =~= old(self)@.out + ("<?"@ + target@ + " "@ + data@ + ">"@));
        }
    }
}

} // verus!
