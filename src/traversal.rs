//! Event sequences as a traversal issues them, and what running them does to
//! a serializer's state.

use vstd::prelude::*;
use crate::escape::delimiter;
use crate::names::QualName;
use crate::serializer::{
    after_end, after_start, after_text, appended, attrs_text, end_tag_text, lacks_parent,
    sanitized, with_parent, Attribute, SerState,
};

verus! {

/// One event of a traversal.
pub enum Event {
    Start(QualName, Seq<Attribute>),
    End(QualName),
    Text(Seq<char>),
    Comment(Seq<char>),
    Doctype(Seq<char>),
    ProcessingInstruction(Seq<char>, Seq<char>),
}

/// The state after one event, as the matching handler of `HtmlSerializer` leaves it.
pub open spec fn step(s: SerState, e: Event) -> SerState {
    match e {
        Event::Start(name, attrs) => if lacks_parent(s) {
            s
        } else {
            after_start(s, name, attrs)
        },
        Event::End(name) => if lacks_parent(s) {
            s
        } else {
            after_end(s, name)
        },
        Event::Text(text) => if lacks_parent(s) {
            s
        } else {
            after_text(s, text)
        },
        Event::Comment(text) => appended(s, "<!--"@ + text + "-->"@),
        Event::Doctype(name) => appended(s, "<!DOCTYPE "@ + name + ">"@),
        Event::ProcessingInstruction(target, data) => appended(
            s,
            "<?"@ + target + " "@ + data + ">"@,
        ),
    }
}

/// The state after a sequence of events, in order.
pub open spec fn run(s: SerState, events: Seq<Event>) -> SerState
    decreases events.len(),
{
    if events.len() == 0 {
        s
    } else {
        step(run(s, events.drop_last()), events.last())
    }
}

/// How many more elements a sequence opens than it closes.
pub open spec fn nesting(events: Seq<Event>) -> int
    decreases events.len(),
{
    if events.len() == 0 {
        0
    } else {
        nesting(events.drop_last()) + match events.last() {
            Event::Start(..) => 1int,
            Event::End(..) => -1int,
            _ => 0int,
        }
    }
}

/// No prefix of the sequence closes more elements than it has opened.
pub open spec fn never_underflows(events: Seq<Event>) -> bool {
    forall|k: int| 0 <= k <= events.len() ==> nesting(#[trigger] events.take(k)) >= 0
}

/// Every open in the sequence has its matching close, in order.
pub open spec fn well_formed(events: Seq<Event>) -> bool {
    never_underflows(events) && nesting(events) == 0
}

/// True when the event opens or closes an element.
pub open spec fn is_element_event(e: Event) -> bool {
    e is Start || e is End
}

proof fn lemma_prefix_never_underflows(events: Seq<Event>)
    requires
        events.len() > 0,
        never_underflows(events),
    ensures
        never_underflows(events.drop_last()),
        nesting(events.drop_last()) >= 0,
{
    let prefix = events.drop_last();
    assert forall|k: int| 0 <= k <= prefix.len() implies nesting(#[trigger] prefix.take(k)) >= 0 by {
        assert(prefix.take(k) =~= events.take(k));
    }
    assert(prefix.take(prefix.len() as int) =~= prefix);
}

/// Running events that never close below the starting depth changes the
/// depth by exactly their nesting.
pub proof fn lemma_depth_follows_nesting(s: SerState, events: Seq<Event>)
    requires
        s.context.len() > 0,
        never_underflows(events),
    ensures
        run(s, events).context.len() == s.context.len() + nesting(events),
    decreases events.len(),
{
    if events.len() > 0 {
        lemma_prefix_never_underflows(events);
        lemma_depth_follows_nesting(s, events.drop_last());
        assert(events.take(events.len() as int) =~= events);
    }
}

/// Stack balance: from any state with an open context, a well-formed sequence
/// of events (an element's open, its content, its close) leaves the context
/// stack exactly as deep as it found it.
pub proof fn lemma_stack_balance(s: SerState, events: Seq<Event>)
    requires
        s.context.len() > 0,
        well_formed(events),
    ensures
        run(s, events).context.len() == s.context.len(),
{
    lemma_depth_follows_nesting(s, events);
}

/// Suppression inheritance: under a suppressed context, any run of opens and
/// closes that never closes that context writes nothing and records nothing,
/// keeps the stack below it, and pushes only suppressed contexts, however deep.
pub proof fn lemma_suppression_inherited(s: SerState, events: Seq<Event>)
    requires
        s.context.len() > 0,
        s.context.last().suppressed,
        never_underflows(events),
        forall|i: int| 0 <= i < events.len() ==> is_element_event(#[trigger] events[i]),
    ensures
        run(s, events).out == s.out,
        run(s, events).diagnostics == s.diagnostics,
        run(s, events).context.len() == s.context.len() + nesting(events),
        run(s, events).context.take(s.context.len() as int) == s.context,
        forall|i: int|
            s.context.len() - 1 <= i < run(s, events).context.len() ==> (
            #[trigger] run(s, events).context[i]).suppressed,
    decreases events.len(),
{
    if events.len() > 0 {
        let prefix = events.drop_last();
        lemma_prefix_never_underflows(events);
        assert forall|i: int| 0 <= i < prefix.len() implies is_element_event(
            #[trigger] prefix[i],
        ) by {
            assert(prefix[i] == events[i]);
        }
        lemma_suppression_inherited(s, prefix);
        assert(events.take(events.len() as int) =~= events);
        assert(is_element_event(events[events.len() - 1]));
        let r = run(s, prefix);
        let n = s.context.len() as int;
        assert(r.context.len() >= n);
        assert(r.context[r.context.len() - 1].suppressed);
        let r2 = run(s, events);
        assert(with_parent(r) == r);
        assert(r2.context.take(n) =~= s.context);
    }
}

/// The sanitization decision depends on the tag text alone: two elements with
/// the same local name, in any namespaces, with any attributes, opened under any
/// unsuppressed contexts, get the same delimiters, and close with the same end tag.
pub proof fn lemma_sanitize_by_tag_text(
    s1: SerState,
    s2: SerState,
    n1: QualName,
    n2: QualName,
    a1: Seq<Attribute>,
    a2: Seq<Attribute>,
)
    requires
        n1.local@ == n2.local@,
        !lacks_parent(s1),
        !lacks_parent(s2),
        !with_parent(s1).context.last().suppressed,
        !with_parent(s2).context.last().suppressed,
    ensures
        ({
            let tag = n1.local@;
            let z = sanitized(tag);
            &&& after_start(s1, n1, a1).out == with_parent(s1).out + delimiter("<"@, z) + tag
                + attrs_text(a1, z) + delimiter(">"@, z)
            &&& after_start(s2, n2, a2).out == with_parent(s2).out + delimiter("<"@, z) + tag
                + attrs_text(a2, z) + delimiter(">"@, z)
            &&& end_tag_text(n1) == delimiter("</"@, z) + tag + delimiter(">"@, z)
            &&& end_tag_text(n2) == end_tag_text(n1)
        }),
{
}

} // verus!
