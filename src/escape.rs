//! Character escaping for text content, attribute values and tag delimiters.

use vstd::prelude::*;
use vstd::string::*;

verus! {

/// What one character of the input becomes in escaped output.
///
/// `attr_mode` selects the attribute-value map, where `"` is escaped and `<`,
/// `>` pass through; outside it the opposite holds.
pub open spec fn escape_char(c: char, attr_mode: bool) -> Seq<char> {
    if c == '&' {
        seq!['&', 'a', 'm', 'p', ';']
    } else if c == '\u{00A0}' {
        seq!['&', 'n', 'b', 's', 'p', ';']
    } else if c == '"' && attr_mode {
        seq!['&', 'q', 'u', 'o', 't', ';']
    } else if c == '<' && !attr_mode {
        seq!['&', 'l', 't', ';']
    } else if c == '>' && !attr_mode {
        seq!['&', 'g', 't', ';']
    } else {
        seq![c]
    }
}

/// The escaped form of a whole character sequence: each character mapped in order.
pub open spec fn escaped(s: Seq<char>, attr_mode: bool) -> Seq<char>
    decreases s.len(),
{
    if s.len() == 0 {
        Seq::empty()
    } else {
        escaped(s.drop_last(), attr_mode) + escape_char(s.last(), attr_mode)
    }
}

/// A tag delimiter (`<`, `>`, `</`, `="`, `"`) as emitted: literalized through
/// the text-mode map when `sanitize` holds, verbatim otherwise.
pub open spec fn delimiter(p: Seq<char>, sanitize: bool) -> Seq<char> {
    if sanitize {
        escaped(p, false)
    } else {
        p
    }
}

/// True when `t` begins with `p`.
pub open spec fn starts_with(t: Seq<char>, p: Seq<char>) -> bool {
    p.len() <= t.len() && t.take(p.len() as int) == p
}

/// Decodes the five character references that escaping produces, reading
/// from the front; every other character stands for itself.
pub open spec fn unescaped(t: Seq<char>) -> Seq<char>
    decreases t.len(),
{
    if t.len() == 0 {
        Seq::empty()
    } else if starts_with(t, seq!['&', 'a', 'm', 'p', ';']) {
        seq!['&'] + unescaped(t.skip(5))
    } else if starts_with(t, seq!['&', 'n', 'b', 's', 'p', ';']) {
        seq!['\u{00A0}'] + unescaped(t.skip(6))
    } else if starts_with(t, seq!['&', 'q', 'u', 'o', 't', ';']) {
        seq!['"'] + unescaped(t.skip(6))
    } else if starts_with(t, seq!['&', 'l', 't', ';']) {
        seq!['<'] + unescaped(t.skip(4))
    } else if starts_with(t, seq!['&', 'g', 't', ';']) {
        seq!['>'] + unescaped(t.skip(4))
    } else {
        seq![t[0]] + unescaped(t.skip(1))
    }
}

/// Escaping a sequence that begins with `c` writes the form of `c` first.
pub proof fn lemma_escaped_prepend(c: char, s: Seq<char>, attr_mode: bool)
    ensures
        escaped(seq![c] + s, attr_mode) == escape_char(c, attr_mode) + escaped(s, attr_mode),
    decreases s.len(),
{
    let t = seq![c] + s;
    if s.len() == 0 {
        assert(t.drop_last() =~= Seq::<char>::empty());
        assert(t.last() == c);
        assert(escaped(Seq::<char>::empty(), attr_mode) =~= Seq::<char>::empty());
        assert(escaped(s, attr_mode) =~= Seq::<char>::empty());
        assert(escaped(t, attr_mode) =~= escape_char(c, attr_mode));
    } else {
        lemma_escaped_prepend(c, s.drop_last(), attr_mode);
        assert(t.drop_last() =~= seq![c] + s.drop_last());
        assert(t.last() == s.last());
        assert(escaped(t, attr_mode) =~= escape_char(c, attr_mode) + escaped(s, attr_mode));
    }
}

/// Decoding the escaped form of `c` followed by anything gives back `c` first.
pub proof fn lemma_unescaped_char(c: char, rest: Seq<char>, attr_mode: bool)
    ensures
        unescaped(escape_char(c, attr_mode) + rest) == seq![c] + unescaped(rest),
{
    let e = escape_char(c, attr_mode);
    let t = e + rest;
    let amp = seq!['&', 'a', 'm', 'p', ';'];
    let nbsp = seq!['&', 'n', 'b', 's', 'p', ';'];
    let quot = seq!['&', 'q', 'u', 'o', 't', ';'];
    let lt = seq!['&', 'l', 't', ';'];
    let gt = seq!['&', 'g', 't', ';'];
    assert(t.take(e.len() as int) =~= e);
    assert(t.skip(e.len() as int) =~= rest);
    assert(t[0] == e[0]);
    if e.len() > 1 {
        assert(t[1] == e[1]);
        if t.len() >= 4 {
            assert(t.take(4)[1] == t[1]);
        }
        if t.len() >= 5 {
            assert(t.take(5)[1] == t[1]);
        }
        if t.len() >= 6 {
            assert(t.take(6)[1] == t[1]);
        }
    }
    if e.len() == 1 {
        if t.len() >= 4 {
            assert(t.take(4)[0] == t[0]);
        }
        if t.len() >= 5 {
            assert(t.take(5)[0] == t[0]);
        }
        if t.len() >= 6 {
            assert(t.take(6)[0] == t[0]);
        }
        assert(!starts_with(t, amp));
        assert(!starts_with(t, nbsp));
        assert(!starts_with(t, quot));
        assert(!starts_with(t, lt));
        assert(!starts_with(t, gt));
    }
}

/// Escaping, in either mode, loses nothing: decoding the result gives the
/// original text back, with `&nbsp;` decoding to exactly U+00A0.
pub proof fn lemma_unescape_escaped(s: Seq<char>, attr_mode: bool)
    ensures
        unescaped(escaped(s, attr_mode)) == s,
    decreases s.len(),
{
    if s.len() == 0 {
        assert(escaped(s, attr_mode) =~= Seq::<char>::empty());
    } else {
        let rest = s.skip(1);
        assert(s =~= seq![s[0]] + rest);
        lemma_escaped_prepend(s[0], rest, attr_mode);
        lemma_unescaped_char(s[0], escaped(rest, attr_mode), attr_mode);
        lemma_unescape_escaped(rest, attr_mode);
    }
}

/// Relies on `String::push`: the character is appended at the end.
#[verifier::external_body]
pub(crate) fn push_char(s: &mut String, c: char)
    ensures
        final(s)@ == old(s)@.push(c),
{
    s.push(c);
}

/// Appends `text` to `out`, escaped character by character.
pub fn push_escaped(out: &mut String, text: &str, attr_mode: bool)
    ensures
        final(out)@ == old(out)@ + escaped(text@, attr_mode),
{
    let ghost start = out@;
    for c in it: text.chars()
        invariant
            it.seq() == text@,
            out@ == start + escaped(it.seq().take(it.index() as int), attr_mode),
    {
        let ghost done = it.seq().take(it.index() as int);
        proof {
            reveal_strlit("&amp;");
            reveal_strlit("&nbsp;");
            reveal_strlit("&quot;");
            reveal_strlit("&lt;");
            reveal_strlit("&gt;");
        }
        if c == '&' {
            out.append("&amp;");
        } else if c == '\u{00A0}' {
            out.append("&nbsp;");
        } else if c == '"' && attr_mode {
            out.append("&quot;");
        } else if c == '<' && !attr_mode {
            out.append("&lt;");
        } else if c == '>' && !attr_mode {
            out.append("&gt;");
        } else {
            push_char(out, c);
        }
        proof {
            let next = it.seq().take(it.index() + 1);
            assert(next.drop_last() =~= done);
            assert(out@ =~= start + escaped(next, attr_mode));
        }
    }
    proof {
        assert(text@.take(text@.len() as int) =~= text@);
    }
}

/// Escapes a fixed piece of markup punctuation when `should_escape` holds,
/// using the text-mode map; otherwise returns it unchanged.
pub fn escape_text(text: &str, should_escape: bool) -> (r: String)
    ensures
        r@ == delimiter(text@, should_escape),
{
    if !should_escape {
        return text.to_owned();
    }
    let mut result = String::new();
    push_escaped(&mut result, text, false);
    result
}

} // verus!
