//! Interchange text as script source: a call of `JSON.parse` on a
//! single-quoted string literal that denotes the text.

use crate::text::push_char;
use vstd::prelude::*;
use vstd::string::*;

verus! {

/// Whether a character cannot stand as itself inside a single-quoted string
/// literal: the quote, the backslash and the line terminators.
pub open spec fn is_significant(c: char) -> bool {
    c == '\\' || c == '\'' || c == '\n' || c == '\r' || c == '\u{2028}' || c == '\u{2029}'
}

/// How one character is written inside the literal.
pub open spec fn escaped_char(c: char) -> Seq<char> {
    if c == '\\' {
        seq!['\\', '\\']
    } else if c == '\'' {
        seq!['\\', '\'']
    } else if c == '\n' {
        seq!['\\', 'n']
    } else if c == '\r' {
        seq!['\\', 'r']
    } else if c == '\u{2028}' {
        seq!['\\', 'u', '2', '0', '2', '8']
    } else if c == '\u{2029}' {
        seq!['\\', 'u', '2', '0', '2', '9']
    } else {
        seq![c]
    }
}

/// How a text is written inside the literal: character by character.
pub open spec fn escaped(s: Seq<char>) -> Seq<char>
    decreases s.len(),
{
    if s.len() == 0 {
        Seq::empty()
    } else {
        escaped(s.drop_last()) + escaped_char(s.last())
    }
}

/// The text that the inside of a single-quoted string literal denotes, or
/// `None` where it is not the inside of one: where a significant character
/// stands as itself, or a backslash opens none of the escapes written here.
pub open spec fn denoted(lit: Seq<char>) -> Option<Seq<char>>
    decreases lit.len(),
{
    if lit.len() == 0 {
        Some(Seq::empty())
    } else if lit[0] != '\\' {
        if is_significant(lit[0]) {
            None
        } else {
            match denoted(lit.skip(1)) {
                Some(rest) => Some(seq![lit[0]] + rest),
                None => None,
            }
        }
    } else if lit.len() < 2 {
        None
    } else {
        let (c, used) = if lit[1] == '\\' {
            (Some('\\'), 2int)
        } else if lit[1] == '\'' {
            (Some('\''), 2int)
        } else if lit[1] == 'n' {
            (Some('\n'), 2int)
        } else if lit[1] == 'r' {
            (Some('\r'), 2int)
        } else if lit.len() >= 6 && lit.subrange(1, 6) == seq!['u', '2', '0', '2', '8'] {
            (Some('\u{2028}'), 6int)
        } else if lit.len() >= 6 && lit.subrange(1, 6) == seq!['u', '2', '0', '2', '9'] {
            (Some('\u{2029}'), 6int)
        } else {
            (None, 2int)
        };
        match c {
            Some(c) => match denoted(lit.skip(used)) {
                Some(rest) => Some(seq![c] + rest),
                None => None,
            },
            None => None,
        }
    }
}

/// The script source that evaluates to the value of an interchange text.
pub open spec fn script_for(text: Seq<char>) -> Seq<char> {
    "JSON.parse('"@ + escaped(text) + "')"@
}

/// Writing a text and then one more character writes the text with that
/// character.
pub proof fn lemma_escaped_push(s: Seq<char>, c: char)
    ensures
        escaped(s.push(c)) == escaped(s) + escaped_char(c),
{
    assert(s.push(c).drop_last() =~= s);
}

/// Writing a text writes its first character and then the rest.
pub proof fn lemma_escaped_front(s: Seq<char>)
    requires
        s.len() > 0,
    ensures
        escaped(s) == escaped_char(s[0]) + escaped(s.skip(1)),
    decreases s.len(),
{
    if s.len() == 1 {
        assert(s.drop_last() =~= Seq::<char>::empty());
        assert(s.skip(1) =~= Seq::<char>::empty());
        assert(escaped(s.skip(1)) =~= Seq::<char>::empty());
        assert(escaped(s.drop_last()) =~= Seq::<char>::empty());
        assert(escaped(s) =~= escaped_char(s[0]) + escaped(s.skip(1)));
    } else {
        let front = s.drop_last();
        lemma_escaped_front(front);
        assert(front.skip(1) =~= s.skip(1).drop_last());
        assert(s.skip(1).last() == s.last());
        assert(front[0] == s[0]);
        assert(escaped(s) =~= escaped_char(s[0]) + escaped(s.skip(1)));
    }
}

/// The literal written for a text denotes that text and no other: whatever
/// the text holds, the script reads back exactly what was written.
pub proof fn lemma_escaped_reads_back(s: Seq<char>)
    ensures
        denoted(escaped(s)) == Some(s),
    decreases s.len(),
{
    if s.len() == 0 {
        assert(escaped(s) =~= Seq::<char>::empty());
    } else {
        let c = s[0];
        let rest = s.skip(1);
        lemma_escaped_front(s);
        lemma_escaped_reads_back(rest);
        let head = escaped_char(c);
        let lit = head + escaped(rest);
        assert(escaped(s) == lit);
        assert(lit.skip(head.len() as int) =~= escaped(rest));
        assert(seq![c] + rest =~= s);
        if c == '\u{2028}' {
            assert(lit.subrange(1, 6) =~= seq!['u', '2', '0', '2', '8']);
        } else if c == '\u{2029}' {
            assert(lit.subrange(1, 6) =~= seq!['u', '2', '0', '2', '9']);
            assert(lit.subrange(1, 6)[4] != seq!['u', '2', '0', '2', '8'][4]);
        }
        assert(lit[0] == head[0]);
        if head.len() >= 2 {
            assert(lit[1] == head[1]);
        }
    }
}

/// In the literal written for a text, no significant character stands as
/// itself except the backslash that opens an escape: the literal cannot end
/// early and cannot break the line.
pub proof fn lemma_escaped_is_closed(s: Seq<char>)
    ensures
        forall|i: int|
            0 <= i < escaped(s).len() ==> (#[trigger] escaped(s)[i]) != '\n' && escaped(s)[i]
                != '\r' && escaped(s)[i] != '\u{2028}' && escaped(s)[i] != '\u{2029}' && (
            escaped(s)[i] == '\'' ==> i > 0 && escaped(s)[i - 1] == '\\'),
    decreases s.len(),
{
    if s.len() > 0 {
        lemma_escaped_is_closed(s.drop_last());
        let front = escaped(s.drop_last());
        let tail = escaped_char(s.last());
        assert forall|i: int| 0 <= i < escaped(s).len() implies (#[trigger] escaped(s)[i]) != '\n'
            && escaped(s)[i] != '\r' && escaped(s)[i] != '\u{2028}' && escaped(s)[i]
            != '\u{2029}' && (escaped(s)[i] == '\'' ==> i > 0 && escaped(s)[i - 1] == '\\') by {
            if i < front.len() {
                assert(escaped(s)[i] == front[i]);
                if i > 0 {
                    assert(escaped(s)[i - 1] == front[i - 1]);
                }
            } else {
                assert(escaped(s)[i] == tail[i - front.len()]);
                if i - front.len() > 0 {
                    assert(escaped(s)[i - 1] == tail[i - 1 - front.len()]);
                }
            }
        }
    }
}

/// Appends to `out` how one character is written inside the literal.
fn push_escaped(out: &mut String, c: char)
    ensures
        final(out)@ == old(out)@ + escaped_char(c),
{
    let ghost before = out@;
    if c == '\\' {
        out.append("\\\\");
        proof {
            reveal_strlit("\\\\");
            assert("\\\\"@ =~= escaped_char(c));
        }
    } else if c == '\'' {
        out.append("\\'");
        proof {
            reveal_strlit("\\'");
            assert("\\'"@ =~= escaped_char(c));
        }
    } else if c == '\n' {
        out.append("\\n");
        proof {
            reveal_strlit("\\n");
            assert("\\n"@ =~= escaped_char(c));
        }
    } else if c == '\r' {
        out.append("\\r");
        proof {
            reveal_strlit("\\r");
            assert("\\r"@ =~= escaped_char(c));
        }
    } else if c == '\u{2028}' {
        out.append("\\u2028");
        proof {
            reveal_strlit("\\u2028");
            assert("\\u2028"@ =~= escaped_char(c));
        }
    } else if c == '\u{2029}' {
        out.append("\\u2029");
        proof {
            reveal_strlit("\\u2029");
            assert("\\u2029"@ =~= escaped_char(c));
        }
    } else {
        push_char(out, c);
        assert(before.push(c) =~= before + escaped_char(c));
    }
}

/// Writes a text as the inside of a single-quoted string literal.
pub fn escape(text: &str) -> (r: String)
    ensures
        r@ == escaped(text@),
        denoted(r@) == Some(text@),
{
    let mut out = String::new();
    assert(escaped(text@.take(0)) =~= Seq::<char>::empty());
    for c in it: text.chars()
        invariant
            it.seq() == text@,
            out@ == escaped(text@.take(it.index() as int)),
    {
        proof {
            assert(text@.take(it.index() + 1) == text@.take(it.index() as int).push(c));
            lemma_escaped_push(text@.take(it.index() as int), c);
        }
        push_escaped(&mut out, c);
    }
    proof {
        assert(text@.take(text@.len() as int) == text@);
        lemma_escaped_reads_back(text@);
    }
    out
}

/// The script source that evaluates to the value of an interchange text: a
/// call of `JSON.parse` on a literal that denotes the text.
pub fn script_source(text: &str) -> (r: String)
    ensures
        r@ == script_for(text@),
{
    let mut out = "JSON.parse('".to_owned();
    let inner = escape(text);
    out.append(inner.as_str());
    out.append("')");
    out
}

} // verus!
