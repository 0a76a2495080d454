use vstd::prelude::*;

verus! {

// The bulk wire protocol is line-oriented: each action is a structured
// action descriptor line, followed for create and index actions by the
// payload line. The descriptor and payload lines must alternate one to
// one, in the exact order the sources were supplied — that order is the
// only thing that lets a caller pair per-item outcomes with its inputs
// by position.

/// Relies on String::push of std: appends the given character to the
/// end of the string.
pub assume_specification[ String::push ](s: &mut String, ch: char)
    ensures
        final(s)@ == old(s)@.push(ch),
;

/// The lower-case hexadecimal digit for one value below sixteen.
pub open spec fn hex_digit_spec(d: u32) -> char {
    if d == 0 {
        '0'
    } else if d == 1 {
        '1'
    } else if d == 2 {
        '2'
    } else if d == 3 {
        '3'
    } else if d == 4 {
        '4'
    } else if d == 5 {
        '5'
    } else if d == 6 {
        '6'
    } else if d == 7 {
        '7'
    } else if d == 8 {
        '8'
    } else if d == 9 {
        '9'
    } else if d == 10 {
        'a'
    } else if d == 11 {
        'b'
    } else if d == 12 {
        'c'
    } else if d == 13 {
        'd'
    } else if d == 14 {
        'e'
    } else {
        'f'
    }
}

/// Write one value below sixteen as a lower-case hexadecimal digit.
pub fn hex_digit(d: u32) -> (c: char)
    requires
        d < 16,
    ensures
        c == hex_digit_spec(d),
{
    match d {
        0 => '0',
        1 => '1',
        2 => '2',
        3 => '3',
        4 => '4',
        5 => '5',
        6 => '6',
        7 => '7',
        8 => '8',
        9 => '9',
        10 => 'a',
        11 => 'b',
        12 => 'c',
        13 => 'd',
        14 => 'e',
        _ => 'f',
    }
}

/// How one character appears inside a quoted string of an action line:
/// quote and backslash are escaped, the named control characters use
/// their short escapes, the remaining control characters their
/// four-digit form, and every other character stands for itself.
pub open spec fn escaped_char(c: char) -> Seq<char> {
    if c == '"' {
        seq!['\\', '"']
    } else if c == '\\' {
        seq!['\\', '\\']
    } else if c == '\u{0008}' {
        seq!['\\', 'b']
    } else if c == '\u{000c}' {
        seq!['\\', 'f']
    } else if c == '\n' {
        seq!['\\', 'n']
    } else if c == '\r' {
        seq!['\\', 'r']
    } else if c == '\t' {
        seq!['\\', 't']
    } else if (c as u32) < 32 {
        seq![
            '\\',
            'u',
            '0',
            '0',
            hex_digit_spec((c as u32) / 16),
            hex_digit_spec((c as u32) % 16),
        ]
    } else {
        seq![c]
    }
}

/// A whole string as it appears inside the quotes of an action line.
pub open spec fn json_escaped(s: Seq<char>) -> Seq<char>
    decreases s.len(),
{
    if s.len() == 0 {
        Seq::empty()
    } else {
        json_escaped(s.drop_last()) + escaped_char(s.last())
    }
}

/// Escape a string for use inside the quotes of an action line.
pub fn json_escape(s: &str) -> (r: String)
    ensures
        r@ == json_escaped(s@),
{
    let n = s.unicode_len();
    let mut out = String::new();
    let mut i: usize = 0;
    while i < n
        invariant
            i <= n,
            n == s@.len(),
            out@ == json_escaped(s@.take(i as int)),
        decreases n - i,
    {
        let c = s.get_char(i);
        proof {
            assert(s@.take(i + 1).drop_last() =~= s@.take(i as int));
            assert(s@.take(i + 1).last() == s@[i as int]);
        }
        let ghost before = out@;
        if c == '"' {
            out.push('\\');
            out.push('"');
        } else if c == '\\' {
            out.push('\\');
            out.push('\\');
        } else if c == '\u{0008}' {
            out.push('\\');
            out.push('b');
        } else if c == '\u{000c}' {
            out.push('\\');
            out.push('f');
        } else if c == '\n' {
            out.push('\\');
            out.push('n');
        } else if c == '\r' {
            out.push('\\');
            out.push('r');
        } else if c == '\t' {
            out.push('\\');
            out.push('t');
        } else if (c as u32) < 32 {
            let code = c as u32;
            out.push('\\');
            out.push('u');
            out.push('0');
            out.push('0');
            out.push(hex_digit(code / 16));
            out.push(hex_digit(code % 16));
        } else {
            out.push(c);
        }
        proof {
            assert(out@ =~= before + escaped_char(c));
        }
        i = i + 1;
    }
    proof {
        assert(s@.take(n as int) =~= s@);
    }
    out
}

/// The action descriptor line of an index action that lets the store
/// assign the identifier.
pub open spec fn index_action_plain() -> Seq<char> {
    "{\"index\":{}}"@
}

/// Build the descriptor line of an identifier-less index action.
pub fn index_action_line() -> (r: String)
    ensures
        r@ == index_action_plain(),
{
    "{\"index\":{}}".to_owned()
}

/// The action descriptor line of an index action targeting one
/// identifier.
pub open spec fn index_action_with_id(id: Seq<char>) -> Seq<char> {
    "{\"index\":{\"_id\":\""@ + json_escaped(id) + "\"}}"@
}

/// Build the descriptor line of an index action for one identifier.
pub fn index_action_line_for(id: &str) -> (r: String)
    ensures
        r@ == index_action_with_id(id@),
{
    let mut out = "{\"index\":{\"_id\":\"".to_owned();
    let escaped = json_escape(id);
    out.append(escaped.as_str());
    out.append("\"}}");
    out
}

/// Whether the two lines a framed batch devotes to action i carry it
/// faithfully: line 2·i is the identifier-less action descriptor and
/// line 2·i + 1 is source i verbatim.
pub open spec fn framed_pair(lines: Seq<String>, sources: Seq<String>, i: int) -> bool {
    lines[2 * i]@ == index_action_plain() && lines[2 * i + 1]@ == sources[i]@
}

/// Frame a batch of payload lines: each source is preceded by its own
/// identifier-less action descriptor, in the exact order supplied, so
/// the body is twice as many lines as there are sources and a
/// positional pairing of sources with per-item outcomes stays
/// meaningful.
pub fn bulk_insert_lines(sources: &Vec<String>) -> (lines: Vec<String>)
    ensures
        lines@.len() == 2 * sources@.len(),
        forall|i: int| 0 <= i < sources@.len() ==> #[trigger] framed_pair(lines@, sources@, i),
{
    let mut out: Vec<String> = Vec::new();
    let mut i: usize = 0;
    while i < sources.len()
        invariant
            i <= sources@.len(),
            out@.len() == 2 * i,
            forall|j: int| 0 <= j < i ==> #[trigger] framed_pair(out@, sources@, j),
        decreases sources@.len() - i,
    {
        let ghost before = out@;
        let line = index_action_line();
        let src = sources[i].clone();
        let ghost lv = line@;
        let ghost sv = src@;
        out.push(line);
        out.push(src);
        proof {
            assert forall|j: int| 0 <= j < i + 1 implies #[trigger] framed_pair(
                out@,
                sources@,
                j,
            ) by {
                if j < i {
                    assert(framed_pair(before, sources@, j));
                    assert(out@[2 * j] == before[2 * j]);
                    assert(out@[2 * j + 1] == before[2 * j + 1]);
                } else {
                    assert(out@[2 * j]@ == lv);
                    assert(out@[2 * j + 1]@ == sv);
                }
            }
        }
        i = i + 1;
    }
    out
}

/// Frame one payload line under an action descriptor that targets the
/// given identifier: the same two-line unit a one-element batch uses.
pub fn bulk_insert_lines_for_id(id: &str, source: String) -> (lines: Vec<String>)
    ensures
        lines@.len() == 2,
        lines@[0]@ == index_action_with_id(id@),
        lines@[1] == source,
{
    let mut out: Vec<String> = Vec::new();
    out.push(index_action_line_for(id));
    out.push(source);
    out
}

/// Pair a batch's inputs with its per-item outcomes by position: the
/// pairing exists exactly when the outcome sequence kept the batch's
/// length, and then outcome i belongs to input i, with nothing
/// reordered or coalesced.
pub fn pair_outcomes<A, B>(actions: Vec<A>, outcomes: Vec<B>) -> (r: Option<Vec<(A, B)>>)
    ensures
        r is Some <==> actions@.len() == outcomes@.len(),
        r matches Some(v) ==> v@.len() == actions@.len() && forall|i: int|
            0 <= i < v@.len() ==> #[trigger] v@[i] == (actions@[i], outcomes@[i]),
{
    if actions.len() != outcomes.len() {
        return None;
    }
    let ghost a0 = actions@;
    let ghost b0 = outcomes@;
    let mut actions = actions;
    let mut outcomes = outcomes;
    let mut v: Vec<(A, B)> = Vec::new();
    while actions.len() > 0
        invariant
            actions@.len() == outcomes@.len(),
            v@.len() + actions@.len() == a0.len(),
            b0.len() == a0.len(),
            actions@ == a0.skip(v@.len() as int),
            outcomes@ == b0.skip(v@.len() as int),
            forall|i: int| 0 <= i < v@.len() ==> #[trigger] v@[i] == (a0[i], b0[i]),
        decreases actions@.len(),
    {
        let ghost k = v@.len() as int;
        let a = actions.remove(0);
        let b = outcomes.remove(0);
        proof {
            assert(a0.skip(k).remove(0) =~= a0.skip(k + 1));
            assert(b0.skip(k).remove(0) =~= b0.skip(k + 1));
            assert(a0.skip(k)[0] == a0[k]);
            assert(b0.skip(k)[0] == b0[k]);
        }
        v.push((a, b));
    }
    Some(v)
}

/// In a framed insert batch the even lines are exactly the action
/// descriptors and each odd line is the payload of the action directly
/// above it: descriptor and payload alternate one to one through the
/// whole body.
pub proof fn lemma_bulk_batch_alternation(lines: Seq<String>, sources: Seq<String>)
    requires
        lines.len() == 2 * sources.len(),
        forall|i: int| 0 <= i < sources.len() ==> #[trigger] framed_pair(lines, sources, i),
    ensures
        forall|k: int|
            0 <= k < lines.len() ==> (#[trigger] lines[k])@ == if k % 2 == 0 {
                index_action_plain()
            } else {
                sources[k / 2]@
            },
{
    assert forall|k: int| 0 <= k < lines.len() implies (#[trigger] lines[k])@ == if k % 2 == 0 {
        index_action_plain()
    } else {
        sources[k / 2]@
    } by {
        let i = k / 2;
        assert(k == 2 * i + k % 2);
        assert(0 <= i < sources.len());
        assert(framed_pair(lines, sources, i));
        if k % 2 == 0 {
            assert(k == 2 * i);
        } else {
            assert(k == 2 * i + 1);
        }
    }
}

} // verus!
