use vstd::prelude::*;
use vstd::string::StrSliceExecFns;

verus! {

/// Appends one character to a string: a call of `String::push`, which adds
/// the character at the end and keeps the characters before it.
#[verifier::external_body]
pub(crate) fn push_char(s: &mut String, c: char)
    ensures
        final(s)@ == old(s)@.push(c),
{
    s.push(c);
}

/// A line without the carriage return that ends it, if one does.
pub open spec fn strip_cr(line: Seq<char>) -> Seq<char> {
    if line.len() > 0 && line.last() == '\r' {
        line.drop_last()
    } else {
        line
    }
}

/// The lines of `rest`, read after the finished lines `done` and the
/// started line `cur`: a line ends at each `'\n'`, and loses one `'\r'`
/// standing just before that `'\n'`; the text after the last `'\n'` is one
/// more line when it is not empty.
pub open spec fn lines_from(done: Seq<Seq<char>>, cur: Seq<char>, rest: Seq<char>) -> Seq<
    Seq<char>,
>
    decreases rest.len(),
{
    if rest.len() == 0 {
        if cur.len() > 0 {
            done.push(cur)
        } else {
            done
        }
    } else if rest[0] == '\n' {
        lines_from(done.push(strip_cr(cur)), Seq::empty(), rest.drop_first())
    } else {
        lines_from(done, cur.push(rest[0]), rest.drop_first())
    }
}

/// The lines of a text, as `str::lines` splits it.
pub open spec fn split_lines(text: Seq<char>) -> Seq<Seq<char>> {
    lines_from(Seq::empty(), Seq::empty(), text)
}

/// The views of a vector of strings.
pub open spec fn strings_view(strings: Seq<String>) -> Seq<Seq<char>> {
    strings.map_values(|s: String| s@)
}

/// The number of `'\n'` in a text.
pub open spec fn count_newlines(text: Seq<char>) -> nat
    decreases text.len(),
{
    if text.len() == 0 {
        0
    } else {
        (if text[0] == '\n' {
            1nat
        } else {
            0nat
        }) + count_newlines(text.drop_first())
    }
}

/// Each `'\n'` ends one line, and the text after the last `'\n'` is one
/// more line when it is not empty.
pub proof fn lemma_lines_from_count(done: Seq<Seq<char>>, cur: Seq<char>, rest: Seq<char>)
    ensures
        lines_from(done, cur, rest).len() == done.len() + count_newlines(rest) + (if (rest.len()
            > 0 && rest.last() != '\n') || (rest.len() == 0 && cur.len() > 0) {
            1int
        } else {
            0int
        }),
    decreases rest.len(),
{
    if rest.len() > 0 {
        if rest.len() > 1 {
            assert(rest.drop_first().last() == rest.last());
        }
        if rest[0] == '\n' {
            lemma_lines_from_count(done.push(strip_cr(cur)), Seq::empty(), rest.drop_first());
        } else {
            lemma_lines_from_count(done, cur.push(rest[0]), rest.drop_first());
        }
    }
}

/// A text has one line for each `'\n'`, and one more when it does not end
/// with `'\n'` and is not empty: every line ending ends exactly one line,
/// empty lines included.
pub proof fn lemma_line_count(text: Seq<char>)
    ensures
        split_lines(text).len() == count_newlines(text) + (if text.len() > 0 && text.last()
            != '\n' {
            1int
        } else {
            0int
        }),
{
    lemma_lines_from_count(Seq::empty(), Seq::empty(), text);
}

/// A final line ending adds no line: when `rest` ends with a character
/// other than a line ending, or `rest` is empty and the started line `cur`
/// is not empty and does not end with `'\r'`, reading one more `'\n'`
/// gives the same lines.
pub proof fn lemma_lines_from_final_newline(done: Seq<Seq<char>>, cur: Seq<char>, rest: Seq<char>)
    requires
        (rest.len() > 0 && rest.last() != '\n' && rest.last() != '\r') || (rest.len() == 0
            && cur.len() > 0 && cur.last() != '\r'),
    ensures
        lines_from(done, cur, rest.push('\n')) == lines_from(done, cur, rest),
    decreases rest.len(),
{
    let ext = rest.push('\n');
    if rest.len() == 0 {
        assert(ext.drop_first() =~= Seq::<char>::empty());
        assert(strip_cr(cur) == cur);
        assert(lines_from(done.push(cur), Seq::empty(), Seq::empty()) == done.push(cur));
    } else {
        if rest.len() > 1 {
            assert(rest.drop_first().last() == rest.last());
        }
        assert(ext[0] == rest[0]);
        assert(ext.drop_first() =~= rest.drop_first().push('\n'));
        if rest[0] == '\n' {
            lemma_lines_from_final_newline(done.push(strip_cr(cur)), Seq::empty(), rest.drop_first());
        } else {
            lemma_lines_from_final_newline(done, cur.push(rest[0]), rest.drop_first());
        }
    }
}

/// The final line ending is optional: a text that ends with a character
/// other than `'\n'` or `'\r'` has the same lines with a `'\n'` added.
pub proof fn lemma_final_newline_optional(text: Seq<char>)
    requires
        text.len() > 0,
        text.last() != '\n',
        text.last() != '\r',
    ensures
        split_lines(text.push('\n')) == split_lines(text),
{
    lemma_lines_from_final_newline(Seq::empty(), Seq::empty(), text);
}

/// Splits a text into its lines, as `str::lines` does.
pub fn text_lines(text: &str) -> (lines: Vec<String>)
    ensures
        strings_view(lines@) == split_lines(text@),
{
    let mut lines: Vec<String> = Vec::new();
    let mut cur = String::new();
    let mut pending_cr = false;
    let ghost chars = text@;
    assert(chars.skip(0) =~= chars);
    assert(strings_view(lines@) =~= Seq::<Seq<char>>::empty());
    for c in it: text.chars()
        invariant
            it.seq() == chars,
            split_lines(chars) == lines_from(
                strings_view(lines@),
                if pending_cr { cur@.push('\r') } else { cur@ },
                chars.skip(it.index() as int),
            ),
            !pending_cr ==> (cur@.len() == 0 || cur@.last() != '\r'),
    {
        let ghost rest = chars.skip(it.index() as int);
        let ghost curv = if pending_cr {
            cur@.push('\r')
        } else {
            cur@
        };
        assert(rest[0] == c);
        assert(rest.drop_first() =~= chars.skip(it.index() + 1));
        if c == '\n' {
            assert(strip_cr(curv) =~= cur@);
        }
        if c == '\n' {
            let ghost before = strings_view(lines@);
            lines.push(cur);
            assert(strings_view(lines@) =~= before.push(cur@));
            cur = String::new();
            pending_cr = false;
        } else if c == '\r' {
            if pending_cr {
                push_char(&mut cur, '\r');
            }
            pending_cr = true;
        } else {
            if pending_cr {
                push_char(&mut cur, '\r');
            }
            push_char(&mut cur, c);
            pending_cr = false;
        }
    }
    if pending_cr {
        push_char(&mut cur, '\r');
    }
    assert(chars.skip(chars.len() as int) =~= Seq::<char>::empty());
    if cur.as_str().unicode_len() > 0 {
        let ghost before = strings_view(lines@);
        lines.push(cur);
        assert(strings_view(lines@) =~= before.push(cur@));
    }
    lines
}

} // verus!
