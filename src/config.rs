//! Rewriting the `NFQWS_OPT` assignment of the tool's configuration file.
use vstd::prelude::*;
use crate::text::{append_chars, chars_of, copy_range, find, find_chars, string_from};

verus! {

pub open spec fn double_open() -> Seq<char> {
    "NFQWS_OPT=\""@
}

pub open spec fn single_open() -> Seq<char> {
    "NFQWS_OPT='"@
}

/// Position of the first `q` at or after `i` that no backslash escapes,
/// when a backslash is pending (`esc`) as the scan starts at `i`.
pub open spec fn closing_from(s: Seq<char>, i: int, esc: bool, q: char) -> Option<int>
    decreases s.len() - i,
{
    if i < 0 || i >= s.len() {
        None
    } else if esc {
        closing_from(s, i + 1, false, q)
    } else if s[i] == '\\' {
        closing_from(s, i + 1, true, q)
    } else if s[i] == q {
        Some(i)
    } else {
        closing_from(s, i + 1, false, q)
    }
}

/// The assignment line's text for `value`, always double-quoted.
pub open spec fn assignment(value: Seq<char>) -> Seq<char> {
    double_open() + value + seq!['"']
}

/// `doc` with the quoted value that opens with `open` (at its first
/// occurrence) and ends at the next unescaped `q` replaced by the
/// double-quoted `value`; `None` where there is no such span.
pub open spec fn replace_quoted(doc: Seq<char>, open: Seq<char>, q: char, value: Seq<char>) -> Option<
    Seq<char>,
> {
    match find(doc, open) {
        Some(st) => match closing_from(doc, st + open.len(), false, q) {
            Some(e) => Some(doc.subrange(0, st) + assignment(value) + doc.subrange(
                e + 1,
                doc.len() as int,
            )),
            None => None,
        },
        None => None,
    }
}

/// The configuration text with its `NFQWS_OPT` value set to `value`: the
/// double-quoted assignment is rewritten if there is one, else the
/// single-quoted one, else a new assignment line is appended.
pub open spec fn patch(doc: Seq<char>, value: Seq<char>) -> Seq<char> {
    match replace_quoted(doc, double_open(), '"', value) {
        Some(d) => d,
        None => match replace_quoted(doc, single_open(), '\'', value) {
            Some(d) => d,
            None => doc + seq!['\n'] + assignment(value) + seq!['\n'],
        },
    }
}

fn closing_exec(s: &[char], from: usize, q: char) -> (r: Option<usize>)
    requires
        from <= s.len(),
    ensures
        match r {
            Some(e) => closing_from(s@, from as int, false, q) == Some(e as int),
            None => closing_from(s@, from as int, false, q) is None,
        },
{
    let mut i = from;
    let mut esc = false;
    while i < s.len()
        invariant
            from <= i <= s.len(),
            closing_from(s@, i as int, esc, q) == closing_from(s@, from as int, false, q),
        decreases s.len() - i,
    {
        if esc {
            esc = false;
        } else if s[i] == '\\' {
            esc = true;
        } else if s[i] == q {
            return Some(i);
        }
        i = i + 1;
    }
    None
}

fn replace_quoted_exec(doc: &[char], open: &[char], q: char, value: &[char]) -> (r: Option<
    Vec<char>,
>)
    ensures
        match r {
            Some(d) => replace_quoted(doc@, open@, q, value@) == Some(d@),
            None => replace_quoted(doc@, open@, q, value@) is None,
        },
{
    match find_chars(doc, open) {
        Some(st) => {
            proof {
                crate::text::lemma_find_from_found(doc@, open@, 0);
            }
            let n = doc.len();
            match closing_exec(doc, st + open.len(), q) {
                Some(e) => {
                    proof {
                        lemma_closing_in_range(doc@, st + open@.len(), false, q);
                    }
                    let mut out = copy_range(doc, 0, st);
                    let dq = chars_of("NFQWS_OPT=\"");
                    append_chars(&mut out, dq.as_slice());
                    append_chars(&mut out, value);
                    out.push('"');
                    let tail = copy_range(doc, e + 1, n);
                    append_chars(&mut out, tail.as_slice());
                    Some(out)
                },
                None => None,
            }
        },
        None => None,
    }
}

proof fn lemma_closing_in_range(s: Seq<char>, i: int, esc: bool, q: char)
    requires
        closing_from(s, i, esc, q) is Some,
    ensures
        i <= closing_from(s, i, esc, q)->0 < s.len(),
    decreases s.len() - i,
{
    if i < 0 || i >= s.len() {
    } else if esc {
        lemma_closing_in_range(s, i + 1, false, q);
    } else if s[i] == '\\' {
        lemma_closing_in_range(s, i + 1, true, q);
    } else if s[i] == q {
    } else {
        lemma_closing_in_range(s, i + 1, false, q);
    }
}

/// Sets the `NFQWS_OPT` value of a configuration text to `value`, leaving
/// every other character as it was.
pub fn patch_option_variable(document: &str, value: &str) -> (r: String)
    ensures
        r@ == patch(document@, value@),
{
    let doc = chars_of(document);
    let v = chars_of(value);
    let dq = chars_of("NFQWS_OPT=\"");
    let sq = chars_of("NFQWS_OPT='");
    if let Some(d) = replace_quoted_exec(doc.as_slice(), dq.as_slice(), '"', v.as_slice()) {
        return string_from(d.as_slice());
    }
    if let Some(d) = replace_quoted_exec(doc.as_slice(), sq.as_slice(), '\'', v.as_slice()) {
        return string_from(d.as_slice());
    }
    let mut out = doc;
    out.push('\n');
    append_chars(&mut out, dq.as_slice());
    append_chars(&mut out, v.as_slice());
    out.push('"');
    out.push('\n');
    string_from(out.as_slice())
}

/// The configuration text with the selected strategies, joined by spaces,
/// as its `NFQWS_OPT` value; `None` where none is selected.
pub fn apply_strategies(document: &str, selected: &Vec<String>) -> (r: Option<String>)
    ensures
        selected@.len() == 0 ==> r is None,
        selected@.len() > 0 ==> (r matches Some(d) && d@ == patch(
            document@,
            crate::install::join(crate::text::views(selected@)),
        )),
{
    if selected.len() == 0 {
        return None;
    }
    let value = crate::install::join_words(selected);
    Some(patch_option_variable(document, value.as_str()))
}

} // verus!
