//! The strategy store format: a flat array of double-quoted strings, one per
//! line, with `"` escaped as `\"`.
use vstd::prelude::*;
use crate::pipeline::PipelineError;
use crate::text::{
    append_chars, char_views, chars_of, has_char, starts_with, starts_with_chars, string_from,
    strings_from, trim, trim_chars, trim_end, trim_start, views,
};

verus! {

/// `s` with each `"` written as `\"`.
pub open spec fn escape(s: Seq<char>) -> Seq<char>
    decreases s.len(),
{
    if s.len() == 0 {
        Seq::empty()
    } else {
        let head = if s[0] == '"' {
            seq!['\\', '"']
        } else {
            seq![s[0]]
        };
        head + escape(s.drop_first())
    }
}

/// The line that holds one stored strategy; `last` tells the final one,
/// which takes no comma.
pub open spec fn item_line(s: Seq<char>, last: bool) -> Seq<char> {
    seq![' ', ' ', '"'] + escape(s) + (if last {
        seq!['"', '\n']
    } else {
        seq!['"', ',', '\n']
    })
}

pub open spec fn items_from(ss: Seq<Seq<char>>, i: int) -> Seq<char>
    decreases ss.len() - i,
{
    if i < 0 || i >= ss.len() {
        Seq::empty()
    } else {
        item_line(ss[i], i == ss.len() - 1) + items_from(ss, i + 1)
    }
}

/// The store text for the strategies `ss`.
pub open spec fn encode(ss: Seq<Seq<char>>) -> Seq<char> {
    seq!['[', '\n'] + items_from(ss, 0) + seq![']', '\n']
}

/// The strings of an array body from `s` on: `in_str` says whether a quoted
/// run is open, `esc` whether the previous character was a backslash inside
/// it, `cur` what the open run holds so far, `acc` the strings already closed.
pub open spec fn decode_from(
    s: Seq<char>,
    in_str: bool,
    esc: bool,
    cur: Seq<char>,
    acc: Seq<Seq<char>>,
) -> Seq<Seq<char>>
    decreases s.len(),
{
    if s.len() == 0 {
        acc
    } else {
        let c = s[0];
        let rest = s.drop_first();
        if in_str {
            if esc {
                decode_from(rest, true, false, cur.push(c), acc)
            } else if c == '\\' {
                decode_from(rest, true, true, cur, acc)
            } else if c == '"' {
                decode_from(rest, false, false, Seq::empty(), acc.push(cur))
            } else {
                decode_from(rest, true, false, cur.push(c), acc)
            }
        } else if c == '"' {
            decode_from(rest, true, false, cur, acc)
        } else {
            decode_from(rest, false, esc, cur, acc)
        }
    }
}

/// Whether the trimmed text is bracketed as an array.
pub open spec fn is_bracketed(t: Seq<char>) -> bool {
    t.len() > 0 && t[0] == '[' && t.last() == ']'
}

/// The strings of a store text whose trimmed form is bracketed.
pub open spec fn decode(content: Seq<char>) -> Seq<Seq<char>> {
    let t = trim(content);
    decode_from(t.subrange(1, t.len() - 1), false, false, Seq::empty(), Seq::empty())
}

/// A strategy: after trimming, it begins with `--`.
pub open spec fn is_strategy(s: Seq<char>) -> bool {
    starts_with(trim(s), seq!['-', '-'])
}

/// Why a store text was refused.
#[derive(Debug, PartialEq, Eq)]
pub enum StoreProblem {
    /// The trimmed text does not start with `[` and end with `]`.
    NotAnArray,
    /// The array holds no string.
    NoStrategies,
    /// The first element that is no strategy.
    NotAStrategy(String),
}

/// Index of the first element of `ss` from `i` on that is no strategy.
pub open spec fn first_invalid(ss: Seq<Seq<char>>, i: int) -> Option<int>
    decreases ss.len() - i,
{
    if i < 0 || i >= ss.len() {
        None
    } else if !is_strategy(ss[i]) {
        Some(i)
    } else {
        first_invalid(ss, i + 1)
    }
}

/// The outcome of importing a store text: its strategies, or the first
/// reason to refuse it.
pub open spec fn import_spec(content: Seq<char>) -> Result<Seq<Seq<char>>, StoreProblemSpec> {
    if !is_bracketed(trim(content)) {
        Err(StoreProblemSpec::NotAnArray)
    } else if decode(content).len() == 0 {
        Err(StoreProblemSpec::NoStrategies)
    } else {
        match first_invalid(decode(content), 0) {
            Some(i) => Err(StoreProblemSpec::NotAStrategy(decode(content)[i])),
            None => Ok(decode(content)),
        }
    }
}

/// `StoreProblem` over character sequences.
pub enum StoreProblemSpec {
    NotAnArray,
    NoStrategies,
    NotAStrategy(Seq<char>),
}

impl StoreProblem {
    pub open spec fn view(&self) -> StoreProblemSpec {
        match self {
            StoreProblem::NotAnArray => StoreProblemSpec::NotAnArray,
            StoreProblem::NoStrategies => StoreProblemSpec::NoStrategies,
            StoreProblem::NotAStrategy(s) => StoreProblemSpec::NotAStrategy(s@),
        }
    }
}

fn escape_into(out: &mut Vec<char>, s: &[char])
    ensures
        final(out)@ == old(out)@ + escape(s@),
{
    let mut i: usize = 0;
    assert(s@.subrange(0, s@.len() as int) =~= s@);
    while i < s.len()
        invariant
            i <= s.len(),
            out@ + escape(s@.subrange(i as int, s@.len() as int)) == old(out)@ + escape(s@),
        decreases s.len() - i,
    {
        let ghost sub = s@.subrange(i as int, s@.len() as int);
        let ghost before = out@;
        assert(sub.drop_first() =~= s@.subrange(i + 1, s@.len() as int));
        assert(sub[0] == s@[i as int]);
        if s[i] == '"' {
            out.push('\\');
        }
        out.push(s[i]);
        i = i + 1;
        assert(out@ + escape(sub.drop_first()) =~= before + escape(sub));
    }
    assert(out@ + Seq::<char>::empty() =~= out@);
}

/// The store text for `strategies`: `[`, then one line per strategy,
/// double-quoted with `"` escaped and comma-separated, then `]`.
pub fn encode_strategies(strategies: &Vec<String>) -> (r: String)
    ensures
        r@ == encode(views(strategies@)),
{
    let ghost ss = views(strategies@);
    let mut out: Vec<char> = Vec::new();
    out.push('[');
    out.push('\n');
    let n = strategies.len();
    let mut i: usize = 0;
    while i < n
        invariant
            n == strategies@.len(),
            ss == views(strategies@),
            i <= n,
            out@ + items_from(ss, i as int) + seq![']', '\n'] == encode(ss),
        decreases n - i,
    {
        let ghost before = out@;
        let cs = chars_of(strategies[i].as_str());
        assert(cs@ == ss[i as int]);
        out.push(' ');
        out.push(' ');
        out.push('"');
        escape_into(&mut out, cs.as_slice());
        out.push('"');
        if i + 1 < n {
            out.push(',');
        }
        out.push('\n');
        assert(out@ =~= before + item_line(ss[i as int], i == ss.len() - 1));
        assert(items_from(ss, i as int) == item_line(ss[i as int], i == ss.len() - 1)
            + items_from(ss, i + 1));
        i = i + 1;
        assert(out@ + items_from(ss, i as int) + seq![']', '\n'] =~= before + items_from(
            ss,
            i - 1,
        ) + seq![']', '\n']);
    }
    out.push(']');
    out.push('\n');
    assert(out@ =~= encode(ss));
    string_from(out.as_slice())
}

/// The strings that the bracketed, trimmed store text `t` holds.
fn decode_chars(t: &[char]) -> (r: Vec<Vec<char>>)
    requires
        is_bracketed(t@),
    ensures
        char_views(r@) == decode_from(
            t@.subrange(1, t@.len() - 1),
            false,
            false,
            Seq::empty(),
            Seq::empty(),
        ),
{
    let hi = t.len() - 1;
    let ghost body = t@.subrange(1, hi as int);
    let ghost goal = decode_from(body, false, false, Seq::empty(), Seq::empty());
    let mut out: Vec<Vec<char>> = Vec::new();
    let mut cur: Vec<char> = Vec::new();
    let mut in_str = false;
    let mut esc = false;
    let mut i: usize = 1;
    assert(t@.subrange(1, hi as int) =~= body);
    assert(char_views(out@) =~= Seq::<Seq<char>>::empty());
    while i < hi
        invariant
            1 <= i <= hi,
            hi == t@.len() - 1,
            body == t@.subrange(1, hi as int),
            !in_str ==> !esc,
            decode_from(t@.subrange(i as int, hi as int), in_str, esc, cur@, char_views(out@))
                == goal,
        decreases hi - i,
    {
        let c = t[i];
        let ghost sub = t@.subrange(i as int, hi as int);
        assert(sub.drop_first() =~= t@.subrange(i + 1, hi as int));
        assert(sub[0] == c);
        let ghost oi = in_str;
        let ghost oe = esc;
        let ghost oc = cur@;
        let ghost oa = char_views(out@);
        assert(sub.len() > 0);
        if in_str {
            if esc {
                cur.push(c);
                esc = false;
            } else if c == '\\' {
                esc = true;
            } else if c == '"' {
                in_str = false;
                let ghost before = out@;
                out.push(cur);
                assert(char_views(out@) =~= char_views(before).push(cur@));
                cur = Vec::new();
                assert(cur@ =~= Seq::<char>::empty());
            } else {
                cur.push(c);
            }
        } else if c == '"' {
            in_str = true;
        }
        assert(decode_from(sub, oi, oe, oc, oa) == decode_from(
            sub.drop_first(),
            in_str,
            esc,
            cur@,
            char_views(out@),
        ));
        i = i + 1;
    }
    out
}

/// The strings that a store text holds, where its trimmed form is bracketed.
pub fn decode_store(content: &str) -> (r: Option<Vec<String>>)
    ensures
        r is Some <==> is_bracketed(trim(content@)),
        r matches Some(v) ==> views(v@) == decode(content@),
{
    let cs = chars_of(content);
    let t = trim_chars(cs.as_slice());
    if t.len() == 0 || t[0] != '[' || t[t.len() - 1] != ']' {
        return None;
    }
    let items = decode_chars(t.as_slice());
    Some(strings_from(&items))
}

/// Checks a store text before it is taken in: it must be a bracketed array
/// of at least one string, each of which is a strategy. Gives the strategies,
/// or the first reason to refuse the whole text.
pub fn check_store(content: &str) -> (r: Result<Vec<String>, StoreProblem>)
    ensures
        match r {
            Ok(v) => import_spec(content@) == Ok::<_, StoreProblemSpec>(views(v@)),
            Err(e) => import_spec(content@) == Err::<Seq<Seq<char>>, _>(e.view()),
        },
{
    let items = match decode_store(content) {
        Some(v) => v,
        None => {
            return Err(StoreProblem::NotAnArray);
        },
    };
    if items.len() == 0 {
        return Err(StoreProblem::NoStrategies);
    }
    let ghost ss = views(items@);
    let dashes = chars_of("--");
    assert(dashes@ =~= seq!['-', '-']) by {
        reveal_strlit("--");
    }
    let mut i: usize = 0;
    while i < items.len()
        invariant
            i <= items@.len(),
            ss == views(items@),
            ss == decode(content@),
            ss.len() > 0,
            is_bracketed(trim(content@)),
            dashes@ == seq!['-', '-'],
            first_invalid(ss, i as int) == first_invalid(ss, 0),
        decreases items.len() - i,
    {
        let cs = chars_of(items[i].as_str());
        let t = trim_chars(cs.as_slice());
        assert(cs@ == ss[i as int]);
        if !starts_with_chars(t.as_slice(), dashes.as_slice()) {
            let bad = string_from(cs.as_slice());
            return Err(StoreProblem::NotAStrategy(bad));
        }
        i = i + 1;
    }
    Ok(items)
}

/// Imports a store text: its strategies, or a parse failure that says why
/// the whole text was refused.
pub fn import_strategies(content: &str) -> (r: Result<Vec<String>, PipelineError>)
    ensures
        match r {
            Ok(v) => import_spec(content@) == Ok::<_, StoreProblemSpec>(views(v@)),
            Err(PipelineError::ParseFailure(p)) => import_spec(content@) == Err::<
                Seq<Seq<char>>,
                _,
            >(p.view()),
            Err(_) => false,
        },
{
    match check_store(content) {
        Ok(v) => Ok(v),
        Err(p) => Err(PipelineError::ParseFailure(p)),
    }
}

proof fn lemma_decode_escaped(x: Seq<char>, rest: Seq<char>, cur: Seq<char>, acc: Seq<Seq<char>>)
    requires
        !has_char(x, '\\'),
    ensures
        decode_from(escape(x) + rest, true, false, cur, acc) == decode_from(
            rest,
            true,
            false,
            cur + x,
            acc,
        ),
    decreases x.len(),
{
    if x.len() == 0 {
        assert(escape(x) + rest =~= rest);
        assert(cur + x =~= cur);
    } else {
        let c = x[0];
        let x2 = x.drop_first();
        assert(!has_char(x2, '\\')) by {
            if has_char(x2, '\\') {
                let k = choose|k: int| 0 <= k < x2.len() && x2[k] == '\\';
                assert(x[k + 1] == '\\');
            }
        }
        assert(c != '\\') by {
            assert(x[0] == c);
        }
        lemma_decode_escaped(x2, rest, cur.push(c), acc);
        assert(cur.push(c) + x2 =~= cur + x);
        let s = escape(x) + rest;
        if c == '"' {
            assert(s =~= seq!['\\', '"'] + (escape(x2) + rest));
            assert(s.drop_first() =~= seq!['"'] + (escape(x2) + rest));
            assert(s.drop_first().drop_first() =~= escape(x2) + rest);
            assert(s[0] == '\\');
            assert(s.drop_first()[0] == '"');
            assert(decode_from(s, true, false, cur, acc) == decode_from(
                s.drop_first(),
                true,
                true,
                cur,
                acc,
            ));
            assert(decode_from(s.drop_first(), true, true, cur, acc) == decode_from(
                s.drop_first().drop_first(),
                true,
                false,
                cur.push(c),
                acc,
            ));
        } else {
            assert(s =~= seq![c] + (escape(x2) + rest));
            assert(s.drop_first() =~= escape(x2) + rest);
            assert(s[0] == c);
            assert(decode_from(s, true, false, cur, acc) == decode_from(
                s.drop_first(),
                true,
                false,
                cur.push(c),
                acc,
            ));
        }
    }
}

proof fn lemma_decode_item(x: Seq<char>, last: bool, rest: Seq<char>, acc: Seq<Seq<char>>)
    requires
        !has_char(x, '\\'),
    ensures
        decode_from(item_line(x, last) + rest, false, false, Seq::empty(), acc) == decode_from(
            rest,
            false,
            false,
            Seq::empty(),
            acc.push(x),
        ),
{
    let e: Seq<Seq<char>> = acc;
    let end = if last {
        seq!['"', '\n']
    } else {
        seq!['"', ',', '\n']
    };
    let s = item_line(x, last) + rest;
    let inner = escape(x) + (end + rest);
    assert(s =~= seq![' ', ' ', '"'] + inner);
    assert(s.drop_first() =~= seq![' ', '"'] + inner);
    assert(s.drop_first().drop_first() =~= seq!['"'] + inner);
    assert(s.drop_first().drop_first().drop_first() =~= inner);
    let z: Seq<char> = Seq::empty();
    assert(decode_from(s, false, false, z, e) == decode_from(s.drop_first(), false, false, z, e));
    assert(decode_from(s.drop_first(), false, false, z, e) == decode_from(
        s.drop_first().drop_first(),
        false,
        false,
        z,
        e,
    ));
    assert(decode_from(s.drop_first().drop_first(), false, false, z, e) == decode_from(
        inner,
        true,
        false,
        z,
        e,
    ));
    lemma_decode_escaped(x, end + rest, z, e);
    assert(z + x =~= x);
    let after = end + rest;
    assert(after[0] == '"');
    assert(decode_from(after, true, false, x, e) == decode_from(
        after.drop_first(),
        false,
        false,
        z,
        e.push(x),
    ));
    let a1 = after.drop_first();
    assert(a1 =~= end.drop_first() + rest);
    if last {
        assert(a1[0] == '\n');
        assert(a1.drop_first() =~= rest);
        assert(decode_from(a1, false, false, z, e.push(x)) == decode_from(
            rest,
            false,
            false,
            z,
            e.push(x),
        ));
    } else {
        assert(a1[0] == ',');
        assert(a1.drop_first() =~= seq!['\n'] + rest);
        assert(a1.drop_first()[0] == '\n');
        assert(a1.drop_first().drop_first() =~= rest);
        assert(decode_from(a1, false, false, z, e.push(x)) == decode_from(
            a1.drop_first(),
            false,
            false,
            z,
            e.push(x),
        ));
        assert(decode_from(a1.drop_first(), false, false, z, e.push(x)) == decode_from(
            rest,
            false,
            false,
            z,
            e.push(x),
        ));
    }
}

proof fn lemma_decode_items(ss: Seq<Seq<char>>, i: int, rest: Seq<char>, acc: Seq<Seq<char>>)
    requires
        0 <= i <= ss.len(),
        forall|k: int| 0 <= k < ss.len() ==> !has_char(#[trigger] ss[k], '\\'),
    ensures
        decode_from(items_from(ss, i) + rest, false, false, Seq::empty(), acc) == decode_from(
            rest,
            false,
            false,
            Seq::empty(),
            acc + ss.subrange(i, ss.len() as int),
        ),
    decreases ss.len() - i,
{
    if i == ss.len() {
        assert(items_from(ss, i) + rest =~= rest);
        assert(acc + ss.subrange(i, ss.len() as int) =~= acc);
    } else {
        let line = item_line(ss[i], i == ss.len() - 1);
        assert(items_from(ss, i) + rest =~= line + (items_from(ss, i + 1) + rest));
        lemma_decode_item(ss[i], i == ss.len() - 1, items_from(ss, i + 1) + rest, acc);
        lemma_decode_items(ss, i + 1, rest, acc.push(ss[i]));
        assert(acc.push(ss[i]) + ss.subrange(i + 1, ss.len() as int) =~= acc + ss.subrange(
            i,
            ss.len() as int,
        ));
    }
}

/// Writing strategies to the store and reading them back gives the same
/// list, provided no strategy holds a backslash (the format keeps only `"`
/// through its escapes).
pub proof fn lemma_store_round_trip(ss: Seq<Seq<char>>)
    requires
        forall|k: int| 0 <= k < ss.len() ==> !has_char(#[trigger] ss[k], '\\'),
    ensures
        is_bracketed(trim(encode(ss))),
        decode(encode(ss)) == ss,
{
    let items = items_from(ss, 0);
    let enc = encode(ss);
    let core = seq!['[', '\n'] + items + seq![']'];
    assert(enc =~= core.push('\n'));
    assert(trim_start(enc) == enc);
    assert(enc.drop_last() =~= core);
    assert(trim_end(core) == core);
    assert(trim_end(enc) == core);
    assert(trim(enc) == core);
    let body = core.subrange(1, core.len() - 1);
    assert(body =~= seq!['\n'] + items);
    assert(body.drop_first() =~= items + Seq::<char>::empty());
    lemma_decode_items(ss, 0, Seq::empty(), Seq::empty());
    assert(Seq::<Seq<char>>::empty() + ss.subrange(0, ss.len() as int) =~= ss);
}

} // verus!