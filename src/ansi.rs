//! Removal of ANSI escape runs from tool output.
use vstd::prelude::*;
use crate::text::{chars_of, string_from};

verus! {

pub open spec fn is_esc(c: char) -> bool {
    c == '\x1b'
}

/// What is left of `s` once every run that starts at an escape character and
/// ends at the next `m` (both included) is removed; `inside` says whether such
/// a run is already open when `s` begins.
pub open spec fn strip_from(s: Seq<char>, inside: bool) -> Seq<char>
    decreases s.len(),
{
    if s.len() == 0 {
        Seq::empty()
    } else {
        let c = s[0];
        let ins = inside || is_esc(c);
        let rest = strip_from(s.drop_first(), ins && c != 'm');
        if ins {
            rest
        } else {
            seq![c] + rest
        }
    }
}

/// The ANSI-stripped form of one line.
pub open spec fn strip(s: Seq<char>) -> Seq<char> {
    strip_from(s, false)
}

pub open spec fn has_esc(s: Seq<char>) -> bool {
    exists|i: int| 0 <= i < s.len() && is_esc(s[i])
}

/// Removes every escape run from `line`.
pub fn strip_ansi(line: &str) -> (r: String)
    ensures
        r@ == strip(line@),
{
    let cs = chars_of(line);
    let mut out: Vec<char> = Vec::new();
    let mut inside = false;
    let mut i: usize = 0;
    assert(cs@.subrange(0, cs@.len() as int) =~= cs@);
    while i < cs.len()
        invariant
            i <= cs.len(),
            out@ + strip_from(cs@.subrange(i as int, cs@.len() as int), inside) == strip(cs@),
        decreases cs.len() - i,
    {
        let c = cs[i];
        let ghost rest = cs@.subrange(i as int, cs@.len() as int);
        let ghost was_inside = inside;
        let ghost before = out@;
        assert(rest.drop_first() =~= cs@.subrange(i + 1, cs@.len() as int));
        assert(rest[0] == c);
        if c == '\x1b' {
            inside = true;
        }
        if !inside {
            out.push(c);
        }
        if inside && c == 'm' {
            inside = false;
        }
        i = i + 1;
        proof {
            let ins = was_inside || is_esc(c);
            assert(inside == (ins && c != 'm'));
            if !ins {
                assert(out@ == before + seq![c]);
                assert(before + strip_from(rest, was_inside) =~= out@ + strip_from(
                    rest.drop_first(),
                    inside,
                ));
            }
        }
    }
    assert(cs@.subrange(i as int, cs@.len() as int) =~= Seq::<char>::empty());
    assert(out@ + Seq::<char>::empty() =~= out@);
    string_from(&out)
}

pub proof fn lemma_strip_from_no_esc(s: Seq<char>, inside: bool)
    ensures
        !has_esc(strip_from(s, inside)),
    decreases s.len(),
{
    if s.len() > 0 {
        let c = s[0];
        let ins = inside || is_esc(c);
        let rest = strip_from(s.drop_first(), ins && c != 'm');
        lemma_strip_from_no_esc(s.drop_first(), ins && c != 'm');
        if !ins {
            assert forall|i: int| 0 <= i < (seq![c] + rest).len() implies !is_esc(
                (seq![c] + rest)[i],
            ) by {
                if i > 0 {
                    assert((seq![c] + rest)[i] == rest[i - 1]);
                }
            }
        }
    }
}

pub proof fn lemma_strip_clean(s: Seq<char>)
    requires
        !has_esc(s),
    ensures
        strip(s) == s,
    decreases s.len(),
{
    if s.len() > 0 {
        let t = s.drop_first();
        assert(!has_esc(t)) by {
            assert forall|i: int| 0 <= i < t.len() implies !is_esc(t[i]) by {
                assert(t[i] == s[i + 1]);
            }
        }
        assert(!is_esc(s[0]));
        lemma_strip_clean(t);
        assert(seq![s[0]] + t =~= s);
    }
}

/// Stripping leaves no escape character, and stripping a second time
/// changes nothing.
pub proof fn lemma_strip_idempotent(s: Seq<char>)
    ensures
        !has_esc(strip(s)),
        strip(strip(s)) == strip(s),
{
    lemma_strip_from_no_esc(s, false);
    lemma_strip_clean(strip(s));
}

} // verus!
