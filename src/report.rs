//! Extraction of working strategies from a blockcheck report.
use vstd::prelude::*;
use crate::ansi::{strip, strip_ansi};
use crate::text::{
    char_views, chars_of, contains, contains_chars, copy_range, find, find_chars, lines, list_has,
    split_lines, starts_with, starts_with_chars, strings_from, trim, trim_chars, views,
};

verus! {

pub open spec fn common_marker() -> Seq<char> {
    "* COMMON"@
}

pub open spec fn summary_marker() -> Seq<char> {
    "* SUMMARY"@
}

pub open spec fn section_marker() -> Seq<char> {
    "* "@
}

pub open spec fn tool_marker() -> Seq<char> {
    "nfqws "@
}

/// A line that reports a test in progress or a failure, not a working strategy.
pub open spec fn excluded(t: Seq<char>) -> bool {
    contains(t, "checking"@) || contains(t, ">>"@) || contains(t, "not working"@)
}

/// The strategy a trimmed report line names, if it names one: the trimmed
/// text after the first `nfqws `.
pub open spec fn candidate(t: Seq<char>) -> Option<Seq<char>> {
    match find(t, tool_marker()) {
        Some(idx) => if excluded(t) {
            None
        } else {
            Some(trim(t.subrange(idx + tool_marker().len(), t.len() as int)))
        },
        None => None,
    }
}

pub open spec fn any_contains(lines: Seq<Seq<char>>, pat: Seq<char>) -> bool {
    exists|i: int| 0 <= i < lines.len() && contains(#[trigger] lines[i], pat)
}

/// The section whose strategies count: `* COMMON` where some line holds it,
/// else `* SUMMARY`.
pub open spec fn target_header(clean: Seq<Seq<char>>) -> Seq<char> {
    if any_contains(clean, common_marker()) {
        common_marker()
    } else {
        summary_marker()
    }
}

/// Scan of the trimmed lines from `i` on: the strategies collected (after
/// `acc`) and whether the header was ever seen.
pub open spec fn scan_section(
    lines: Seq<Seq<char>>,
    header: Seq<char>,
    i: int,
    parsing: bool,
    acc: Seq<Seq<char>>,
) -> (Seq<Seq<char>>, bool)
    decreases lines.len() - i,
{
    if i < 0 || i >= lines.len() {
        (acc, parsing)
    } else {
        let t = lines[i];
        if contains(t, header) {
            scan_section(lines, header, i + 1, true, acc)
        } else if !parsing {
            scan_section(lines, header, i + 1, false, acc)
        } else if starts_with(t, section_marker()) {
            (acc, true)
        } else if t.len() == 0 {
            scan_section(lines, header, i + 1, true, acc)
        } else {
            match candidate(t) {
                Some(x) => scan_section(lines, header, i + 1, true, acc.push(x)),
                None => scan_section(lines, header, i + 1, true, acc),
            }
        }
    }
}

/// Every strategy named anywhere in the trimmed lines from `i` on, each once,
/// in order of first appearance, after `acc`.
pub open spec fn scan_all(lines: Seq<Seq<char>>, i: int, acc: Seq<Seq<char>>) -> Seq<Seq<char>>
    decreases lines.len() - i,
{
    if i < 0 || i >= lines.len() {
        acc
    } else {
        match candidate(lines[i]) {
            Some(x) => if acc.contains(x) {
                scan_all(lines, i + 1, acc)
            } else {
                scan_all(lines, i + 1, acc.push(x))
            },
            None => scan_all(lines, i + 1, acc),
        }
    }
}

/// The strategies that a report, given as its lines, lists as working.
pub open spec fn extract(raw: Seq<Seq<char>>) -> Seq<Seq<char>> {
    let clean = raw.map_values(|l: Seq<char>| strip(l));
    let trimmed = clean.map_values(|l: Seq<char>| trim(l));
    let (found, seen) = scan_section(trimmed, target_header(clean), 0, false, Seq::empty());
    if found.len() == 0 && !seen {
        scan_all(trimmed, 0, Seq::empty())
    } else {
        found
    }
}

/// The fixed texts the report parser looks for, as character vectors.
struct Markers {
    common: Vec<char>,
    summary: Vec<char>,
    section: Vec<char>,
    tool: Vec<char>,
    checking: Vec<char>,
    arrows: Vec<char>,
    failing: Vec<char>,
}

impl Markers {
    spec fn wf(&self) -> bool {
        &&& self.common@ == common_marker()
        &&& self.summary@ == summary_marker()
        &&& self.section@ == section_marker()
        &&& self.tool@ == tool_marker()
        &&& self.checking@ == "checking"@
        &&& self.arrows@ == ">>"@
        &&& self.failing@ == "not working"@
    }

    fn new() -> (r: Markers)
        ensures
            r.wf(),
    {
        Markers {
            common: chars_of("* COMMON"),
            summary: chars_of("* SUMMARY"),
            section: chars_of("* "),
            tool: chars_of("nfqws "),
            checking: chars_of("checking"),
            arrows: chars_of(">>"),
            failing: chars_of("not working"),
        }
    }

    fn candidate(&self, t: &[char]) -> (r: Option<Vec<char>>)
        requires
            self.wf(),
        ensures
            match r {
                Some(x) => candidate(t@) == Some(x@),
                None => candidate(t@) is None,
            },
    {
        match find_chars(t, self.tool.as_slice()) {
            Some(idx) => {
                if contains_chars(t, self.checking.as_slice()) || contains_chars(
                    t,
                    self.arrows.as_slice(),
                ) || contains_chars(t, self.failing.as_slice()) {
                    None
                } else {
                    proof {
                        crate::text::lemma_find_from_found(t@, self.tool@, 0);
                        assert(crate::text::occurs_at(t@, self.tool@, idx as int));
                    }
                    let n = t.len();
                    let rest = copy_range(t, idx + self.tool.len(), n);
                    Some(trim_chars(rest.as_slice()))
                }
            },
            None => None,
        }
    }
}

/// The strategies that a report lists as working, given the report's lines
/// as the tool printed them: those of the `* COMMON` section (else of the
/// `* SUMMARY` section); where no line holds that header, every strategy
/// named anywhere in the report, each once, in order of first appearance.
pub fn extract_strategies(lines: &Vec<String>) -> (r: Vec<String>)
    ensures
        views(r@) == extract(views(lines@)),
{
    let m = Markers::new();
    let ghost raw = views(lines@);
    let ghost clean_spec = raw.map_values(|l: Seq<char>| strip(l));
    let ghost trimmed_spec = clean_spec.map_values(|l: Seq<char>| trim(l));
    let mut clean: Vec<Vec<char>> = Vec::new();
    let mut trimmed: Vec<Vec<char>> = Vec::new();
    let mut i: usize = 0;
    while i < lines.len()
        invariant
            i <= lines.len(),
            raw == views(lines@),
            clean_spec == raw.map_values(|l: Seq<char>| strip(l)),
            trimmed_spec == clean_spec.map_values(|l: Seq<char>| trim(l)),
            clean@.len() == i,
            trimmed@.len() == i,
            forall|j: int| 0 <= j < i ==> #[trigger] clean@[j]@ == clean_spec[j],
            forall|j: int| 0 <= j < i ==> #[trigger] trimmed@[j]@ == trimmed_spec[j],
        decreases lines.len() - i,
    {
        let s = strip_ansi(lines[i].as_str());
        let cs = chars_of(s.as_str());
        trimmed.push(trim_chars(cs.as_slice()));
        clean.push(cs);
        i = i + 1;
    }
    assert(char_views(clean@) =~= clean_spec);
    assert(char_views(trimmed@) =~= trimmed_spec);

    let mut has_common = false;
    let mut k: usize = 0;
    while k < clean.len()
        invariant
            m.wf(),
            k <= clean@.len(),
            char_views(clean@) == clean_spec,
            has_common == exists|j: int|
                0 <= j < k && contains(#[trigger] clean_spec[j], common_marker()),
        decreases clean.len() - k,
    {
        if contains_chars(clean[k].as_slice(), m.common.as_slice()) {
            has_common = true;
        }
        assert(clean@[k as int]@ == clean_spec[k as int]);
        k = k + 1;
    }
    assert(has_common == any_contains(clean_spec, common_marker()));
    let header = if has_common {
        &m.common
    } else {
        &m.summary
    };
    let ghost target = target_header(clean_spec);
    assert(header@ == target);

    let ghost goal = scan_section(trimmed_spec, target, 0, false, Seq::empty());
    let mut found: Vec<Vec<char>> = Vec::new();
    let mut parsing = false;
    let mut i: usize = 0;
    assert(char_views(found@) =~= Seq::<Seq<char>>::empty());
    while i < trimmed.len()
        invariant
            m.wf(),
            i <= trimmed@.len(),
            char_views(trimmed@) == trimmed_spec,
            header@ == target,
            scan_section(trimmed_spec, target, i as int, parsing, char_views(found@)) == goal,
        ensures
            goal == (char_views(found@), parsing),
        decreases trimmed.len() - i,
    {
        let t = trimmed[i].as_slice();
        assert(t@ == trimmed_spec[i as int]);
        if contains_chars(t, header.as_slice()) {
            parsing = true;
        } else if parsing {
            if starts_with_chars(t, m.section.as_slice()) {
                break;
            }
            if t.len() > 0 {
                match m.candidate(t) {
                    Some(x) => {
                        let ghost before = found@;
                        found.push(x);
                        assert(char_views(found@) =~= char_views(before).push(x@));
                    },
                    None => {},
                }
            }
        }
        i = i + 1;
    }

    if found.len() == 0 && !parsing {
        let ghost all = scan_all(trimmed_spec, 0, Seq::empty());
        assert(char_views(found@) =~= Seq::<Seq<char>>::empty());
        let mut i: usize = 0;
        while i < trimmed.len()
            invariant
                m.wf(),
                i <= trimmed@.len(),
                char_views(trimmed@) == trimmed_spec,
                scan_all(trimmed_spec, i as int, char_views(found@)) == all,
            decreases trimmed.len() - i,
        {
            let t = trimmed[i].as_slice();
            assert(t@ == trimmed_spec[i as int]);
            match m.candidate(t) {
                Some(x) => {
                    if !list_has(&found, x.as_slice()) {
                        let ghost before = found@;
                        found.push(x);
                        assert(char_views(found@) =~= char_views(before).push(x@));
                    }
                },
                None => {},
            }
            i = i + 1;
        }
    }
    strings_from(&found)
}

/// The strategies that a whole report text lists as working.
pub fn extract_from_report(text: &str) -> (r: Vec<String>)
    ensures
        views(r@) == extract(lines(text@)),
{
    let ls = split_lines(text);
    extract_strategies(&ls)
}

} // verus!
