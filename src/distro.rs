//! Which package manager a distribution uses, and what each dependency is
//! called there.
use vstd::prelude::*;
use crate::text::{
    chars_equal, chars_of, lines, occurs_at_exec, split_lines, starts_with, starts_with_chars,
    string_from, trim, trim_chars,
};

verus! {

/// Package-manager families.
#[derive(Clone, Copy, Debug, PartialEq, Eq)]
pub enum Family {
    Debian,
    Arch,
    Fedora,
    Suse,
    Alpine,
    Void,
    Gentoo,
    Other,
}

pub open spec fn family_spec(d: Seq<char>) -> Family {
    if d == "ubuntu"@ || d == "debian"@ || d == "linuxmint"@ || d == "pop"@ || d == "kali"@ {
        Family::Debian
    } else if d == "arch"@ || d == "manjaro"@ || d == "endeavouros"@ || d == "cachyos"@ {
        Family::Arch
    } else if d == "fedora"@ {
        Family::Fedora
    } else if d == "opensuse"@ || d == "opensuse-tumbleweed"@ || d == "opensuse-leap"@ || d
        == "suse"@ {
        Family::Suse
    } else if d == "alpine"@ {
        Family::Alpine
    } else if d == "void"@ {
        Family::Void
    } else if d == "gentoo"@ {
        Family::Gentoo
    } else {
        Family::Other
    }
}

fn same(d: &[char], lit: &str) -> (r: bool)
    ensures
        r == (d@ == lit@),
{
    let l = chars_of(lit);
    chars_equal(d, l.as_slice())
}

/// The package-manager family of a distribution identifier.
pub fn family(distro: &str) -> (r: Family)
    ensures
        r == family_spec(distro@),
{
    let d = chars_of(distro);
    let d = d.as_slice();
    if same(d, "ubuntu") || same(d, "debian") || same(d, "linuxmint") || same(d, "pop") || same(
        d,
        "kali",
    ) {
        Family::Debian
    } else if same(d, "arch") || same(d, "manjaro") || same(d, "endeavouros") || same(
        d,
        "cachyos",
    ) {
        Family::Arch
    } else if same(d, "fedora") {
        Family::Fedora
    } else if same(d, "opensuse") || same(d, "opensuse-tumbleweed") || same(d, "opensuse-leap")
        || same(d, "suse") {
        Family::Suse
    } else if same(d, "alpine") {
        Family::Alpine
    } else if same(d, "void") {
        Family::Void
    } else if same(d, "gentoo") {
        Family::Gentoo
    } else {
        Family::Other
    }
}

/// The package (or space-separated packages) that provide `dep` in `f`.
pub open spec fn package_spec(f: Family, dep: Seq<char>) -> Seq<char> {
    if dep == "gcc"@ {
        match f {
            Family::Debian => "build-essential"@,
            Family::Alpine => "build-base"@,
            _ => "gcc"@,
        }
    } else if dep == "zlib"@ {
        match f {
            Family::Debian => "zlib1g-dev"@,
            Family::Fedora => "zlib-devel"@,
            Family::Alpine => "zlib-dev"@,
            Family::Arch => "zlib"@,
            _ => "zlib-devel"@,
        }
    } else if dep == "libnetfilter_queue"@ {
        match f {
            Family::Debian => "libnetfilter-queue-dev libnfnetlink-dev"@,
            Family::Fedora => "libnetfilter_queue-devel libnfnetlink-devel"@,
            Family::Alpine => "libnetfilter_queue-dev libnfnetlink-dev"@,
            Family::Arch => "libnetfilter_queue libnfnetlink"@,
            _ => "libnetfilter_queue-devel"@,
        }
    } else if dep == "libmnl"@ {
        match f {
            Family::Debian => "libmnl-dev"@,
            Family::Fedora => "libmnl-devel"@,
            Family::Alpine => "libmnl-dev"@,
            Family::Arch => "libmnl"@,
            _ => "libmnl-devel"@,
        }
    } else if dep == "libcap"@ {
        match f {
            Family::Debian => "libcap-dev"@,
            Family::Fedora => "libcap-devel"@,
            Family::Alpine => "libcap-dev"@,
            Family::Arch => "libcap"@,
            _ => "libcap-devel"@,
        }
    } else if dep == "dig"@ {
        match f {
            Family::Void | Family::Fedora => "bind-utils"@,
            Family::Alpine => "bind-tools"@,
            Family::Arch => "bind"@,
            _ => "dnsutils"@,
        }
    } else {
        dep
    }
}

/// The package name of `dependency` on `distro`.
pub fn package_name(distro: &str, dependency: &str) -> (r: String)
    ensures
        r@ == package_spec(family_spec(distro@), dependency@),
{
    let f = family(distro);
    let d = chars_of(dependency);
    let d = d.as_slice();
    let name: &str = if same(d, "gcc") {
        match f {
            Family::Debian => "build-essential",
            Family::Alpine => "build-base",
            _ => "gcc",
        }
    } else if same(d, "zlib") {
        match f {
            Family::Debian => "zlib1g-dev",
            Family::Fedora => "zlib-devel",
            Family::Alpine => "zlib-dev",
            Family::Arch => "zlib",
            _ => "zlib-devel",
        }
    } else if same(d, "libnetfilter_queue") {
        match f {
            Family::Debian => "libnetfilter-queue-dev libnfnetlink-dev",
            Family::Fedora => "libnetfilter_queue-devel libnfnetlink-devel",
            Family::Alpine => "libnetfilter_queue-dev libnfnetlink-dev",
            Family::Arch => "libnetfilter_queue libnfnetlink",
            _ => "libnetfilter_queue-devel",
        }
    } else if same(d, "libmnl") {
        match f {
            Family::Debian => "libmnl-dev",
            Family::Fedora => "libmnl-devel",
            Family::Alpine => "libmnl-dev",
            Family::Arch => "libmnl",
            _ => "libmnl-devel",
        }
    } else if same(d, "libcap") {
        match f {
            Family::Debian => "libcap-dev",
            Family::Fedora => "libcap-devel",
            Family::Alpine => "libcap-dev",
            Family::Arch => "libcap",
            _ => "libcap-devel",
        }
    } else if same(d, "dig") {
        match f {
            Family::Void | Family::Fedora => "bind-utils",
            Family::Alpine => "bind-tools",
            Family::Arch => "bind",
            _ => "dnsutils",
        }
    } else {
        dependency
    };
    name.to_owned()
}

/// The command that installs `package` with the package manager of `f`;
/// empty where the family has no known package manager.
pub open spec fn install_spec(f: Family, package: Seq<char>) -> Seq<Seq<char>> {
    match f {
        Family::Arch => seq!["pacman"@, "-S"@, "--noconfirm"@, package],
        Family::Fedora => seq!["dnf"@, "install"@, "-y"@, package],
        Family::Suse => seq!["zypper"@, "--non-interactive"@, "in"@, package],
        Family::Alpine => seq!["apk"@, "add"@, package],
        Family::Void => seq!["xbps-install"@, "-S"@, "-y"@, package],
        Family::Gentoo => seq!["emerge"@, package],
        Family::Debian => seq!["apt-get"@, "install"@, "-y"@, package],
        Family::Other => Seq::empty(),
    }
}

/// The command line, as its words, that installs `dependency` on `distro`;
/// empty where the distribution is not supported, which means the
/// dependency cannot be installed automatically.
pub fn package_install_command(distro: &str, dependency: &str) -> (r: Vec<String>)
    ensures
        crate::text::views(r@) == install_spec(
            family_spec(distro@),
            package_spec(family_spec(distro@), dependency@),
        ),
{
    let p = package_name(distro, dependency);
    let words: Vec<&str> = match family(distro) {
        Family::Arch => vec!["pacman", "-S", "--noconfirm"],
        Family::Fedora => vec!["dnf", "install", "-y"],
        Family::Suse => vec!["zypper", "--non-interactive", "in"],
        Family::Alpine => vec!["apk", "add"],
        Family::Void => vec!["xbps-install", "-S", "-y"],
        Family::Gentoo => vec!["emerge"],
        Family::Debian => vec!["apt-get", "install", "-y"],
        Family::Other => {
            let r: Vec<String> = Vec::new();
            assert(crate::text::views(r@) =~= Seq::<Seq<char>>::empty());
            return r;
        },
    };
    let mut out: Vec<String> = Vec::new();
    let mut i: usize = 0;
    while i < words.len()
        invariant
            i <= words@.len(),
            out@.len() == i,
            forall|j: int| 0 <= j < i ==> #[trigger] out@[j]@ == words@[j]@,
        decreases words.len() - i,
    {
        out.push(words[i].to_owned());
        i = i + 1;
    }
    out.push(p);
    assert(crate::text::views(out@) =~= install_spec(
        family_spec(distro@),
        package_spec(family_spec(distro@), dependency@),
    ));
    out
}

/// The command that refreshes the package index of `f`, where it has one.
pub open spec fn refresh_spec(f: Family) -> Option<Seq<char>> {
    match f {
        Family::Debian => Some("apt-get update"@),
        Family::Arch => Some("pacman -Sy"@),
        Family::Fedora => Some("dnf makecache"@),
        Family::Suse => Some("zypper refresh"@),
        Family::Alpine => Some("apk update"@),
        Family::Void => Some("xbps-install -S"@),
        Family::Gentoo => Some("emerge --sync"@),
        Family::Other => None,
    }
}

/// The shell command that refreshes the package index on `distro`.
pub fn refresh_command(distro: &str) -> (r: Option<String>)
    ensures
        match r {
            Some(c) => refresh_spec(family_spec(distro@)) == Some(c@),
            None => refresh_spec(family_spec(distro@)) is None,
        },
{
    let c: &str = match family(distro) {
        Family::Debian => "apt-get update",
        Family::Arch => "pacman -Sy",
        Family::Fedora => "dnf makecache",
        Family::Suse => "zypper refresh",
        Family::Alpine => "apk update",
        Family::Void => "xbps-install -S",
        Family::Gentoo => "emerge --sync",
        Family::Other => {
            return None;
        },
    };
    Some(c.to_owned())
}

/// What `str::to_lowercase` makes of a character sequence.
pub uninterp spec fn lower_of(s: Seq<char>) -> Seq<char>;

/// Relies on `str::to_lowercase`: the lower-case form depends on the
/// characters alone.
#[verifier::external_body]
fn lowercase(s: &str) -> (r: String)
    ensures
        r@ == lower_of(s@),
{
    s.to_lowercase()
}

/// `s` with every non-overlapping occurrence of `pat` taken out, scanning
/// from the left as `str::replace` does.
pub open spec fn remove_all(s: Seq<char>, pat: Seq<char>) -> Seq<char>
    decreases s.len(),
{
    if s.len() == 0 {
        Seq::empty()
    } else if pat.len() > 0 && starts_with(s, pat) {
        remove_all(s.subrange(pat.len() as int, s.len() as int), pat)
    } else {
        seq![s[0]] + remove_all(s.drop_first(), pat)
    }
}

/// `s` without any `c`.
pub open spec fn remove_char(s: Seq<char>, c: char) -> Seq<char>
    decreases s.len(),
{
    if s.len() == 0 {
        Seq::empty()
    } else if s[0] == c {
        remove_char(s.drop_first(), c)
    } else {
        seq![s[0]] + remove_char(s.drop_first(), c)
    }
}

pub open spec fn id_key() -> Seq<char> {
    "ID="@
}

/// The first of `ls` from `i` on that begins with `ID=`.
pub open spec fn first_id_line(ls: Seq<Seq<char>>, i: int) -> Option<Seq<char>>
    decreases ls.len() - i,
{
    if i < 0 || i >= ls.len() {
        None
    } else if starts_with(ls[i], id_key()) {
        Some(ls[i])
    } else {
        first_id_line(ls, i + 1)
    }
}

/// The identifier an `ID=` line gives, before it is lower-cased.
pub open spec fn raw_id(line: Seq<char>) -> Seq<char> {
    trim(remove_char(remove_all(line, id_key()), '"'))
}

/// The distribution identifier that os-release text gives.
pub open spec fn distro_id_spec(os_release: Seq<char>) -> Seq<char> {
    match first_id_line(lines(os_release), 0) {
        Some(l) => lower_of(raw_id(l)),
        None => "unknown"@,
    }
}

fn remove_all_exec(s: &[char], pat: &[char]) -> (r: Vec<char>)
    requires
        pat.len() > 0,
    ensures
        r@ == remove_all(s@, pat@),
{
    let mut out: Vec<char> = Vec::new();
    let mut i: usize = 0;
    assert(s@.subrange(0, s@.len() as int) =~= s@);
    while i < s.len()
        invariant
            i <= s.len(),
            pat.len() > 0,
            out@ + remove_all(s@.subrange(i as int, s@.len() as int), pat@) == remove_all(
                s@,
                pat@,
            ),
        decreases s.len() - i,
    {
        let ghost sub = s@.subrange(i as int, s@.len() as int);
        let ghost before = out@;
        let hit = occurs_at_exec(s, pat, i);
        assert(hit == starts_with(sub, pat@)) by {
            if i + pat@.len() <= s@.len() {
                assert(sub.subrange(0, pat@.len() as int) =~= s@.subrange(
                    i as int,
                    i + pat@.len(),
                ));
            }
        }
        if hit {
            assert(sub.subrange(pat@.len() as int, sub.len() as int) =~= s@.subrange(
                i + pat@.len(),
                s@.len() as int,
            ));
            i = i + pat.len();
        } else {
            out.push(s[i]);
            assert(sub.drop_first() =~= s@.subrange(i + 1, s@.len() as int));
            assert(out@ + remove_all(sub.drop_first(), pat@) =~= before + (seq![sub[0]]
                + remove_all(sub.drop_first(), pat@)));
            i = i + 1;
        }
    }
    assert(out@ + Seq::<char>::empty() =~= out@);
    out
}

fn remove_char_exec(s: &[char], c: char) -> (r: Vec<char>)
    ensures
        r@ == remove_char(s@, c),
{
    let mut out: Vec<char> = Vec::new();
    let mut i: usize = 0;
    assert(s@.subrange(0, s@.len() as int) =~= s@);
    while i < s.len()
        invariant
            i <= s.len(),
            out@ + remove_char(s@.subrange(i as int, s@.len() as int), c) == remove_char(s@, c),
        decreases s.len() - i,
    {
        let ghost sub = s@.subrange(i as int, s@.len() as int);
        let ghost before = out@;
        assert(sub.drop_first() =~= s@.subrange(i + 1, s@.len() as int));
        if s[i] != c {
            out.push(s[i]);
            assert(out@ + remove_char(sub.drop_first(), c) =~= before + (seq![sub[0]]
                + remove_char(sub.drop_first(), c)));
        }
        i = i + 1;
    }
    assert(out@ + Seq::<char>::empty() =~= out@);
    out
}

/// The distribution identifier, lower-cased, from the text of an os-release
/// file: the value of its first `ID=` line without quotes, or `unknown`
/// where no line begins with `ID=`.
pub fn parse_distro_id(os_release: &str) -> (r: String)
    ensures
        r@ == distro_id_spec(os_release@),
{
    let ls = split_lines(os_release);
    let key = chars_of("ID=");
    proof {
        reveal_strlit("ID=");
    }
    let ghost lv = crate::text::views(ls@);
    let mut i: usize = 0;
    while i < ls.len()
        invariant
            i <= ls@.len(),
            lv == crate::text::views(ls@),
            lv == lines(os_release@),
            key@ == id_key(),
            key@.len() == 3,
            first_id_line(lv, i as int) == first_id_line(lv, 0),
        decreases ls.len() - i,
    {
        let line = chars_of(ls[i].as_str());
        assert(line@ == lv[i as int]);
        if starts_with_chars(line.as_slice(), key.as_slice()) {
            let a = remove_all_exec(line.as_slice(), key.as_slice());
            let b = remove_char_exec(a.as_slice(), '"');
            let t = trim_chars(b.as_slice());
            let raw = string_from(t.as_slice());
            return lowercase(raw.as_str());
        }
        i = i + 1;
    }
    "unknown".to_owned()
}

} // verus!