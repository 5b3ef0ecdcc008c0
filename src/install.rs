//! The install pipeline: the privileged script it runs, how it reads that
//! script's output, and what it does after each external step.
use vstd::prelude::*;
use crate::distro::{
    family, family_spec, install_spec, package_install_command, package_spec, refresh_command,
    refresh_spec, Family,
};
use crate::pipeline::{PipelineError, Stage};
use crate::text::{
    append_chars, chars_of, contains, contains_chars, push_str, starts_with, starts_with_chars,
    string_from, views,
};

verus! {

/// `ws` joined with single spaces, from position `i` on.
pub open spec fn join_from(ws: Seq<Seq<char>>, i: int) -> Seq<char>
    decreases ws.len() - i,
{
    if i < 0 || i >= ws.len() {
        Seq::empty()
    } else if i == ws.len() - 1 {
        ws[i]
    } else {
        ws[i] + seq![' '] + join_from(ws, i + 1)
    }
}

pub open spec fn join(ws: Seq<Seq<char>>) -> Seq<char> {
    join_from(ws, 0)
}

/// The words of `ws` joined with single spaces.
pub fn join_words(ws: &Vec<String>) -> (r: String)
    ensures
        r@ == join(views(ws@)),
{
    let ghost v = views(ws@);
    let mut out: Vec<char> = Vec::new();
    let mut i: usize = 0;
    assert(out@ + join_from(v, 0) =~= join(v));
    while i < ws.len()
        invariant
            i <= ws@.len(),
            v == views(ws@),
            out@ + join_from(v, i as int) == join(v),
        decreases ws.len() - i,
    {
        let ghost before = out@;
        push_str(&mut out, ws[i].as_str());
        if i + 1 < ws.len() {
            out.push(' ');
            assert(out@ + join_from(v, i + 1) =~= before + join_from(v, i as int));
        } else {
            assert(join_from(v, i + 1) =~= Seq::<char>::empty());
            assert(out@ + join_from(v, i + 1) =~= before + join_from(v, i as int));
        }
        i = i + 1;
    }
    assert(out@ + Seq::<char>::empty() =~= out@);
    string_from(out.as_slice())
}

pub open spec fn binary_deps() -> Seq<Seq<char>> {
    seq!["git"@, "curl"@, "ipset"@, "iptables"@, "make"@, "gcc"@, "dig"@, "dnscrypt-proxy"@]
}

pub open spec fn library_deps() -> Seq<Seq<char>> {
    seq!["zlib"@, "libnetfilter_queue"@, "libmnl"@, "libcap"@]
}

fn strings_of(words: Vec<&str>) -> (r: Vec<String>)
    ensures
        r@.len() == words@.len(),
        forall|j: int| 0 <= j < words@.len() ==> #[trigger] r@[j]@ == words@[j]@,
{
    let mut out: Vec<String> = Vec::new();
    let mut i: usize = 0;
    while i < words.len()
        invariant
            i <= words@.len(),
            out@.len() == i,
            forall|j: int| 0 <= j < i ==> #[trigger] out@[j]@ == words@[j]@,
        decreases words.len() - i,
    {
        out.push(words[i].to_owned());
        i = i + 1;
    }
    out
}

/// The commands whose presence the installer checks before it installs
/// their packages.
pub fn binary_dependencies() -> (r: Vec<String>)
    ensures
        views(r@) == binary_deps(),
{
    let r = strings_of(
        vec!["git", "curl", "ipset", "iptables", "make", "gcc", "dig", "dnscrypt-proxy"],
    );
    assert(views(r@) =~= binary_deps());
    r
}

/// The libraries whose packages the installer always installs.
pub fn library_dependencies() -> (r: Vec<String>)
    ensures
        views(r@) == library_deps(),
{
    let r = strings_of(vec!["zlib", "libnetfilter_queue", "libmnl", "libcap"]);
    assert(views(r@) =~= library_deps());
    r
}

pub open spec fn conflicting() -> Seq<Seq<char>> {
    seq![
        "tpws"@,
        "nfqws"@,
        "dvtws"@,
        "winws"@,
        "goodbyedpi"@,
        "openvpn"@,
        "wireguard"@,
        "zapret"@,
    ]
}

/// Processes that must not run while the toolset is installed.
pub fn conflicting_processes() -> (r: Vec<String>)
    ensures
        views(r@) == conflicting(),
{
    let r = strings_of(
        vec!["tpws", "nfqws", "dvtws", "winws", "goodbyedpi", "openvpn", "wireguard", "zapret"],
    );
    assert(views(r@) =~= conflicting());
    r
}

/// The install lines for `deps` from position `i` on: one per dependency
/// that the family can install.
pub open spec fn dep_lines(f: Family, deps: Seq<Seq<char>>, i: int) -> Seq<char>
    decreases deps.len() - i,
{
    if i < 0 || i >= deps.len() {
        Seq::empty()
    } else {
        let ws = install_spec(f, package_spec(f, deps[i]));
        (if ws.len() > 0 {
            join(ws) + seq!['\n']
        } else {
            Seq::empty()
        }) + dep_lines(f, deps, i + 1)
    }
}

pub open spec fn script_header() -> Seq<char> {
    "#!/bin/sh\nset -e\nexec 2>&1\n"@
}

pub open spec fn cleaning_block(target: Seq<char>) -> Seq<char> {
    "echo \"STATUS:CLEANING\"\n"@ + "rm -rf \""@ + target + "\"\n"@
}

pub open spec fn deps_header() -> Seq<char> {
    "echo \"STATUS:INSTALLING_DEPS\"\n"@
}

pub open spec fn refresh_line(f: Family) -> Seq<char> {
    match refresh_spec(f) {
        Some(c) => c + seq!['\n'],
        None => Seq::empty(),
    }
}

pub open spec fn configure_block() -> Seq<char> {
    "echo \"STATUS:CONFIGURING\"\nif [ -f \"/etc/dnscrypt-proxy/dnscrypt-proxy.toml\" ]; then\n  sed -i \"40s/^listen_addresses = \\['127\\.0\\.0\\.1:53'\\]$/listen_addresses = ['127.0.0.1:53', '[::1]:53']/\" /etc/dnscrypt-proxy/dnscrypt-proxy.toml\nfi\n"@
}

pub open spec fn finalize_block() -> Seq<char> {
    "echo \"STATUS:FINALIZING\"\nsystemctl restart NetworkManager\nsystemctl enable dnscrypt-proxy.service\nsystemctl start dnscrypt-proxy.service\n"@
}

/// The privileged script: optional removal of the old target, installation
/// of the packages for the missing commands and for the libraries, the DNS
/// resolver's configuration, and the service restarts. Each part first
/// prints its status marker.
pub open spec fn root_script_spec(
    distro: Seq<char>,
    target: Seq<char>,
    clean: bool,
    missing: Seq<Seq<char>>,
) -> Seq<char> {
    let f = family_spec(distro);
    let cmds = dep_lines(f, missing + library_deps(), 0);
    script_header() + (if clean {
        cleaning_block(target)
    } else {
        Seq::empty()
    }) + (if cmds.len() > 0 {
        deps_header() + refresh_line(f) + cmds
    } else {
        Seq::empty()
    }) + configure_block() + finalize_block()
}

/// Builds the privileged install script for `distro`. `clean` asks for the
/// old `target` directory to be removed first; `missing` lists the commands
/// that were not found.
pub fn root_script(distro: &str, target: &str, clean: bool, missing: &Vec<String>) -> (r: String)
    ensures
        r@ == root_script_spec(distro@, target@, clean, views(missing@)),
{
    let ghost f = family_spec(distro@);
    let libs = library_dependencies();
    let mut deps: Vec<String> = Vec::new();
    let mut i: usize = 0;
    while i < missing.len()
        invariant
            i <= missing@.len(),
            deps@.len() == i,
            forall|j: int| 0 <= j < i ==> #[trigger] deps@[j]@ == missing@[j]@,
        decreases missing.len() - i,
    {
        deps.push(missing[i].clone());
        i = i + 1;
    }
    let mut k: usize = 0;
    while k < libs.len()
        invariant
            k <= libs@.len(),
            deps@.len() == missing@.len() + k,
            forall|j: int| 0 <= j < missing@.len() ==> #[trigger] deps@[j]@ == missing@[j]@,
            forall|j: int|
                missing@.len() <= j < missing@.len() + k ==> #[trigger] deps@[j]@ == libs@[j
                    - missing@.len()]@,
        decreases libs.len() - k,
    {
        deps.push(libs[k].clone());
        k = k + 1;
    }
    let ghost dv = views(missing@) + library_deps();
    assert(views(deps@) =~= dv) by {
        assert(views(libs@) == library_deps());
        assert forall|j: int| 0 <= j < dv.len() implies views(deps@)[j] == dv[j] by {
            if j >= missing@.len() {
                assert(views(libs@)[j - missing@.len()] == libs@[j - missing@.len()]@);
            }
        }
    }

    let mut cmds: Vec<char> = Vec::new();
    let mut i: usize = 0;
    assert(cmds@ + dep_lines(f, dv, 0) =~= dep_lines(f, dv, 0));
    while i < deps.len()
        invariant
            i <= deps@.len(),
            f == family_spec(distro@),
            views(deps@) == dv,
            cmds@ + dep_lines(f, dv, i as int) == dep_lines(f, dv, 0),
        decreases deps.len() - i,
    {
        let ghost before = cmds@;
        assert(deps@[i as int]@ == dv[i as int]);
        let words = package_install_command(distro, deps[i].as_str());
        if words.len() > 0 {
            let line = join_words(&words);
            push_str(&mut cmds, line.as_str());
            cmds.push('\n');
        }
        assert(cmds@ + dep_lines(f, dv, i + 1) =~= before + dep_lines(f, dv, i as int));
        i = i + 1;
    }
    assert(cmds@ + Seq::<char>::empty() =~= cmds@);

    let mut out: Vec<char> = Vec::new();
    push_str(&mut out, "#!/bin/sh\nset -e\nexec 2>&1\n");
    if clean {
        push_str(&mut out, "echo \"STATUS:CLEANING\"\n");
        push_str(&mut out, "rm -rf \"");
        push_str(&mut out, target);
        push_str(&mut out, "\"\n");
    }
    if cmds.len() > 0 {
        push_str(&mut out, "echo \"STATUS:INSTALLING_DEPS\"\n");
        match refresh_command(distro) {
            Some(c) => {
                push_str(&mut out, c.as_str());
                out.push('\n');
            },
            None => {},
        }
        append_chars(&mut out, cmds.as_slice());
    }
    push_str(
        &mut out,
        "echo \"STATUS:CONFIGURING\"\nif [ -f \"/etc/dnscrypt-proxy/dnscrypt-proxy.toml\" ]; then\n  sed -i \"40s/^listen_addresses = \\['127\\.0\\.0\\.1:53'\\]$/listen_addresses = ['127.0.0.1:53', '[::1]:53']/\" /etc/dnscrypt-proxy/dnscrypt-proxy.toml\nfi\n",
    );
    push_str(
        &mut out,
        "echo \"STATUS:FINALIZING\"\nsystemctl restart NetworkManager\nsystemctl enable dnscrypt-proxy.service\nsystemctl start dnscrypt-proxy.service\n",
    );
    let ghost cl = if clean {
        cleaning_block(target@)
    } else {
        Seq::empty()
    };
    let ghost dp = if cmds@.len() > 0 {
        deps_header() + refresh_line(f) + cmds@
    } else {
        Seq::empty()
    };
    assert(out@ =~= script_header() + cl + dp + configure_block() + finalize_block());
    string_from(out.as_slice())
}

/// The stage that a line of the privileged script's output announces.
pub open spec fn status_of(l: Seq<char>) -> Option<Stage> {
    if contains(l, "STATUS:CLEANING"@) {
        Some(Stage::Cleaning)
    } else if contains(l, "STATUS:INSTALLING_DEPS"@) {
        Some(Stage::InstallingDeps)
    } else if contains(l, "STATUS:INSTALLING"@) {
        Some(Stage::Installing)
    } else if contains(l, "STATUS:CONFIGURING"@) {
        Some(Stage::Configuring)
    } else if contains(l, "STATUS:FINALIZING"@) {
        Some(Stage::Finalizing)
    } else {
        None
    }
}

fn has(l: &[char], pat: &str) -> (r: bool)
    ensures
        r == contains(l@, pat@),
{
    let p = chars_of(pat);
    contains_chars(l, p.as_slice())
}

/// The stage, if any, that one line of the privileged script announces.
pub fn status_line(line: &str) -> (r: Option<Stage>)
    ensures
        r == status_of(line@),
{
    let l = chars_of(line);
    let l = l.as_slice();
    if has(l, "STATUS:CLEANING") {
        Some(Stage::Cleaning)
    } else if has(l, "STATUS:INSTALLING_DEPS") {
        Some(Stage::InstallingDeps)
    } else if has(l, "STATUS:INSTALLING") {
        Some(Stage::Installing)
    } else if has(l, "STATUS:CONFIGURING") {
        Some(Stage::Configuring)
    } else if has(l, "STATUS:FINALIZING") {
        Some(Stage::Finalizing)
    } else {
        None
    }
}

/// What the privileged script's reader does with one line.
#[derive(Clone, Copy, Debug, PartialEq, Eq)]
pub enum ScriptLine {
    /// The run was cancelled: stop reading and send nothing more.
    Abandon,
    /// Go on; report the stage where the line announces one.
    Continue(Option<Stage>),
}

/// Reads the privileged script's output, keeping the last line that was no
/// status marker, to explain a failure.
pub struct ScriptReader {
    pub last_line: String,
}

impl ScriptReader {
    pub fn new() -> (r: ScriptReader)
        ensures
            r.last_line@.len() == 0,
    {
        ScriptReader { last_line: String::new() }
    }

    /// Takes one output line, read after the cancellation flag was found
    /// `cancelled`.
    pub fn on_line(&mut self, line: String, cancelled: bool) -> (r: ScriptLine)
        ensures
            cancelled ==> r == ScriptLine::Abandon && final(self).last_line@ == old(
                self,
            ).last_line@,
            !cancelled ==> r == ScriptLine::Continue(status_of(line@)),
            !cancelled ==> final(self).last_line@ == (if starts_with(line@, "STATUS:"@) {
                old(self).last_line@
            } else {
                line@
            }),
    {
        if cancelled {
            return ScriptLine::Abandon;
        }
        let stage = status_line(line.as_str());
        let l = chars_of(line.as_str());
        let key = chars_of("STATUS:");
        if !starts_with_chars(l.as_slice(), key.as_slice()) {
            self.last_line = line;
        }
        ScriptLine::Continue(stage)
    }
}

/// How an external step of the install pipeline ended.
pub enum InstallEvent {
    /// The privileged script exited; `last_line` is what `ScriptReader` kept.
    ScriptExited { success: bool, code: Option<i32>, last_line: String },
    /// The wait after the script is over; says whether the target directory
    /// is there.
    Settled { target_exists: bool },
    /// The clone ended: `Err` where it could not be started.
    CloneExited(Result<bool, String>),
    /// The build ended: `Err` where it could not be started; else whether
    /// it succeeded, its exit code, and the last line it printed.
    BuildExited(Result<(bool, Option<i32>), String>, String),
    /// The short wait before an existing directory is taken as ready.
    ExistingChecked,
}

/// What the install worker does next.
#[derive(Debug, PartialEq, Eq)]
pub enum InstallStep {
    /// Cancelled: stop without a final message.
    Abandon,
    /// Report `WaitingForNetwork`, remove the script, wait, then check the
    /// target directory.
    Settle,
    /// Report `CloningRepo` and clone the repository.
    Clone,
    /// Report `Building` and build the cloned tree.
    Build,
    /// Report `UsingExisting`, wait briefly, then finish.
    UseExisting,
    /// Send the final message with this result.
    Finish(Result<(), PipelineError>),
}

pub open spec fn code_or_unknown(code: Option<i32>) -> i32 {
    match code {
        Some(c) => c,
        None => -1i32,
    }
}

/// The next step after `event`, where the cancellation flag stood at
/// `cancelled` once the step had ended.
pub open spec fn install_next_spec(event: InstallEvent, cancelled: bool) -> InstallStep {
    if cancelled {
        InstallStep::Abandon
    } else {
        match event {
            InstallEvent::ScriptExited { success, code, last_line } => if success {
                InstallStep::Settle
            } else {
                InstallStep::Finish(
                    Err(
                        PipelineError::PermissionDenied {
                            code: code_or_unknown(code),
                            last_line: if last_line@.len() == 0 {
                                None
                            } else {
                                Some(last_line)
                            },
                        },
                    ),
                )
            },
            InstallEvent::Settled { target_exists } => if target_exists {
                InstallStep::UseExisting
            } else {
                InstallStep::Clone
            },
            InstallEvent::CloneExited(r) => match r {
                Ok(true) => InstallStep::Build,
                Ok(false) => InstallStep::Finish(Err(PipelineError::CloneFailed)),
                Err(e) => InstallStep::Finish(Err(PipelineError::SpawnFailure(e))),
            },
            InstallEvent::BuildExited(r, last) => match r {
                Ok((true, _)) => InstallStep::Finish(Ok(())),
                Ok((false, code)) => InstallStep::Finish(
                    Err(
                        PipelineError::NonZeroExit { code: code_or_unknown(code), context: last },
                    ),
                ),
                Err(e) => InstallStep::Finish(Err(PipelineError::SpawnFailure(e))),
            },
            InstallEvent::ExistingChecked => InstallStep::Finish(Ok(())),
        }
    }
}

/// Decides the install worker's next step once an external step has ended.
pub fn install_next(event: InstallEvent, cancelled: bool) -> (r: InstallStep)
    ensures
        r == install_next_spec(event, cancelled),
{
    if cancelled {
        return InstallStep::Abandon;
    }
    match event {
        InstallEvent::ScriptExited { success, code, last_line } => {
            if success {
                InstallStep::Settle
            } else {
                let c = match code {
                    Some(c) => c,
                    None => -1,
                };
                let last = if last_line.as_str().unicode_len() == 0 {
                    None
                } else {
                    Some(last_line)
                };
                InstallStep::Finish(Err(PipelineError::PermissionDenied { code: c, last_line: last }))
            }
        },
        InstallEvent::Settled { target_exists } => {
            if target_exists {
                InstallStep::UseExisting
            } else {
                InstallStep::Clone
            }
        },
        InstallEvent::CloneExited(r) => match r {
            Ok(true) => InstallStep::Build,
            Ok(false) => InstallStep::Finish(Err(PipelineError::CloneFailed)),
            Err(e) => InstallStep::Finish(Err(PipelineError::SpawnFailure(e))),
        },
        InstallEvent::BuildExited(r, last) => match r {
            Ok((true, _)) => InstallStep::Finish(Ok(())),
            Ok((false, code)) => {
                let c = match code {
                    Some(c) => c,
                    None => -1,
                };
                InstallStep::Finish(Err(PipelineError::NonZeroExit { code: c, context: last }))
            },
            Err(e) => InstallStep::Finish(Err(PipelineError::SpawnFailure(e))),
        },
        InstallEvent::ExistingChecked => InstallStep::Finish(Ok(())),
    }
}

pub open spec fn answers_spec() -> Seq<char> {
    "Y\nY\nN\n1\nN\nN\nY\nN\n\n\n"@
}

/// The answers piped into the toolset's interactive installer, one per
/// line.
pub fn easy_install_answers() -> (r: String)
    ensures
        r@ == answers_spec(),
{
    "Y\nY\nN\n1\nN\nN\nY\nN\n\n\n".to_owned()
}

pub open spec fn wrapper_spec(base: Seq<char>, script: Seq<char>, answers: Seq<char>) -> Seq<char> {
    "#!/bin/sh\nexport ZAPRET_BASE=\""@ + base + "\"\n\""@ + script + "\" < \""@ + answers
        + "\"\nexit_code=$?\nif [ $exit_code -eq 0 ]; then\nsed -i 's/^NFQWS_ENABLE=.*/NFQWS_ENABLE=1/' /opt/zapret/config\nfi\nexit $exit_code\n"@
}

/// The shell script run with elevation to install the toolset: it sets the
/// toolset's base directory, feeds the installer its answers from the file
/// `answers`, and on success enables the packet filter in the installed
/// configuration, passing the installer's exit code on.
pub fn easy_install_wrapper(base: &str, script: &str, answers: &str) -> (r: String)
    ensures
        r@ == wrapper_spec(base@, script@, answers@),
{
    let mut out: Vec<char> = Vec::new();
    push_str(&mut out, "#!/bin/sh\nexport ZAPRET_BASE=\"");
    push_str(&mut out, base);
    push_str(&mut out, "\"\n\"");
    push_str(&mut out, script);
    push_str(&mut out, "\" < \"");
    push_str(&mut out, answers);
    push_str(
        &mut out,
        "\"\nexit_code=$?\nif [ $exit_code -eq 0 ]; then\nsed -i 's/^NFQWS_ENABLE=.*/NFQWS_ENABLE=1/' /opt/zapret/config\nfi\nexit $exit_code\n",
    );
    string_from(out.as_slice())
}

/// The final result of the toolset's installer, from how it ended: `Err`
/// where it could not be started or waited for, else whether it succeeded
/// and its exit code.
pub fn easy_install_outcome(exit: Result<(bool, Option<i32>), String>) -> (r: Result<
    (),
    PipelineError,
>)
    ensures
        match (exit, r) {
            (Ok((true, _)), Ok(())) => true,
            (Ok((false, code)), Err(PipelineError::NonZeroExit { code: c, context })) => c
                == code_or_unknown(code) && context@.len() == 0,
            (Err(e), Err(PipelineError::SpawnFailure(m))) => m == e,
            _ => false,
        },
{
    match exit {
        Ok((true, _)) => Ok(()),
        Ok((false, code)) => {
            let c = match code {
                Some(c) => c,
                None => -1,
            };
            Err(PipelineError::NonZeroExit { code: c, context: String::new() })
        },
        Err(e) => Err(PipelineError::SpawnFailure(e)),
    }
}

/// What the toolset installer's reader sends for one output line, read
/// after the cancellation flag was found `cancelled`: the line as a log
/// line, or nothing where the run is cancelled and its process is to be
/// killed.
pub fn easy_install_line(line: String, cancelled: bool) -> (r: Option<crate::pipeline::WorkerMsg>)
    ensures
        cancelled ==> r is None,
        !cancelled ==> r == Some(crate::pipeline::WorkerMsg::LogLine(line)),
{
    if cancelled {
        None
    } else {
        Some(crate::pipeline::WorkerMsg::LogLine(line))
    }
}

} // verus!
