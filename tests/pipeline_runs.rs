use zapret_setup::codec::{encode_strategies, import_strategies};
use zapret_setup::install::{
    binary_dependencies, conflicting_processes, easy_install_answers, easy_install_line,
    easy_install_outcome, easy_install_wrapper, install_next, join_words, library_dependencies,
    root_script, status_line, InstallEvent, InstallStep, ScriptLine, ScriptReader,
};
use zapret_setup::pipeline::{
    discovery_env, progress_line, DiscoveryWorker, LineStep, PipelineError, PipelineKind,
    PipelineRun, Poll, ScanLevel, Stage, WorkerMsg,
};

fn strings(v: &[&str]) -> Vec<String> {
    v.iter().map(|s| s.to_string()).collect()
}

#[test]
fn cancel_before_first_line() {
    let mut w = DiscoveryWorker::new();
    assert_eq!(w.on_line("* SUMMARY".to_string(), true), LineStep::Abandon);
    assert!(w.lines.is_empty());
    assert_eq!(w.finish(true), None);
}

#[test]
fn discovery_end_to_end_with_stub_output() {
    let domains = strings(&["example.com"]);
    let level = ScanLevel::from_choice("quick").unwrap();
    assert_eq!(level.repeats(), 1);
    let env = discovery_env(&domains, level, "/work/zapret");
    assert_eq!(
        env,
        strings(&[
            "BATCH=1",
            "REPEATS=1",
            "SCANLEVEL=quick",
            "SKIP_TPWS=1",
            "ENABLE_HTTP=1",
            "ENABLE_HTTPS_TLS12=1",
            "ENABLE_HTTPS_TLS13=1",
            "ZAPRET_BASE=/work/zapret",
            "DOMAINS=example.com",
        ])
    );
    let stub = [
        "- checking example.com ipv4",
        "curl_test_http ipv4 example.com : nfqws --desync=split2",
        "* SUMMARY",
        "ipv4 example.com curl_test_http : nfqws --desync=split2",
    ];
    let mut w = DiscoveryWorker::new();
    let mut ticks = 0;
    for l in stub {
        match w.on_line(l.to_string(), false) {
            LineStep::Continue { tick } => {
                if tick {
                    ticks += 1;
                }
            }
            LineStep::Abandon => panic!("not cancelled"),
        }
    }
    assert_eq!(ticks, 3);
    let found = match w.finish(false) {
        Some(WorkerMsg::DiscoveryFinished(Ok(v))) => v,
        other => panic!("unexpected {:?}", other),
    };
    assert_eq!(found, strings(&["--desync=split2"]));
    let store = encode_strategies(&found);
    assert_eq!(import_strategies(&store), Ok(strings(&["--desync=split2"])));
}

#[test]
fn scan_levels() {
    assert_eq!(ScanLevel::from_choice("standard"), Some(ScanLevel::Standard));
    assert_eq!(ScanLevel::from_choice("force"), Some(ScanLevel::Force));
    assert_eq!(ScanLevel::from_choice("cancel"), None);
    assert_eq!(ScanLevel::Force.repeats(), 3);
    assert_eq!(ScanLevel::Standard.name(), "standard");
}

#[test]
fn progress_lines() {
    assert!(progress_line("  - curl test"));
    assert!(progress_line("test ipv6 a.com"));
    assert!(!progress_line("-x"));
    assert!(!progress_line("* SUMMARY"));
}

#[test]
fn controller_takes_messages_in_order() {
    let mut run = PipelineRun::new(PipelineKind::Discovery);
    assert_eq!(run.on_message(WorkerMsg::Started(42)), Poll::Continue);
    assert_eq!(run.active_pid, Some(42));
    assert_eq!(run.on_message(WorkerMsg::ProgressTick), Poll::Continue);
    assert_eq!(run.on_message(WorkerMsg::ProgressTick), Poll::Continue);
    assert_eq!(run.ticks, 2);
    assert_eq!(run.on_message(WorkerMsg::StatusChanged(Stage::InstallingTool)), Poll::Continue);
    assert_eq!(run.stage, Stage::InstallingTool);
    assert_eq!(run.on_message(WorkerMsg::LogLine("x".to_string())), Poll::Continue);
    assert_eq!(run.last_log, Some("x".to_string()));
    let done = WorkerMsg::DiscoveryFinished(Ok(strings(&["--a"])));
    assert_eq!(run.on_message(done), Poll::Stop);
    assert_eq!(run.active_pid, None);
    assert_eq!(run.outcome, Some(WorkerMsg::DiscoveryFinished(Ok(strings(&["--a"])))));
}

#[test]
fn controller_cancel_returns_pid_and_ignores_rest() {
    let mut run = PipelineRun::new(PipelineKind::Install);
    run.on_message(WorkerMsg::Started(7));
    assert_eq!(run.cancel(), Some(7));
    assert!(run.cancelled);
    assert_eq!(run.on_message(WorkerMsg::InstallFinished(Ok(()))), Poll::Stop);
    assert_eq!(run.outcome, None);
    assert_eq!(run.on_disconnected(), Poll::Stop);
}

#[test]
fn dependency_lists() {
    assert_eq!(binary_dependencies().len(), 8);
    assert_eq!(binary_dependencies()[7], "dnscrypt-proxy");
    assert_eq!(library_dependencies(), strings(&["zlib", "libnetfilter_queue", "libmnl", "libcap"]));
    assert_eq!(conflicting_processes()[0], "tpws");
    assert_eq!(conflicting_processes().len(), 8);
}

#[test]
fn join_words_spaces() {
    assert_eq!(join_words(&strings(&["a", "b", "c"])), "a b c");
    assert_eq!(join_words(&Vec::new()), "");
}

#[test]
fn root_script_for_debian_with_cleaning() {
    let s = root_script("debian", "/w/zapret", true, &strings(&["gcc"]));
    let expected = [
        "#!/bin/sh\nset -e\nexec 2>&1\n",
        "echo \"STATUS:CLEANING\"\nrm -rf \"/w/zapret\"\n",
        "echo \"STATUS:INSTALLING_DEPS\"\napt-get update\n",
        "apt-get install -y build-essential\n",
        "apt-get install -y zlib1g-dev\n",
        "apt-get install -y libnetfilter-queue-dev libnfnetlink-dev\n",
        "apt-get install -y libmnl-dev\n",
        "apt-get install -y libcap-dev\n",
        "echo \"STATUS:CONFIGURING\"\n",
        "if [ -f \"/etc/dnscrypt-proxy/dnscrypt-proxy.toml\" ]; then\n",
        "  sed -i \"40s/^listen_addresses = \\['127\\.0\\.0\\.1:53'\\]$/listen_addresses = ['127.0.0.1:53', '[::1]:53']/\" /etc/dnscrypt-proxy/dnscrypt-proxy.toml\n",
        "fi\n",
        "echo \"STATUS:FINALIZING\"\nsystemctl restart NetworkManager\n",
        "systemctl enable dnscrypt-proxy.service\nsystemctl start dnscrypt-proxy.service\n",
    ]
    .concat();
    assert_eq!(s, expected);
}

#[test]
fn root_script_unknown_distro_has_no_deps() {
    let s = root_script("unknown", "/w/zapret", false, &strings(&["git"]));
    assert!(!s.contains("STATUS:INSTALLING_DEPS"));
    assert!(!s.contains("STATUS:CLEANING"));
    assert!(s.starts_with("#!/bin/sh\nset -e\nexec 2>&1\necho \"STATUS:CONFIGURING\"\n"));
}

#[test]
fn status_lines() {
    assert_eq!(status_line("STATUS:INSTALLING_DEPS"), Some(Stage::InstallingDeps));
    assert_eq!(status_line("x STATUS:INSTALLING"), Some(Stage::Installing));
    assert_eq!(status_line("STATUS:CLEANING"), Some(Stage::Cleaning));
    assert_eq!(status_line("STATUS:FINALIZING"), Some(Stage::Finalizing));
    assert_eq!(status_line("hello"), None);
}

#[test]
fn script_reader_keeps_last_plain_line() {
    let mut r = ScriptReader::new();
    assert_eq!(r.on_line("E: no package".to_string(), false), ScriptLine::Continue(None));
    assert_eq!(
        r.on_line("STATUS:CONFIGURING".to_string(), false),
        ScriptLine::Continue(Some(Stage::Configuring))
    );
    assert_eq!(r.last_line, "E: no package");
    assert_eq!(r.on_line("later".to_string(), true), ScriptLine::Abandon);
    assert_eq!(r.last_line, "E: no package");
}

#[test]
fn install_steps() {
    let failed = InstallEvent::ScriptExited { success: false, code: Some(126), last_line: "denied".to_string() };
    assert_eq!(
        install_next(failed, false),
        InstallStep::Finish(Err(PipelineError::PermissionDenied { code: 126, last_line: Some("denied".to_string()) }))
    );
    let failed = InstallEvent::ScriptExited { success: false, code: None, last_line: String::new() };
    assert_eq!(
        install_next(failed, false),
        InstallStep::Finish(Err(PipelineError::PermissionDenied { code: -1, last_line: None }))
    );
    let ok = InstallEvent::ScriptExited { success: true, code: Some(0), last_line: String::new() };
    assert_eq!(install_next(ok, false), InstallStep::Settle);
    let ok = InstallEvent::ScriptExited { success: true, code: Some(0), last_line: String::new() };
    assert_eq!(install_next(ok, true), InstallStep::Abandon);
    assert_eq!(install_next(InstallEvent::Settled { target_exists: true }, false), InstallStep::UseExisting);
    assert_eq!(install_next(InstallEvent::Settled { target_exists: false }, false), InstallStep::Clone);
    assert_eq!(install_next(InstallEvent::CloneExited(Ok(true)), false), InstallStep::Build);
    assert_eq!(
        install_next(InstallEvent::CloneExited(Ok(false)), false),
        InstallStep::Finish(Err(PipelineError::CloneFailed))
    );
    assert_eq!(
        install_next(InstallEvent::CloneExited(Err("no git".to_string())), false),
        InstallStep::Finish(Err(PipelineError::SpawnFailure("no git".to_string())))
    );
    assert_eq!(
        install_next(InstallEvent::BuildExited(Ok((false, Some(2))), "cc failed".to_string()), false),
        InstallStep::Finish(Err(PipelineError::NonZeroExit { code: 2, context: "cc failed".to_string() }))
    );
    assert_eq!(
        install_next(InstallEvent::BuildExited(Ok((true, Some(0))), String::new()), false),
        InstallStep::Finish(Ok(()))
    );
    assert_eq!(install_next(InstallEvent::ExistingChecked, false), InstallStep::Finish(Ok(())));
    assert_eq!(install_next(InstallEvent::ExistingChecked, true), InstallStep::Abandon);
}

#[test]
fn easy_install_pieces() {
    assert_eq!(easy_install_answers(), "Y\nY\nN\n1\nN\nN\nY\nN\n\n\n");
    let w = easy_install_wrapper("/b", "/b/install_easy.sh", "/tmp/in.txt");
    assert!(w.starts_with("#!/bin/sh\nexport ZAPRET_BASE=\"/b\"\n\"/b/install_easy.sh\" < \"/tmp/in.txt\"\nexit_code=$?\n"));
    assert!(w.ends_with("fi\nexit $exit_code\n"));
    assert_eq!(easy_install_outcome(Ok((true, Some(0)))), Ok(()));
    assert_eq!(
        easy_install_outcome(Ok((false, None))),
        Err(PipelineError::NonZeroExit { code: -1, context: String::new() })
    );
    assert_eq!(
        easy_install_outcome(Err("gone".to_string())),
        Err(PipelineError::SpawnFailure("gone".to_string()))
    );
    assert_eq!(easy_install_line("l".to_string(), true), None);
    assert_eq!(easy_install_line("l".to_string(), false), Some(WorkerMsg::LogLine("l".to_string())));
}
