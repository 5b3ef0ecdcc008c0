use zapret_setup::ansi::strip_ansi;
use zapret_setup::codec::{check_store, decode_store, encode_strategies, import_strategies, StoreProblem};
use zapret_setup::pipeline::PipelineError;
use zapret_setup::report::{extract_from_report, extract_strategies};
use zapret_setup::text::split_lines;

fn strings(v: &[&str]) -> Vec<String> {
    v.iter().map(|s| s.to_string()).collect()
}

#[test]
fn store_round_trip_single() {
    let s = strings(&["--dpi-desync=fake --dpi-desync-ttl=5"]);
    let text = encode_strategies(&s);
    assert_eq!(decode_store(&text), Some(s));
}

#[test]
fn store_round_trip_keeps_quotes_and_order() {
    let s = strings(&["--a", "--b \"quoted\"", "--c"]);
    let text = encode_strategies(&s);
    assert_eq!(decode_store(&text), Some(s));
}

#[test]
fn store_encoding_layout() {
    let s = strings(&["--a", "--say \"hi\""]);
    assert_eq!(encode_strategies(&s), "[\n  \"--a\",\n  \"--say \\\"hi\\\"\"\n]\n");
    assert_eq!(encode_strategies(&Vec::new()), "[\n]\n");
}

#[test]
fn store_backslash_is_not_kept() {
    let s = strings(&["--a\\b"]);
    let text = encode_strategies(&s);
    assert_eq!(decode_store(&text), Some(strings(&["--ab"])));
}

#[test]
fn store_decode_needs_brackets() {
    assert_eq!(decode_store("\"--a\""), None);
    assert_eq!(decode_store("  [ ]  "), Some(Vec::new()));
}

#[test]
fn import_accepts_strategies() {
    let r = import_strategies("[\n  \"--a\",\n  \"  --b\"\n]\n");
    assert_eq!(r, Ok(strings(&["--a", "  --b"])));
}

#[test]
fn import_refuses_one_bad_element() {
    let r = import_strategies("[\"--a\", \"bad\", \"also bad\"]");
    assert_eq!(
        r,
        Err(PipelineError::ParseFailure(StoreProblem::NotAStrategy("bad".to_string())))
    );
}

#[test]
fn import_refuses_non_array() {
    assert_eq!(check_store("{\"a\": 1}"), Err(StoreProblem::NotAnArray));
    assert_eq!(check_store(""), Err(StoreProblem::NotAnArray));
}

#[test]
fn import_refuses_empty_array() {
    assert_eq!(check_store("[ ]"), Err(StoreProblem::NoStrategies));
    assert_eq!(
        import_strategies("[ ]"),
        Err(PipelineError::ParseFailure(StoreProblem::NoStrategies))
    );
}

#[test]
fn strip_removes_colour_runs() {
    let line = "\x1b[1;32mnfqws --x\x1b[0m done";
    let once = strip_ansi(line);
    assert_eq!(once, "nfqws --x done");
    assert_eq!(strip_ansi(&once), once);
    assert!(!once.contains('\x1b'));
}

#[test]
fn strip_unterminated_run_drops_rest() {
    assert_eq!(strip_ansi("ok\x1b[31 and text"), "ok");
    assert_eq!(strip_ansi("plain"), "plain");
}

#[test]
fn split_lines_like_std() {
    assert_eq!(split_lines("a\r\nb\n\nc\n"), strings(&["a", "b", "", "c"]));
    assert_eq!(split_lines(""), Vec::<String>::new());
    assert_eq!(split_lines("x"), strings(&["x"]));
}

#[test]
fn common_section_excludes_checking_lines() {
    let lines = strings(&[
        "preamble",
        "* COMMON",
        "nfqws --flag-a",
        "checking nfqws --flag-b",
    ]);
    assert_eq!(extract_strategies(&lines), strings(&["--flag-a"]));
}

#[test]
fn fallback_without_header_dedups() {
    let report = "ipv4 example.com : nfqws --x\nsomething\nnfqws --y\n  nfqws --x  \n";
    assert_eq!(extract_from_report(report), strings(&["--x", "--y"]));
}

#[test]
fn summary_used_when_no_common() {
    let report = "nfqws --early\n* SUMMARY\n\x1b[32mcurl_test_https_tls12 ipv4 a.com : nfqws --s1\x1b[0m\n\n!!!!! >> nfqws --bad\nnfqws --s2 not working\nnfqws --s3\n* OTHER\nnfqws --after\n";
    assert_eq!(extract_from_report(report), strings(&["--s1", "--s3"]));
}

#[test]
fn common_preferred_over_summary() {
    let report = "* SUMMARY\nnfqws --sum\n* COMMON\nnfqws --com\n";
    assert_eq!(extract_from_report(report), strings(&["--com"]));
}

#[test]
fn header_found_but_empty_gives_nothing() {
    let report = "nfqws --outside\n* SUMMARY\n\n* END\n";
    assert_eq!(extract_from_report(report), Vec::<String>::new());
}
