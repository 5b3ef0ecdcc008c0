use zapret_setup::config::{apply_strategies, patch_option_variable};
use zapret_setup::distro::{
    family, package_install_command, package_name, parse_distro_id, refresh_command, Family,
};

fn strings(v: &[&str]) -> Vec<String> {
    v.iter().map(|s| s.to_string()).collect()
}

#[test]
fn patch_double_quoted_span_only() {
    let doc = "A=1\nNFQWS_OPT=\"old\"\nB=\"x\"\n";
    let r = patch_option_variable(doc, "new value");
    assert_eq!(r, "A=1\nNFQWS_OPT=\"new value\"\nB=\"x\"\n");
}

#[test]
fn patch_skips_escaped_quote() {
    let doc = "NFQWS_OPT=\"a \\\" b\" tail";
    assert_eq!(patch_option_variable(doc, "--n"), "NFQWS_OPT=\"--n\" tail");
}

#[test]
fn patch_single_quoted_becomes_double() {
    let doc = "X=1\nNFQWS_OPT='--old'\n";
    assert_eq!(patch_option_variable(doc, "--new"), "X=1\nNFQWS_OPT=\"--new\"\n");
}

#[test]
fn patch_appends_when_absent() {
    let doc = "X=1";
    assert_eq!(patch_option_variable(doc, "--new"), "X=1\nNFQWS_OPT=\"--new\"\n");
}

#[test]
fn patch_unclosed_double_falls_back() {
    let doc = "NFQWS_OPT=\"open";
    assert_eq!(
        patch_option_variable(doc, "v"),
        "NFQWS_OPT=\"open\nNFQWS_OPT=\"v\"\n"
    );
}

#[test]
fn apply_joins_selected() {
    let doc = "NFQWS_OPT=\"\"\n";
    let sel = strings(&["--a", "--b=1"]);
    assert_eq!(apply_strategies(doc, &sel), Some("NFQWS_OPT=\"--a --b=1\"\n".to_string()));
    assert_eq!(apply_strategies(doc, &Vec::new()), None);
}

#[test]
fn distro_id_from_os_release() {
    let text = "NAME=\"Ubuntu\"\nVERSION_ID=\"24.04\"\nID=ubuntu\nID_LIKE=debian\n";
    assert_eq!(parse_distro_id(text), "ubuntu");
    assert_eq!(parse_distro_id("ID=\"Fedora\"  \n"), "fedora");
    assert_eq!(parse_distro_id("NAME=x\n"), "unknown");
}

#[test]
fn families() {
    assert_eq!(family("linuxmint"), Family::Debian);
    assert_eq!(family("cachyos"), Family::Arch);
    assert_eq!(family("opensuse-leap"), Family::Suse);
    assert_eq!(family("void"), Family::Void);
    assert_eq!(family("plan9"), Family::Other);
}

#[test]
fn package_names() {
    assert_eq!(package_name("debian", "gcc"), "build-essential");
    assert_eq!(package_name("alpine", "gcc"), "build-base");
    assert_eq!(package_name("fedora", "zlib"), "zlib-devel");
    assert_eq!(package_name("unknown", "libcap"), "libcap-devel");
    assert_eq!(package_name("void", "dig"), "bind-utils");
    assert_eq!(package_name("arch", "dig"), "bind");
    assert_eq!(package_name("gentoo", "curl"), "curl");
}

#[test]
fn install_commands() {
    assert_eq!(
        package_install_command("manjaro", "libmnl"),
        strings(&["pacman", "-S", "--noconfirm", "libmnl"])
    );
    assert_eq!(
        package_install_command("kali", "libnetfilter_queue"),
        strings(&["apt-get", "install", "-y", "libnetfilter-queue-dev libnfnetlink-dev"])
    );
    assert_eq!(package_install_command("alpine", "git"), strings(&["apk", "add", "git"]));
    assert_eq!(package_install_command("unknown", "git"), Vec::<String>::new());
}

#[test]
fn refresh_commands() {
    assert_eq!(refresh_command("pop"), Some("apt-get update".to_string()));
    assert_eq!(refresh_command("gentoo"), Some("emerge --sync".to_string()));
    assert_eq!(refresh_command("nixos"), None);
}
