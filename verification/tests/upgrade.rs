use aether_proxy::service::{
    can_install, command_line, ensure_root_and_service, ensure_service_installed, install_precheck, unit_file,
};
use aether_proxy::upgrade::{
    archive_name, download_url, is_current, judge_entry, parse_checksum, release_tag, tag_version, EntryVerdict,
    MAX_BINARY_SIZE,
};

const SUMS: &str = "\
0123456789ABCDEF0123456789abcdef0123456789abcdef0123456789abcdef  aether-proxy-linux-amd64.tar.gz
aaaaaaaaaaaaaaaaaaaaaaaaaaaaaaaaaaaaaaaaaaaaaaaaaaaaaaaaaaaaaaaa  ./dist/aether-proxy-linux-arm64.tar.gz

onlyonetoken
\tbbbb\t \taether-proxy-macos-arm64.tar.gz   trailing words
cccc aether-proxy-windows-amd64.tar.gz\r
dddd aether-proxy-windows-amd64.tar.gz
";

#[test]
fn checksum_of_a_listed_file() {
    assert_eq!(
        parse_checksum(SUMS, "aether-proxy-linux-amd64.tar.gz").as_deref(),
        Some("0123456789abcdef0123456789abcdef0123456789abcdef0123456789abcdef")
    );
    // a path that ends with the name
    assert_eq!(
        parse_checksum(SUMS, "aether-proxy-linux-arm64.tar.gz").as_deref(),
        Some("aaaaaaaaaaaaaaaaaaaaaaaaaaaaaaaaaaaaaaaaaaaaaaaaaaaaaaaaaaaaaaaa")
    );
    // any whitespace separates, and words behind the name do not matter
    assert_eq!(parse_checksum(SUMS, "aether-proxy-macos-arm64.tar.gz").as_deref(), Some("bbbb"));
    // the first line that names the file
    assert_eq!(parse_checksum(SUMS, "aether-proxy-windows-amd64.tar.gz").as_deref(), Some("cccc"));
    // a suffix of a name is enough
    assert_eq!(parse_checksum(SUMS, "amd64.tar.gz").as_deref(), Some("0123456789abcdef0123456789abcdef0123456789abcdef0123456789abcdef"));
}

#[test]
fn checksum_of_a_file_that_is_not_listed() {
    assert_eq!(parse_checksum(SUMS, "aether-proxy-freebsd.tar.gz"), None);
    assert_eq!(parse_checksum(SUMS, "onlyonetoken"), None);
    assert_eq!(parse_checksum(SUMS, "trailing"), None);
    assert_eq!(parse_checksum("", "x"), None);
    assert_eq!(parse_checksum("\n\n  \n", "x"), None);
    assert_eq!(parse_checksum("hash name", "longer-than-name"), None);
}

#[test]
fn checksum_edge_cases() {
    // every named file ends with the empty name
    assert_eq!(parse_checksum("AbC file", "").as_deref(), Some("abc"));
    assert_eq!(parse_checksum("abc", ""), None);
    // no line feed at the end
    assert_eq!(parse_checksum("x y\nhash name", "name").as_deref(), Some("hash"));
    // hash and name on different lines do not belong together
    assert_eq!(parse_checksum("hash\nname", "name"), None);
}

#[test]
fn release_tags() {
    assert_eq!(release_tag("0.2.0"), "proxy-v0.2.0");
    assert_eq!(release_tag("proxy-v0.2.0"), "proxy-v0.2.0");
    assert_eq!(release_tag(""), "proxy-v");
    assert_eq!(release_tag("proxy-"), "proxy-vproxy-");
    assert_eq!(tag_version("proxy-v0.2.0"), "0.2.0");
    assert_eq!(tag_version("v0.2.0"), "v0.2.0");
    assert_eq!(tag_version("proxy-v"), "");
}

#[test]
fn release_files() {
    assert_eq!(archive_name("linux-amd64"), "aether-proxy-linux-amd64.tar.gz");
    assert_eq!(
        download_url("owner/repo", "proxy-v0.2.1", "SHA256SUMS.txt"),
        "https://github.com/owner/repo/releases/download/proxy-v0.2.1/SHA256SUMS.txt"
    );
    assert!(is_current("proxy-v0.2.0", "0.2.0"));
    assert!(is_current("0.2.0", "0.2.0"));
    assert!(!is_current("proxy-v0.2.1", "0.2.0"));
    assert_eq!(MAX_BINARY_SIZE, 100 * 1024 * 1024);
    assert_eq!(judge_entry(true, true, MAX_BINARY_SIZE), EntryVerdict::Unpack);
    assert_eq!(judge_entry(true, true, MAX_BINARY_SIZE + 1), EntryVerdict::TooLarge(MAX_BINARY_SIZE + 1));
    assert_eq!(judge_entry(false, true, 10), EntryVerdict::Skip);
    assert_eq!(judge_entry(true, false, 10), EntryVerdict::Skip);
    assert_eq!(judge_entry(false, true, u64::MAX), EntryVerdict::Skip);
}

#[test]
fn service_unit_and_prechecks() {
    let unit = unit_file("/etc/aether", "/etc/aether/aether-proxy.toml", "/usr/local/bin/aether-proxy");
    assert_eq!(
        unit,
        "[Unit]\nDescription=Aether Proxy\nAfter=network.target\n\n[Service]\nType=simple\n\
         WorkingDirectory=/etc/aether\nEnvironment=AETHER_PROXY_CONFIG=/etc/aether/aether-proxy.toml\n\
         ExecStart=/usr/local/bin/aether-proxy\nRestart=on-failure\nRestartSec=5\nLimitNOFILE=65535\n\
         UMask=0077\n\n[Install]\nWantedBy=multi-user.target\n"
    );
    assert!(can_install(true, true));
    assert!(!can_install(true, false) && !can_install(false, true) && !can_install(false, false));
    assert_eq!(install_precheck(true, true), Ok(()));
    assert_eq!(install_precheck(false, true), Err("systemd not available".to_string()));
    assert_eq!(install_precheck(false, false), Err("systemd not available".to_string()));
    assert_eq!(install_precheck(true, false), Err("root required, use: sudo ./aether-proxy setup".to_string()));
    assert_eq!(ensure_service_installed(true), Ok(()));
    assert_eq!(
        ensure_service_installed(false),
        Err("service not installed, run `sudo ./aether-proxy setup` first".to_string())
    );
    assert_eq!(ensure_root_and_service(true, true), Ok(()));
    assert_eq!(
        ensure_root_and_service(true, false),
        Err("root required, use: sudo ./aether-proxy <command>".to_string())
    );
    assert_eq!(
        ensure_root_and_service(false, true),
        Err("service not installed, run `sudo ./aether-proxy setup` first".to_string())
    );
    assert_eq!(
        command_line("systemctl", &vec!["enable".to_string(), "--now".to_string(), "aether-proxy".to_string()]),
        "systemctl enable --now aether-proxy"
    );
    assert_eq!(command_line("systemctl", &vec!["daemon-reload".to_string()]), "systemctl daemon-reload");
    assert_eq!(command_line("ls", &vec![]), "ls ");
}
