use binup::matcher::Matcher;
use binup::project::Project;
use binup::release::{
    binary_matcher_pattern, generate_binary_matcher, generate_binary_matcher_inner,
    escape, generate_release_matchers, get_name_matcher, parse_arch, parse_os, parse_platform,
    release_patterns, Arch, Asset, Os,
    Release, SelectError, Timestamp,
};
use binup::version::ReleaseVersion;

const PLATFORMS: [(&str, &str); 4] =
    [("linux", "x86_64"), ("linux", "aarch64"), ("macos", "x86_64"), ("macos", "aarch64")];

fn release(project: &str, tag: &str, assets: &[&str]) -> Release {
    let project = Project {
        name: project.to_owned(),
        owner: "owner".to_owned(),
        changelog: format!("https://github.com/owner/{project}/releases"),
    };
    let assets = assets
        .iter()
        .enumerate()
        .map(|(index, name)| Asset {
            name: name.to_string(),
            time: Timestamp { seconds: 1_700_000_000 + index as i64, nanoseconds: 0 },
            url: format!("https://example.com/{name}"),
        })
        .collect();
    Release::new(project, tag, assets)
}

fn matching<'a>(matcher: &Matcher, assets: &[&'a str]) -> Vec<&'a str> {
    assets.iter().copied().filter(|asset| matcher.matches(asset)).collect()
}

/// Checks that, for each platform, the matchers before `matcher_index` match
/// nothing and that the one at `matcher_index` matches the expected asset
/// alone; and that the release then selects that asset.
fn check_release_matcher(
    binary_name: &str,
    project_name: &str,
    assets: &[&str],
    matches: &[(&str, &str, &str)],
    matcher_index: usize,
) {
    for (os, arch, expected) in matches {
        let matchers = generate_release_matchers(binary_name, project_name, os, arch).unwrap();
        for (index, matcher) in matchers[..matcher_index].iter().enumerate() {
            assert_eq!(
                matching(matcher, assets),
                Vec::<&str>::new(),
                "#{index} {} on {os}/{arch}",
                matcher.to_string()
            );
        }
        let matcher = &matchers[matcher_index];
        assert_eq!(matching(matcher, assets), [*expected], "{}", matcher.to_string());

        let release = release(project_name, "v1.0.0", assets);
        let asset = release.select_asset(binary_name, None, os, arch).unwrap();
        assert_eq!(asset.name, *expected);
    }
}

#[test]
fn platform_support() {
    for (os, arch) in PLATFORMS {
        assert!(
            generate_release_matchers("", "", os, arch).is_some(),
            "Unsupported OS/architecture: {os}/{arch}",
        );
        assert!(release_patterns("tool", "project", os, arch).is_some());
    }
}

#[test]
fn unsupported_platforms_have_no_matchers() {
    for (os, arch) in [
        ("windows", "x86_64"),
        ("linux", "x86"),
        ("linux", "arm"),
        ("freebsd", "aarch64"),
        ("Linux", "x86_64"),
        ("linux", "X86_64"),
        ("", ""),
        ("x86_64", "linux"),
    ] {
        assert!(generate_release_matchers("tool", "tool", os, arch).is_none(), "{os}/{arch}");
        assert!(release_patterns("tool", "tool", os, arch).is_none(), "{os}/{arch}");
        assert_eq!(parse_platform(os, arch), None);
    }
    assert_eq!(parse_platform("linux", "aarch64"), Some((Os::Linux, Arch::AArch64)));
    assert_eq!(parse_platform("macos", "x86_64"), Some((Os::MacOs, Arch::X86_64)));
}

#[test]
fn name_matcher_takes_the_name_literally() {
    assert_eq!(get_name_matcher("tool"), "tool");
    assert_eq!(get_name_matcher(""), "");
    assert_eq!(get_name_matcher("a.b+c"), "a\\.b\\+c");
    assert_eq!(get_name_matcher("(x)[y]{z}^$|?*#&~\\"), "\\(x\\)\\[y\\]\\{z\\}\\^\\$\\|\\?\\*\\#\\&\\~\\\\");
}

#[test]
fn name_matcher_knows_both_spellings() {
    assert_eq!(get_name_matcher("a-b"), "(?:a\\-b|a_b)");
    assert_eq!(get_name_matcher("a_b"), "(?:a\\-b|a_b)");
    assert_eq!(get_name_matcher("a-b_c.d"), "(?:a\\-b\\-c\\.d|a_b_c\\.d)");
}

#[test]
fn release_patterns_for_one_name() {
    let patterns = release_patterns("binup", "binup", "linux", "x86_64").unwrap();
    let platform = "(?:linux[-._](?:amd64|x64|x86_64)|(?:amd64|x64|x86_64)[-._]linux)";
    let archive = format!("[-._]{platform}(?:[-._][^/]+)?\\.tar\\.[^/.]+$");
    assert_eq!(
        patterns,
        [
            format!("^binup(?:[-._][^/]+)?{archive}"),
            format!("^binup[-._]{platform}(?:\\.(?:gz|bz2|xz))?$"),
            archive.clone(),
            "^binup[-._](?:amd64|x64|x86_64)(?:\\.(?:gz|bz2|xz))?$".to_owned(),
            "^binup(?:\\.(?:gz|bz2|xz))?$".to_owned(),
        ]
    );
}

#[test]
fn release_patterns_for_two_names() {
    let patterns = release_patterns("node-exporter", "prom", "macos", "aarch64").unwrap();
    let os = "(?:apple-darwin|darwin|macos)";
    let arch = "(?:aarch64|arm64)";
    let platform = format!("(?:{os}[-._]{arch}|{arch}[-._]{os})");
    let archive = format!("[-._]{platform}(?:[-._][^/]+)?\\.tar\\.[^/.]+$");
    let binary = "(?:node\\-exporter|node_exporter)";
    let compression = "(?:\\.(?:gz|bz2|xz))?";
    assert_eq!(
        patterns,
        [
            format!("^{binary}(?:[-._][^/]+)?{archive}"),
            format!("^prom(?:[-._][^/]+)?{archive}"),
            format!("^{binary}[-._]{platform}{compression}$"),
            format!("^prom[-._]{platform}{compression}$"),
            archive.clone(),
            format!("^{binary}[-._]{arch}{compression}$"),
            format!("^prom[-._]{arch}{compression}$"),
            format!("^{binary}{compression}$"),
            format!("^prom{compression}$"),
        ]
    );
    let matchers = generate_release_matchers("node-exporter", "prom", "macos", "aarch64").unwrap();
    let texts: Vec<String> = matchers.iter().map(|matcher| matcher.to_string()).collect();
    let expected: Vec<String> = patterns.iter().map(|pattern| format!("~{pattern}")).collect();
    assert_eq!(texts, expected);
}

#[test]
fn release_matcher_binup() {
    check_release_matcher(
        "binup",
        "binup",
        &[
            "binup-linux-x64-v1.1.0.tar.bz2",
            "binup-macos-arm64-v1.1.0.tar.bz2",
            "binup-macos-x64-v1.1.0.tar.bz2",
        ],
        &[
            ("linux", "x86_64", "binup-linux-x64-v1.1.0.tar.bz2"),
            ("macos", "x86_64", "binup-macos-x64-v1.1.0.tar.bz2"),
            ("macos", "aarch64", "binup-macos-arm64-v1.1.0.tar.bz2"),
        ],
        0,
    );
}

#[test]
fn release_matcher_binup_with_version_first() {
    let assets = [
        "binup-v1.1.0-linux-x64.tar.bz2",
        "binup-v1.1.0-macos-arm64.tar.bz2",
        "binup-v1.1.0-macos-x64.tar.bz2",
    ];
    check_release_matcher(
        "binup",
        "binup",
        &assets,
        &[
            ("linux", "x86_64", "binup-v1.1.0-linux-x64.tar.bz2"),
            ("macos", "x86_64", "binup-v1.1.0-macos-x64.tar.bz2"),
            ("macos", "aarch64", "binup-v1.1.0-macos-arm64.tar.bz2"),
        ],
        0,
    );
    // The bare-binary matchers, which come later, match none of the archives.
    for (os, arch) in PLATFORMS {
        let matchers = generate_release_matchers("binup", "binup", os, arch).unwrap();
        assert_eq!(matchers.len(), 5);
        for index in [1, 3, 4] {
            assert_eq!(matching(&matchers[index], &assets), Vec::<&str>::new());
        }
    }
    // There is no asset for Linux on AArch64, and none is chosen.
    let release = release("binup", "v1.1.0", &assets);
    assert!(matches!(
        release.select_asset("binup", None, "linux", "aarch64"),
        Err(SelectError::NoAutomaticChoice { .. })
    ));
}

#[test]
fn release_matcher_dnscrypt_proxy() {
    check_release_matcher(
        "dnscrypt-proxy",
        "dnscrypt-proxy",
        &[
            "dnscrypt-proxy-android_arm-2.1.5.zip",
            "dnscrypt-proxy-android_arm-2.1.5.zip.minisig",
            "dnscrypt-proxy-android_arm64-2.1.5.zip",
            "dnscrypt-proxy-android_arm64-2.1.5.zip.minisig",
            "dnscrypt-proxy-android_i386-2.1.5.zip",
            "dnscrypt-proxy-android_i386-2.1.5.zip.minisig",
            "dnscrypt-proxy-android_x86_64-2.1.5.zip",
            "dnscrypt-proxy-android_x86_64-2.1.5.zip.minisig",
            "dnscrypt-proxy-dragonflybsd_amd64-2.1.5.tar.gz",
            "dnscrypt-proxy-dragonflybsd_amd64-2.1.5.tar.gz.minisig",
            "dnscrypt-proxy-freebsd_amd64-2.1.5.tar.gz",
            "dnscrypt-proxy-freebsd_amd64-2.1.5.tar.gz.minisig",
            "dnscrypt-proxy-freebsd_arm-2.1.5.tar.gz",
            "dnscrypt-proxy-freebsd_arm-2.1.5.tar.gz.minisig",
            "dnscrypt-proxy-freebsd_i386-2.1.5.tar.gz",
            "dnscrypt-proxy-freebsd_i386-2.1.5.tar.gz.minisig",
            "dnscrypt-proxy-linux_arm-2.1.5.tar.gz",
            "dnscrypt-proxy-linux_arm-2.1.5.tar.gz.minisig",
            "dnscrypt-proxy-linux_arm64-2.1.5.tar.gz",
            "dnscrypt-proxy-linux_arm64-2.1.5.tar.gz.minisig",
            "dnscrypt-proxy-linux_i386-2.1.5.tar.gz",
            "dnscrypt-proxy-linux_i386-2.1.5.tar.gz.minisig",
            "dnscrypt-proxy-linux_mips-2.1.5.tar.gz",
            "dnscrypt-proxy-linux_mips-2.1.5.tar.gz.minisig",
            "dnscrypt-proxy-linux_mips64-2.1.5.tar.gz",
            "dnscrypt-proxy-linux_mips64-2.1.5.tar.gz.minisig",
            "dnscrypt-proxy-linux_mips64le-2.1.5.tar.gz",
            "dnscrypt-proxy-linux_mips64le-2.1.5.tar.gz.minisig",
            "dnscrypt-proxy-linux_mipsle-2.1.5.tar.gz",
            "dnscrypt-proxy-linux_mipsle-2.1.5.tar.gz.minisig",
            "dnscrypt-proxy-linux_riscv64-2.1.5.tar.gz",
            "dnscrypt-proxy-linux_riscv64-2.1.5.tar.gz.minisig",
            "dnscrypt-proxy-linux_x86_64-2.1.5.tar.gz",
            "dnscrypt-proxy-linux_x86_64-2.1.5.tar.gz.minisig",
            "dnscrypt-proxy-macos_arm64-2.1.5.zip",
            "dnscrypt-proxy-macos_arm64-2.1.5.zip.minisig",
            "dnscrypt-proxy-macos_x86_64-2.1.5.zip",
            "dnscrypt-proxy-macos_x86_64-2.1.5.zip.minisig",
            "dnscrypt-proxy-netbsd_amd64-2.1.5.tar.gz",
            "dnscrypt-proxy-netbsd_amd64-2.1.5.tar.gz.minisig",
            "dnscrypt-proxy-netbsd_i386-2.1.5.tar.gz",
            "dnscrypt-proxy-netbsd_i386-2.1.5.tar.gz.minisig",
            "dnscrypt-proxy-openbsd_amd64-2.1.5.tar.gz",
            "dnscrypt-proxy-openbsd_amd64-2.1.5.tar.gz.minisig",
            "dnscrypt-proxy-openbsd_i386-2.1.5.tar.gz",
            "dnscrypt-proxy-openbsd_i386-2.1.5.tar.gz.minisig",
            "dnscrypt-proxy-solaris_amd64-2.1.5.tar.gz",
            "dnscrypt-proxy-solaris_amd64-2.1.5.tar.gz.minisig",
            "dnscrypt-proxy-win32-2.1.5.zip",
            "dnscrypt-proxy-win32-2.1.5.zip.minisig",
            "dnscrypt-proxy-win64-2.1.5.zip",
            "dnscrypt-proxy-win64-2.1.5.zip.minisig",
        ],
        &[("linux", "x86_64", "dnscrypt-proxy-linux_x86_64-2.1.5.tar.gz")],
        0,
    );
}

#[test]
fn release_matcher_prometheus_nginxlog_exporter() {
    check_release_matcher(
        "prometheus-nginxlog-exporter",
        "prometheus-nginxlog-exporter",
        &[
            "checksums.txt",
            "prometheus-nginxlog-exporter_1.11.0_darwin_amd64.tar.gz",
            "prometheus-nginxlog-exporter_1.11.0_darwin_arm64.tar.gz",
            "prometheus-nginxlog-exporter_1.11.0_linux_amd64.deb",
            "prometheus-nginxlog-exporter_1.11.0_linux_amd64.rpm",
            "prometheus-nginxlog-exporter_1.11.0_linux_amd64.tar.gz",
            "prometheus-nginxlog-exporter_1.11.0_linux_arm64.deb",
            "prometheus-nginxlog-exporter_1.11.0_linux_arm64.rpm",
            "prometheus-nginxlog-exporter_1.11.0_linux_arm64.tar.gz",
        ],
        &[
            ("linux", "x86_64", "prometheus-nginxlog-exporter_1.11.0_linux_amd64.tar.gz"),
            ("macos", "x86_64", "prometheus-nginxlog-exporter_1.11.0_darwin_amd64.tar.gz"),
            ("macos", "aarch64", "prometheus-nginxlog-exporter_1.11.0_darwin_arm64.tar.gz"),
        ],
        0,
    );
}

#[test]
fn release_matcher_node_exporter() {
    check_release_matcher(
        "prometheus-node-exporter",
        "node_exporter",
        &[
            "node_exporter-1.8.2.darwin-amd64.tar.gz",
            "node_exporter-1.8.2.darwin-arm64.tar.gz",
            "node_exporter-1.8.2.linux-386.tar.gz",
            "node_exporter-1.8.2.linux-amd64.tar.gz",
            "node_exporter-1.8.2.linux-arm64.tar.gz",
            "node_exporter-1.8.2.linux-armv5.tar.gz",
            "node_exporter-1.8.2.linux-armv6.tar.gz",
            "node_exporter-1.8.2.linux-armv7.tar.gz",
            "node_exporter-1.8.2.linux-mips.tar.gz",
            "node_exporter-1.8.2.linux-mips64.tar.gz",
            "node_exporter-1.8.2.linux-mips64le.tar.gz",
            "node_exporter-1.8.2.linux-mipsle.tar.gz",
            "node_exporter-1.8.2.linux-ppc64.tar.gz",
            "node_exporter-1.8.2.linux-ppc64le.tar.gz",
            "node_exporter-1.8.2.linux-riscv64.tar.gz",
            "node_exporter-1.8.2.linux-s390x.tar.gz",
            "node_exporter-1.8.2.netbsd-386.tar.gz",
            "node_exporter-1.8.2.netbsd-amd64.tar.gz",
            "node_exporter-1.8.2.openbsd-amd64.tar.gz",
            "sha256sums.txt",
        ],
        &[
            ("linux", "x86_64", "node_exporter-1.8.2.linux-amd64.tar.gz"),
            ("macos", "x86_64", "node_exporter-1.8.2.darwin-amd64.tar.gz"),
            ("macos", "aarch64", "node_exporter-1.8.2.darwin-arm64.tar.gz"),
        ],
        1,
    );
}

const SHADOWSOCKS: [&str; 30] = [
    "shadowsocks-v1.20.3.aarch64-apple-darwin.tar.xz",
    "shadowsocks-v1.20.3.aarch64-apple-darwin.tar.xz.sha256",
    "shadowsocks-v1.20.3.aarch64-unknown-linux-gnu.tar.xz",
    "shadowsocks-v1.20.3.aarch64-unknown-linux-gnu.tar.xz.sha256",
    "shadowsocks-v1.20.3.aarch64-unknown-linux-musl.tar.xz",
    "shadowsocks-v1.20.3.aarch64-unknown-linux-musl.tar.xz.sha256",
    "shadowsocks-v1.20.3.arm-unknown-linux-gnueabi.tar.xz",
    "shadowsocks-v1.20.3.arm-unknown-linux-gnueabi.tar.xz.sha256",
    "shadowsocks-v1.20.3.arm-unknown-linux-gnueabihf.tar.xz",
    "shadowsocks-v1.20.3.arm-unknown-linux-gnueabihf.tar.xz.sha256",
    "shadowsocks-v1.20.3.arm-unknown-linux-musleabi.tar.xz",
    "shadowsocks-v1.20.3.arm-unknown-linux-musleabi.tar.xz.sha256",
    "shadowsocks-v1.20.3.arm-unknown-linux-musleabihf.tar.xz",
    "shadowsocks-v1.20.3.arm-unknown-linux-musleabihf.tar.xz.sha256",
    "shadowsocks-v1.20.3.armv7-unknown-linux-gnueabihf.tar.xz",
    "shadowsocks-v1.20.3.armv7-unknown-linux-gnueabihf.tar.xz.sha256",
    "shadowsocks-v1.20.3.armv7-unknown-linux-musleabihf.tar.xz",
    "shadowsocks-v1.20.3.armv7-unknown-linux-musleabihf.tar.xz.sha256",
    "shadowsocks-v1.20.3.i686-unknown-linux-musl.tar.xz",
    "shadowsocks-v1.20.3.i686-unknown-linux-musl.tar.xz.sha256",
    "shadowsocks-v1.20.3.x86_64-apple-darwin.tar.xz",
    "shadowsocks-v1.20.3.x86_64-apple-darwin.tar.xz.sha256",
    "shadowsocks-v1.20.3.x86_64-pc-windows-gnu.zip",
    "shadowsocks-v1.20.3.x86_64-pc-windows-gnu.zip.sha256",
    "shadowsocks-v1.20.3.x86_64-pc-windows-msvc.zip",
    "shadowsocks-v1.20.3.x86_64-pc-windows-msvc.zip.sha256",
    "shadowsocks-v1.20.3.x86_64-unknown-linux-gnu.tar.xz",
    "shadowsocks-v1.20.3.x86_64-unknown-linux-gnu.tar.xz.sha256",
    "shadowsocks-v1.20.3.x86_64-unknown-linux-musl.tar.xz",
    "shadowsocks-v1.20.3.x86_64-unknown-linux-musl.tar.xz.sha256",
];

#[test]
fn release_matcher_shadowsocks() {
    // The archives are not named after the binary or the project: they are
    // found by the platform alone, which is the fifth matcher of nine.
    check_release_matcher(
        "ssservice",
        "shadowsocks-rust",
        &SHADOWSOCKS,
        &[
            ("macos", "x86_64", "shadowsocks-v1.20.3.x86_64-apple-darwin.tar.xz"),
            ("macos", "aarch64", "shadowsocks-v1.20.3.aarch64-apple-darwin.tar.xz"),
        ],
        4,
    );
}

const TTYD: [&str; 12] = [
    "SHA256SUMS",
    "ttyd.aarch64",
    "ttyd.arm",
    "ttyd.armhf",
    "ttyd.i686",
    "ttyd.mips",
    "ttyd.mips64",
    "ttyd.mips64el",
    "ttyd.mipsel",
    "ttyd.s390x",
    "ttyd.win32.exe",
    "ttyd.x86_64",
];

#[test]
fn release_matcher_ttyd_by_architecture_alone() {
    // One name, so five matchers: the one that goes by the architecture
    // alone is the fourth.
    check_release_matcher(
        "ttyd",
        "ttyd",
        &TTYD,
        &[
            ("linux", "x86_64", "ttyd.x86_64"),
            ("linux", "aarch64", "ttyd.aarch64"),
            ("macos", "x86_64", "ttyd.x86_64"),
            ("macos", "aarch64", "ttyd.aarch64"),
        ],
        3,
    );
}

#[test]
fn release_matcher_ttyd_beside_archives() {
    // Archives of the sources and of other platforms change nothing.
    let mut assets = TTYD.to_vec();
    assets.extend([
        "ttyd-1.7.7.tar.gz",
        "ttyd-1.7.7-windows-x86_64.tar.gz",
        "ttyd-1.7.7-freebsd-aarch64.tar.gz",
    ]);
    check_release_matcher(
        "ttyd",
        "ttyd",
        &assets,
        &[("linux", "x86_64", "ttyd.x86_64"), ("macos", "aarch64", "ttyd.aarch64")],
        3,
    );
}

#[test]
fn release_matcher_bare_binaries() {
    check_release_matcher(
        "tool",
        "tool",
        &["tool-linux-amd64", "tool-linux-arm64.gz", "tool_darwin_amd64.xz", "tool.darwin.arm64"],
        &[
            ("linux", "x86_64", "tool-linux-amd64"),
            ("linux", "aarch64", "tool-linux-arm64.gz"),
            ("macos", "x86_64", "tool_darwin_amd64.xz"),
            ("macos", "aarch64", "tool.darwin.arm64"),
        ],
        1,
    );
    check_release_matcher(
        "tool",
        "tool",
        &["tool.bz2", "tool.sha256", "other"],
        &[("linux", "x86_64", "tool.bz2"), ("macos", "aarch64", "tool.bz2")],
        4,
    );
}

#[test]
fn a_matcher_with_several_matches_is_passed_over() {
    // Two archives for the platform: neither the name nor the platform
    // decides, and the bare binary is chosen.
    let assets = [
        "tool-1.0-linux-x86_64-gnu.tar.gz",
        "tool-1.0-linux-x86_64-musl.tar.gz",
        "tool.x86_64",
        "tool.aarch64",
    ];
    let release = release("tool", "v1.0", &assets);
    let asset = release.select_asset("tool", None, "linux", "x86_64").unwrap();
    assert_eq!(asset.name, "tool.x86_64");
    let matchers = generate_release_matchers("tool", "tool", "linux", "x86_64").unwrap();
    assert_eq!(release.first_sole_match(&matchers), Some(2));
    assert_eq!(release.matching(&matchers[0]), [0, 1]);
    assert_eq!(release.matching(&matchers[2]), [0, 1]);
    assert_eq!(release.matching(&matchers[3]), [2]);
}

fn check_binary_matcher(binary_name: &str, project_name: &str, file: &str) {
    let matcher = generate_binary_matcher_inner(binary_name, project_name).unwrap();
    assert!(matcher.matches(file), "{} vs {file}", matcher.to_string());
    let nested = format!("directory/sub-directory/{file}");
    assert!(matcher.matches(&nested), "{} vs {nested}", matcher.to_string());
}

#[test]
fn binary_matcher_same_names() {
    check_binary_matcher("tool", "tool", "tool");
}

#[test]
fn binary_matcher_binary_name() {
    check_binary_matcher("binary", "project", "binary");
    check_binary_matcher("binary", "project", "directory/binary");
    check_binary_matcher("binary", "project", "directory/sub-directory/binary");
}

#[test]
fn binary_matcher_project_name() {
    check_binary_matcher("binary", "project", "project");
    check_binary_matcher("binary", "project", "directory/project");
    check_binary_matcher("binary", "project", "directory/sub-directory/project");
}

#[test]
fn binary_matcher_spellings() {
    check_binary_matcher("b-b-b", "p-p-p", "b-b-b");
    check_binary_matcher("b-b-b", "p-p-p", "b_b_b");
    check_binary_matcher("b_b_b", "p-p-p", "b-b-b");
    check_binary_matcher("b-b-b", "p-p-p", "p-p-p");
    check_binary_matcher("b-b-b", "p-p-p", "p_p_p");
    check_binary_matcher("b-b-b", "p_p_p", "p-p-p");
}

#[test]
fn binary_matcher_rejects_other_files() {
    let matcher = generate_binary_matcher_inner("b-b-b", "p-p-p").unwrap();
    for file in
        ["README.md", "b-b-b.txt", "xb-b-b", "b-b_b", "b-b-b/", "b-b-b/other", "dir/b-b-bx", ""]
    {
        assert!(!matcher.matches(file), "{file}");
    }
}

#[test]
fn binary_matcher_patterns() {
    assert_eq!(binary_matcher_pattern("tool", "tool"), "(?:^|/)tool$");
    assert_eq!(binary_matcher_pattern("a-b", "a_b"), "(?:^|/)(?:a\\-b|a_b)$");
    assert_eq!(binary_matcher_pattern("binary", "project"), "(?:^|/)(?:binary|project)$");
    let release = release("project", "v1", &["a"]);
    assert_eq!(
        generate_binary_matcher("binary", &release).unwrap().to_string(),
        "~(?:^|/)(?:binary|project)$"
    );
}

#[test]
fn release_new_reads_the_tag() {
    let release = release("tool", "v1.7.2", &["a", "b"]);
    assert_eq!(release.version.to_string(), "1.7.2");
    assert!(matches!(release.version, ReleaseVersion::Version(_)));
    assert_eq!(release.names(), ["a", "b"]);
    assert_eq!(release.project.full_name(), "owner/tool");
    assert!(matches!(self::release("tool", "nightly", &[]).version, ReleaseVersion::Tag(_)));
}

#[test]
fn select_asset_without_assets() {
    let release = release("tool", "v1.2.3", &[]);
    let matcher = Matcher::new("*").unwrap();
    for explicit in [None, Some(&matcher)] {
        let error = release.select_asset("tool", explicit, "linux", "x86_64").unwrap_err();
        assert_eq!(
            error,
            SelectError::NoAssets { project: "owner/tool".to_owned(), version: "1.2.3".to_owned() }
        );
        assert_eq!(error.message(), "The latest release of owner/tool (1.2.3) has no assets");
    }
}

#[test]
fn select_asset_by_matcher_with_no_match() {
    let release = release("tool", "v1", &["tool-linux.tar.gz", "tool-macos.tar.gz", "notes.txt"]);
    let matcher = Matcher::new("*.zip").unwrap();
    let error = release.select_asset("tool", Some(&matcher), "linux", "x86_64").unwrap_err();
    assert_eq!(
        error.message(),
        "The specified release matcher matches none of the following assets:\n* tool-linux.tar.gz\n* tool-macos.tar.gz\n* notes.txt"
    );
}

#[test]
fn select_asset_by_matcher_with_several_matches() {
    let release = release("tool", "v1", &["tool-linux.tar.gz", "notes.txt", "tool-macos.tar.gz"]);
    let matcher = Matcher::new("~\\.tar\\.gz$").unwrap();
    let error = release.select_asset("tool", Some(&matcher), "linux", "x86_64").unwrap_err();
    assert_eq!(
        error,
        SelectError::MultipleMatches {
            matches: vec!["tool-linux.tar.gz".to_owned(), "tool-macos.tar.gz".to_owned()]
        }
    );
    assert_eq!(
        error.message(),
        "The specified release matcher matches multiple assets:\n* tool-linux.tar.gz\n* tool-macos.tar.gz"
    );
}

#[test]
fn select_asset_by_matcher_with_one_match() {
    let release = release("tool", "v1", &["tool-linux.tar.gz", "notes.txt", "tool-macos.tar.gz"]);
    let matcher = Matcher::new("*macos*").unwrap();
    // The user's matcher decides, whatever the platform is.
    for (os, arch) in [("linux", "x86_64"), ("windows", "x86")] {
        let asset = release.select_asset("tool", Some(&matcher), os, arch).unwrap();
        assert_eq!(asset.name, "tool-macos.tar.gz");
        assert_eq!(asset.url, "https://example.com/tool-macos.tar.gz");
        assert_eq!(asset.time, Timestamp { seconds: 1_700_000_002, nanoseconds: 0 });
    }
}

#[test]
fn select_asset_without_a_choice() {
    let release = release("tool", "v1", &["tool.zip", "tool.deb"]);
    // On a supported platform nothing matches; an unsupported one has no
    // matchers to try.
    for (os, arch) in [("linux", "x86_64"), ("windows", "x86_64")] {
        let error = release.select_asset("tool", None, os, arch).unwrap_err();
        assert_eq!(
            error.message(),
            "Unable to automatically choose the proper release from the following assets:\n* tool.zip\n* tool.deb\n\nRelease matcher should be specified."
        );
    }
}

#[test]
fn pick_matched_goes_by_the_number_of_matches() {
    let release = release("tool", "v1", &["a", "b", "c"]);
    assert_eq!(release.pick_matched(&vec![1]).unwrap().name, "b");
    assert!(matches!(release.pick_matched(&vec![]), Err(SelectError::NoMatch { .. })));
    assert_eq!(
        release.pick_matched(&vec![0, 2]).unwrap_err(),
        SelectError::MultipleMatches { matches: vec!["a".to_owned(), "c".to_owned()] }
    );
    assert_eq!(release.names_at(&vec![2, 0]), ["c", "a"]);
}

#[test]
fn escape_puts_a_backslash_before_meta_characters() {
    assert_eq!(escape("tool"), "tool");
    assert_eq!(escape(""), "");
    assert_eq!(escape("a.b-c_d"), "a\\.b\\-c_d");
    assert_eq!(escape("\\.+*?()|[]{}^$#&-~"), "\\\\\\.\\+\\*\\?\\(\\)\\|\\[\\]\\{\\}\\^\\$\\#\\&\\-\\~");
    assert_eq!(escape("%/!\"e é"), "%/!\"e é");
    // What is escaped is taken literally by a regular expression.
    for name in ["a.b", "c++", "x(1)", "[y]", "a|b", "^$", "é-è"] {
        let matcher = Matcher::new(&format!("~^{}$", escape(name))).unwrap();
        assert!(matcher.matches(name), "{name}");
    }
    assert!(!Matcher::new(&format!("~^{}$", escape("a.b"))).unwrap().matches("axb"));
}

#[test]
fn systems_and_architectures_by_name() {
    assert_eq!(parse_os("linux"), Some(Os::Linux));
    assert_eq!(parse_os("macos"), Some(Os::MacOs));
    assert_eq!(parse_arch("aarch64"), Some(Arch::AArch64));
    assert_eq!(parse_arch("x86_64"), Some(Arch::X86_64));
    // Known to the world, and not supported.
    for name in ["windows", "freebsd", "android", "ios", "none"] {
        assert_eq!(parse_os(name), None, "{name}");
    }
    for name in ["x86", "arm", "riscv64", "wasm32"] {
        assert_eq!(parse_arch(name), None, "{name}");
    }
    // Not known at all.
    for name in ["", "Linux", "linux ", "macOS", "darwin", "amd64", "arm64"] {
        assert_eq!(parse_os(name), None, "{name}");
        assert_eq!(parse_arch(name), None, "{name}");
    }
}
