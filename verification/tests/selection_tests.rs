use wasmer_install::error::ErrorKind;
use wasmer_install::platform::{
    arch_matches, host_target, libc_matches, name_matches, os_matches, Arch, Libc, Os, Target,
};
use wasmer_install::release::{
    asset_matches, display_name, select_asset, select_asset_for, Asset, Release,
};
use wasmer_install::text::chars_of;

const LINUX_X64: Target = Target { arch: Arch::X86_64, os: Os::Linux, libc: Libc::Standard };

fn asset(name: &str) -> Asset {
    Asset {
        name: Some(name.to_string()),
        download_url: Some(format!("https://example.com/download/{name}")),
    }
}

fn release(names: &[&str]) -> Release {
    Release {
        name: Some("Release".to_string()),
        tag: "v1.0.0".to_string(),
        assets: names.iter().map(|name| asset(name)).collect(),
    }
}

#[test]
fn architecture_tokens() {
    assert!(arch_matches(&chars_of("wasmer-linux-x86_64.tar.gz"), Arch::X86_64));
    assert!(arch_matches(&chars_of("wasmer-linux-amd64.tar.gz"), Arch::X86_64));
    assert!(!arch_matches(&chars_of("wasmer-linux-aarch64.tar.gz"), Arch::X86_64));
    assert!(arch_matches(&chars_of("wasmer-linux-aarch64.tar.gz"), Arch::Aarch64));
    assert!(arch_matches(&chars_of("wasmer-darwin-arm64.tar.gz"), Arch::Aarch64));
    assert!(!arch_matches(&chars_of("wasmer-darwin-amd64.tar.gz"), Arch::Aarch64));
}

#[test]
fn operating_system_tokens() {
    assert!(os_matches(&chars_of("wasmer-darwin-amd64.tar.gz"), Os::MacOs));
    assert!(os_matches(&chars_of("wasmer-macos-amd64.tar.gz"), Os::MacOs));
    assert!(!os_matches(&chars_of("wasmer-linux-amd64.tar.gz"), Os::MacOs));
    assert!(os_matches(&chars_of("wasmer-windows-amd64.tar.gz"), Os::Windows));
    assert!(!os_matches(&chars_of("wasmer-darwin-amd64.tar.gz"), Os::Windows));
    assert!(os_matches(&chars_of("wasmer-linux-amd64.tar.gz"), Os::Linux));
    assert!(!os_matches(&chars_of("wasmer-windows-amd64.tar.gz"), Os::Linux));
}

#[test]
fn libc_token_is_required_or_forbidden() {
    assert!(libc_matches(&chars_of("wasmer-linux-musl-amd64.tar.gz"), Libc::Musl));
    assert!(!libc_matches(&chars_of("wasmer-linux-amd64.tar.gz"), Libc::Musl));
    assert!(libc_matches(&chars_of("wasmer-linux-amd64.tar.gz"), Libc::Standard));
    assert!(!libc_matches(&chars_of("wasmer-linux-musl-amd64.tar.gz"), Libc::Standard));
}

#[test]
fn name_needs_all_three_predicates() {
    assert!(name_matches("wasmer-linux-amd64.tar.gz", LINUX_X64));
    assert!(!name_matches("wasmer-linux-amd64-musl.tar.gz", LINUX_X64));
    assert!(!name_matches("wasmer-darwin-amd64.tar.gz", LINUX_X64));
    assert!(!name_matches("wasmer-linux-aarch64.tar.gz", LINUX_X64));
    assert!(!name_matches("", LINUX_X64));
    let musl = Target { arch: Arch::X86_64, os: Os::Linux, libc: Libc::Musl };
    assert!(name_matches("wasmer-linux-amd64-musl.tar.gz", musl));
    assert!(!name_matches("wasmer-linux-amd64.tar.gz", musl));
}

#[test]
fn asset_without_a_name_never_matches() {
    let unnamed = Asset { name: None, download_url: Some("https://e/linux-amd64".to_string()) };
    assert!(!asset_matches(&unnamed, LINUX_X64));
    assert!(asset_matches(&asset("wasmer-linux-amd64.tar.gz"), LINUX_X64));
}

#[test]
fn selects_the_only_asset_that_fits() {
    let release = release(&[
        "wasmer-linux-amd64.tar.gz",
        "wasmer-linux-amd64-musl.tar.gz",
        "wasmer-darwin-amd64.tar.gz",
    ]);
    let selected = select_asset(&release, LINUX_X64).unwrap();
    assert_eq!(selected, &release.assets[0]);
    assert_eq!(selected.name.as_deref(), Some("wasmer-linux-amd64.tar.gz"));
}

#[test]
fn selects_whatever_the_position() {
    let release = release(&[
        "wasmer-darwin-arm64.tar.gz",
        "wasmer-windows-amd64.tar.gz",
        "wasmer-darwin-amd64.tar.gz",
        "wasmer-linux-aarch64.tar.gz",
    ]);
    let mac_arm = Target { arch: Arch::Aarch64, os: Os::MacOs, libc: Libc::Standard };
    assert_eq!(select_asset(&release, mac_arm).unwrap(), &release.assets[0]);
    let windows = Target { arch: Arch::X86_64, os: Os::Windows, libc: Libc::Standard };
    assert_eq!(select_asset(&release, windows).unwrap(), &release.assets[1]);
    let linux_arm = Target { arch: Arch::Aarch64, os: Os::Linux, libc: Libc::Standard };
    assert_eq!(select_asset(&release, linux_arm).unwrap(), &release.assets[3]);
}

#[test]
fn no_fitting_asset_is_an_error() {
    let release = release(&["wasmer-darwin-amd64.tar.gz", "wasmer-windows-amd64.tar.gz"]);
    assert_eq!(select_asset(&release, LINUX_X64), Err(ErrorKind::AmbiguousAsset));
    assert_eq!(select_asset(&self::release(&[]), LINUX_X64), Err(ErrorKind::AmbiguousAsset));
}

#[test]
fn two_fitting_assets_are_an_error() {
    let release = release(&["wasmer-linux-amd64.tar.gz", "wasmer-linux-x86_64.tar.gz"]);
    assert_eq!(select_asset(&release, LINUX_X64), Err(ErrorKind::AmbiguousAsset));
    let twice = self::release(&["wasmer-linux-amd64.tar.gz", "wasmer-linux-amd64.tar.gz"]);
    assert_eq!(select_asset(&twice, LINUX_X64), Err(ErrorKind::AmbiguousAsset));
}

#[test]
fn first_match_is_kept_when_later_assets_do_not_fit() {
    let release = release(&[
        "wasmer-darwin-amd64.tar.gz",
        "wasmer-linux-amd64.tar.gz",
        "wasmer-linux-amd64-musl.tar.gz",
        "README",
    ]);
    assert_eq!(select_asset(&release, LINUX_X64).unwrap(), &release.assets[1]);
}

#[test]
fn host_target_knows_the_published_platforms() {
    assert_eq!(host_target("x86_64", "linux", false), Some(LINUX_X64));
    assert_eq!(
        host_target("x86_64", "linux", true),
        Some(Target { arch: Arch::X86_64, os: Os::Linux, libc: Libc::Musl })
    );
    assert_eq!(
        host_target("aarch64", "macos", false),
        Some(Target { arch: Arch::Aarch64, os: Os::MacOs, libc: Libc::Standard })
    );
    assert_eq!(
        host_target("x86_64", "windows", false),
        Some(Target { arch: Arch::X86_64, os: Os::Windows, libc: Libc::Standard })
    );
    assert_eq!(host_target("riscv64", "linux", false), None);
    assert_eq!(host_target("x86_64", "freebsd", false), None);
    assert_eq!(host_target("", "", false), None);
}

#[test]
fn selects_for_a_platform_by_its_names() {
    let release = release(&[
        "wasmer-linux-amd64.tar.gz",
        "wasmer-linux-musl-amd64.tar.gz",
        "wasmer-darwin-arm64.tar.gz",
    ]);
    assert_eq!(select_asset_for(&release, "x86_64", "linux", false), Ok(&release.assets[0]));
    assert_eq!(select_asset_for(&release, "x86_64", "linux", true), Ok(&release.assets[1]));
    assert_eq!(select_asset_for(&release, "aarch64", "macos", false), Ok(&release.assets[2]));
    assert_eq!(
        select_asset_for(&release, "x86_64", "windows", false),
        Err(ErrorKind::AmbiguousAsset)
    );
}

#[test]
fn unknown_platform_selects_nothing() {
    let release = release(&["wasmer-linux-amd64.tar.gz", "wasmer-freebsd-amd64.tar.gz"]);
    assert_eq!(
        select_asset_for(&release, "x86_64", "freebsd", false),
        Err(ErrorKind::AmbiguousAsset)
    );
    assert_eq!(
        select_asset_for(&release, "riscv64", "linux", false),
        Err(ErrorKind::AmbiguousAsset)
    );
}

#[test]
fn display_name_falls_back_to_the_tag() {
    let mut shown = release(&[]);
    assert_eq!(display_name(&shown), "Release");
    shown.name = None;
    assert_eq!(display_name(&shown), "v1.0.0");
}
