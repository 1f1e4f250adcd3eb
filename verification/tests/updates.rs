use stremio_shell::build_info::{build_target, copyright, exe_name, Arch};
use stremio_shell::updater::{starts_search, update_endpoint, update_url, updater_endpoint};

#[test]
fn the_question_for_updates() {
    assert_eq!(
        update_url(0, Arch::X64, false),
        Some("https://www.strem.io/updater/check?product=stremio-shell-ng&arch=x64".to_owned())
    );
    assert_eq!(
        update_url(1, Arch::Arm64, true),
        Some(
            "https://www.stremio.com/updater/check?product=stremio-shell-ng&arch=arm64&rc=true"
                .to_owned()
        )
    );
    assert_eq!(
        update_url(2, Arch::X64, true),
        Some(
            "https://www.stremio.net/updater/check?product=stremio-shell-ng&arch=x64&rc=true"
                .to_owned()
        )
    );
    assert_eq!(
        update_endpoint(2),
        "https://www.stremio.net/updater/check?product=stremio-shell-ng"
    );
}

#[test]
fn a_configured_address_is_asked_as_it_is() {
    assert_eq!(
        updater_endpoint(Some("http://localhost/x".to_owned()), Arch::X64, true),
        Some("http://localhost/x".to_owned())
    );
}

#[test]
fn otherwise_any_of_the_addresses_is_asked() {
    let mut seen = [false, false, false];
    for _ in 0..300 {
        let url = updater_endpoint(None, Arch::X64, false);
        let index = (0..3usize)
            .find(|index| update_url(*index, Arch::X64, false) == url)
            .unwrap();
        seen[index] = true;
    }
    assert_eq!(seen, [true, true, true]);
}

#[test]
fn only_the_signal_starts_the_search() {
    assert!(starts_search("check_for_update"));
    assert!(!starts_search("check_for_updates"));
    assert!(!starts_search(""));
}

#[test]
fn the_targets_of_the_build() {
    let x64 = build_target("x86_64-pc-windows-msvc").unwrap();
    assert_eq!(x64.arch, Arch::X64);
    assert_eq!(x64.arch.name(), "x64");
    assert_eq!(x64.archive, "libmpv-2_x64.zip");
    assert_eq!(x64.link_arg, "/LIBPATH:.\\mpv-x64");
    let arm64 = build_target("aarch64-pc-windows-msvc").unwrap();
    assert_eq!(arm64.arch.name(), "arm64");
    assert_eq!(arm64.archive, "libmpv-2_arm64.zip");
    assert_eq!(arm64.link_arg, "/LIBPATH:.\\mpv-arm64");
    assert!(build_target("x86_64-unknown-linux-gnu").is_none());
}

#[test]
fn the_resources_of_the_build() {
    assert_eq!(copyright(2025), "Copyright © 2025 Smart Code OOD");
    assert_eq!(copyright(-44), "Copyright © -44 Smart Code OOD");
    assert_eq!(
        copyright(i32::MIN),
        "Copyright © -2147483648 Smart Code OOD"
    );
    assert_eq!(exe_name("stremio-shell-ng"), "stremio-shell-ng.exe");
}
