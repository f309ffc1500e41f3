use slang_cli::platform::{parse_target, Platform, PlatformError, SlangArch, SlangOs};

#[test]
fn parse_linux_x86_64() {
    let p = parse_target("x86_64-unknown-linux-gnu").unwrap();
    assert_eq!(p, Platform { arch: SlangArch::X86_64, os: SlangOs::Linux });
    assert_eq!(p.asset_suffix(), "linux-x86_64.zip");
}

#[test]
fn parse_windows_x86_64() {
    let p = parse_target("x86_64-pc-windows-msvc").unwrap();
    assert_eq!(p, Platform { arch: SlangArch::X86_64, os: SlangOs::Windows });
    assert_eq!(p.asset_suffix(), "windows-x86_64.zip");
}

#[test]
fn parse_darwin_aarch64() {
    let p = parse_target("aarch64-apple-darwin").unwrap();
    assert_eq!(p, Platform { arch: SlangArch::Aarch64, os: SlangOs::MacOs });
    assert_eq!(p.asset_suffix(), "macos-aarch64.zip");
}

#[test]
fn all_supported_pairs_have_suffix() {
    let archs = [("x86_64", "x86_64"), ("aarch64", "aarch64")];
    let oses = [("linux", "linux"), ("windows", "windows"), ("darwin", "macos")];
    for (arch_field, arch_token) in archs.iter() {
        for (os_field, os_token) in oses.iter() {
            let triple = format!("{}-vendor-{}-abi", arch_field, os_field);
            let p = parse_target(&triple).unwrap();
            assert_eq!(p.asset_suffix(), format!("{}-{}.zip", os_token, arch_token));
        }
    }
}

#[test]
fn unknown_arch_is_rejected() {
    assert_eq!(
        parse_target("riscv64gc-unknown-linux-gnu"),
        Err(PlatformError::UnknownArch("riscv64gc".to_string()))
    );
}

#[test]
fn unknown_os_is_rejected() {
    assert_eq!(
        parse_target("x86_64-unknown-freebsd"),
        Err(PlatformError::UnknownOs("freebsd".to_string()))
    );
}

#[test]
fn short_triple_is_rejected() {
    assert_eq!(
        parse_target("x86_64-linux"),
        Err(PlatformError::MalformedTriple("x86_64-linux".to_string()))
    );
    assert_eq!(parse_target(""), Err(PlatformError::MalformedTriple(String::new())));
}

#[test]
fn os_and_arch_tokens() {
    assert_eq!(SlangOs::from_str("darwin"), Some(SlangOs::MacOs));
    assert_eq!(SlangOs::from_str("macos"), None);
    assert_eq!(SlangOs::MacOs.to_str(), "macos");
    assert_eq!(SlangArch::from_str("aarch64"), Some(SlangArch::Aarch64));
    assert_eq!(SlangArch::from_str("arm64"), None);
    assert_eq!(SlangArch::X86_64.to_str(), "x86_64");
}
