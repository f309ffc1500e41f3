use slang_cli::platform::{Platform, SlangArch, SlangOs};
use slang_cli::release::{find_asset, resolve_download_url, Asset, Release, ResolveError};

fn asset(name: &str, url: &str) -> Asset {
    Asset { name: name.to_string(), browser_download_url: url.to_string() }
}

fn sample_release() -> Release {
    Release {
        assets: vec![
            asset("slang-2024.14-linux-aarch64.zip", "https://example.com/la"),
            asset("slang-2024.14-linux-x86_64.tar.gz", "https://example.com/lt"),
            asset("slang-2024.14-linux-x86_64.zip", "https://example.com/lx"),
            asset("slang-2024.14-windows-x86_64.zip", "https://example.com/wx"),
            asset("slang-2024.14-macos-aarch64.zip", "https://example.com/ma"),
        ],
    }
}

#[test]
fn single_match_is_selected() {
    let release = sample_release();
    let linux = Platform { arch: SlangArch::X86_64, os: SlangOs::Linux };
    assert_eq!(resolve_download_url(&release, &linux).unwrap(), "https://example.com/lx");
    let mac = Platform { arch: SlangArch::Aarch64, os: SlangOs::MacOs };
    assert_eq!(resolve_download_url(&release, &mac).unwrap(), "https://example.com/ma");
}

#[test]
fn selection_ignores_order_with_single_match() {
    let mut release = sample_release();
    let linux = Platform { arch: SlangArch::X86_64, os: SlangOs::Linux };
    let first = resolve_download_url(&release, &linux).unwrap();
    release.assets.reverse();
    assert_eq!(resolve_download_url(&release, &linux).unwrap(), first);
    release.assets.rotate_left(2);
    assert_eq!(resolve_download_url(&release, &linux).unwrap(), first);
}

#[test]
fn first_of_several_matches_wins() {
    let release = Release {
        assets: vec![
            asset("a-windows-x86_64.zip", "https://example.com/1"),
            asset("b-windows-x86_64.zip", "https://example.com/2"),
        ],
    };
    assert_eq!(find_asset(&release, "windows-x86_64.zip"), Some(0));
}

#[test]
fn no_match_fails() {
    let release = sample_release();
    let win_arm = Platform { arch: SlangArch::Aarch64, os: SlangOs::Windows };
    assert_eq!(
        resolve_download_url(&release, &win_arm),
        Err(ResolveError::NoMatchingAsset("windows-aarch64.zip".to_string()))
    );
    let empty = Release { assets: vec![] };
    assert_eq!(find_asset(&empty, "linux-x86_64.zip"), None);
}
