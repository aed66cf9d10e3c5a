use zb_install::install::{
    add_executable_permission, find_asset, first_release, nth_release, releases_with_asset,
};
use zb_install::release::{Asset, Release};
use zb_install::system::PiModule;
use zb_install::zbcli::ZbcliAsset;
use zb_install::InstallError;

fn release(tag: &str, asset_names: &[&str]) -> Release {
    Release {
        tag_name: tag.to_string(),
        assets: asset_names
            .iter()
            .map(|n| Asset {
                name: n.to_string(),
                browser_download_url: format!("https://example.invalid/{n}"),
            })
            .collect(),
    }
}

#[test]
fn resolution_finds_the_exact_name() {
    let rel = release("zbcli-1.0.0", &["zbcli-rpi4", "zbcli-rpi4-hardware"]);
    let asset = find_asset(&rel, "zbcli-rpi4-hardware").expect("asset should resolve");
    assert_eq!(asset.name, "zbcli-rpi4-hardware");
    assert_eq!(asset.browser_download_url, "https://example.invalid/zbcli-rpi4-hardware");
}

#[test]
fn resolution_takes_the_first_match() {
    let rel = Release {
        tag_name: "zbcli-1.0.0".to_string(),
        assets: vec![
            Asset { name: "dup".to_string(), browser_download_url: "first".to_string() },
            Asset { name: "dup".to_string(), browser_download_url: "second".to_string() },
        ],
    };
    let asset = find_asset(&rel, "dup").expect("asset should resolve");
    assert_eq!(asset.browser_download_url, "first");
}

#[test]
fn resolution_is_case_sensitive() {
    let rel = release("zbcli-1.0.0", &["zbcli-rpi4"]);
    assert_eq!(find_asset(&rel, "ZBCLI-RPI4").unwrap_err(), InstallError::AssetNotFound);
}

#[test]
fn missing_asset_is_not_found() {
    let rel = release("zbcli-1.0.0", &["zbcli-rpi4"]);
    assert_eq!(find_asset(&rel, "zbcli-rpi5").unwrap_err(), InstallError::AssetNotFound);
}

#[test]
fn narrowing_keeps_releases_that_publish_the_asset() {
    let releases = vec![
        release("zbcli-1.2.0", &["zbcli-rpi5"]),
        release("zbcli-1.1.0", &["zbcli-rpi4", "zbcli-rpi5"]),
        release("zbcli-1.0.0", &["zbcli-rpi4"]),
    ];
    let narrowed = releases_with_asset(releases, "zbcli-rpi5");
    let tags: Vec<&str> = narrowed.iter().map(|r| r.tag_name.as_str()).collect();
    assert_eq!(tags, vec!["zbcli-1.2.0", "zbcli-1.1.0"]);
}

#[test]
fn first_release_needs_a_candidate() {
    let narrowed = vec![release("zbcli-1.1.0", &["zbcli-rpi4"])];
    assert_eq!(first_release(&narrowed).unwrap().tag_name, "zbcli-1.1.0");
    let empty: Vec<Release> = Vec::new();
    assert_eq!(first_release(&empty).unwrap_err(), InstallError::AssetNotFound);
}

#[test]
fn nth_release_stays_in_range() {
    let narrowed = vec![
        release("zbcli-1.1.0", &[]),
        release("zbcli-1.0.0", &[]),
    ];
    assert_eq!(nth_release(&narrowed, 1).unwrap().tag_name, "zbcli-1.0.0");
    assert!(nth_release(&narrowed, 2).is_none());
}

#[test]
fn execute_bits_are_added_and_the_rest_kept() {
    assert_eq!(add_executable_permission(0o644), 0o755);
    assert_eq!(add_executable_permission(0o4600), 0o4711);
    assert_eq!(add_executable_permission(0o777), 0o777);
}

#[test]
fn installing_twice_leaves_the_same_bits() {
    // The content written is the downloaded bytes both times; the
    // permission bits settle after the first run.
    let once = add_executable_permission(0o644);
    let twice = add_executable_permission(once);
    assert_eq!(once, twice);
}

#[test]
fn asset_table_pairs_module_and_signing() {
    assert_eq!(ZbcliAsset::get(&PiModule::Rpi4_64, true), ZbcliAsset::Rpi4Hardware);
    assert_eq!(ZbcliAsset::get(&PiModule::Rpi4_64, false), ZbcliAsset::Rpi4);
    assert_eq!(ZbcliAsset::get(&PiModule::Rpi5_64, true), ZbcliAsset::Rpi5Hardware);
    assert_eq!(ZbcliAsset::get(&PiModule::Rpi5_64, false), ZbcliAsset::Rpi5);
    assert_eq!(ZbcliAsset::get(&PiModule::Rpi0_64, true), ZbcliAsset::Rpi0Hardware);
    assert_eq!(ZbcliAsset::get(&PiModule::Rpi0_64, false), ZbcliAsset::Rpi0);
}

#[test]
fn asset_names_spell_the_published_names() {
    assert_eq!(ZbcliAsset::Rpi0.name(), "zbcli-rpizero2w");
    assert_eq!(ZbcliAsset::Rpi0Hardware.name(), "zbcli-rpizero2w-hardware");
    assert_eq!(ZbcliAsset::Rpi4.name(), "zbcli-rpi4");
    assert_eq!(ZbcliAsset::Rpi4Hardware.name(), "zbcli-rpi4-hardware");
    assert_eq!(ZbcliAsset::Rpi5.name(), "zbcli-rpi5");
    assert_eq!(ZbcliAsset::Rpi5Hardware.name(), "zbcli-rpi5-hardware");
}
