use story_launcher::archive::{archive_format, ArchiveFormat};
use story_launcher::release::{find_app_asset, GitHubAsset, GitHubRelease};

fn asset(name: &str) -> GitHubAsset {
    GitHubAsset {
        name: name.to_string(),
        browser_download_url: format!("https://example.test/download/{}", name),
    }
}

fn release(names: &[&str]) -> GitHubRelease {
    GitHubRelease {
        tag_name: "v1.0.0".to_string(),
        assets: names.iter().map(|n| asset(n)).collect(),
    }
}

fn chosen(names: &[&str]) -> Option<String> {
    find_app_asset(&release(names)).map(|a| a.name.clone())
}

#[test]
fn tar_gz_wins_over_dmg_listed_first() {
    assert_eq!(
        chosen(&["tool.dmg", "tool.app.tar.gz"]),
        Some("tool.app.tar.gz".to_string())
    );
}

#[test]
fn tar_gz_wins_over_dmg_listed_last() {
    assert_eq!(
        chosen(&["tool.app.tar.gz", "tool.dmg"]),
        Some("tool.app.tar.gz".to_string())
    );
}

#[test]
fn tar_gz_wins_over_zip_and_dmg() {
    assert_eq!(
        chosen(&["a.dmg", "b.app.zip", "notes.txt", "c.app.tar.gz"]),
        Some("c.app.tar.gz".to_string())
    );
}

#[test]
fn zip_wins_over_dmg() {
    assert_eq!(
        chosen(&["a.dmg", "b.app.zip"]),
        Some("b.app.zip".to_string())
    );
}

#[test]
fn dmg_is_taken_where_nothing_else_fits() {
    assert_eq!(
        chosen(&["checksums.txt", "tool.dmg", "source.tar.gz"]),
        Some("tool.dmg".to_string())
    );
}

#[test]
fn first_of_several_tar_gz_is_taken() {
    assert_eq!(
        chosen(&["x.zip", "one.app.tar.gz", "two.app.tar.gz"]),
        Some("one.app.tar.gz".to_string())
    );
}

#[test]
fn first_of_several_dmg_is_taken() {
    assert_eq!(chosen(&["one.dmg", "two.dmg"]), Some("one.dmg".to_string()));
}

#[test]
fn nothing_is_chosen_without_a_fitting_asset() {
    assert_eq!(chosen(&["tool.exe", "tool.tar.gz", "tool.zip", "tool.AppImage"]), None);
}

#[test]
fn nothing_is_chosen_from_an_empty_release() {
    assert_eq!(chosen(&[]), None);
}

#[test]
fn plain_tar_gz_and_zip_do_not_count() {
    assert_eq!(chosen(&["tool.tar.gz"]), None);
    assert_eq!(chosen(&["tool.zip"]), None);
}

#[test]
fn suffix_alone_is_a_fitting_name() {
    assert_eq!(chosen(&[".dmg"]), Some(".dmg".to_string()));
    assert_eq!(chosen(&[".app.zip"]), Some(".app.zip".to_string()));
}

#[test]
fn suffix_must_stand_at_the_end() {
    assert_eq!(chosen(&["tool.dmg.sha256", "tool.app.tar.gz.sig"]), None);
}

#[test]
fn suffix_is_matched_in_exact_case() {
    assert_eq!(chosen(&["tool.DMG", "tool.App.Tar.Gz"]), None);
}

#[test]
fn chosen_asset_is_handed_out_with_its_address() {
    let r = release(&["tool.dmg", "tool-v2.3.0.app.tar.gz"]);
    let a = find_app_asset(&r).expect("an asset fits");
    assert_eq!(a.name, "tool-v2.3.0.app.tar.gz");
    assert_eq!(
        a.browser_download_url,
        "https://example.test/download/tool-v2.3.0.app.tar.gz"
    );
}

#[test]
fn names_with_wide_characters_are_measured_in_characters() {
    assert_eq!(
        chosen(&["werkzeug-für-alle.dmg"]),
        Some("werkzeug-für-alle.dmg".to_string())
    );
    assert_eq!(chosen(&["日本語.app.zip"]), Some("日本語.app.zip".to_string()));
    assert_eq!(chosen(&["é"]), None);
}

#[test]
fn format_follows_the_end_of_the_name() {
    assert_eq!(archive_format("tool.app.tar.gz"), Some(ArchiveFormat::TarGz));
    assert_eq!(archive_format("tool.tar.gz"), Some(ArchiveFormat::TarGz));
    assert_eq!(archive_format("tool.app.zip"), Some(ArchiveFormat::Zip));
    assert_eq!(archive_format("tool.zip"), Some(ArchiveFormat::Zip));
    assert_eq!(archive_format("tool.dmg"), Some(ArchiveFormat::Dmg));
}

#[test]
fn format_is_unknown_for_other_names() {
    assert_eq!(archive_format("tool.exe"), None);
    assert_eq!(archive_format(""), None);
    assert_eq!(archive_format("tool.tar"), None);
    assert_eq!(archive_format("tool.gz"), None);
    assert_eq!(archive_format("dmg"), None);
}

#[test]
fn every_chosen_asset_has_a_format() {
    for names in [
        vec!["a.app.tar.gz"],
        vec!["a.app.zip"],
        vec!["a.dmg"],
        vec!["x", "a.dmg", "b.app.zip"],
    ] {
        let picked = chosen(&names).expect("an asset fits");
        assert!(archive_format(&picked).is_some());
    }
}
