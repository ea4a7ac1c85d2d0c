use aesir_cloud::errors::CloudError;
use aesir_cloud::loader::AnyLoader;
use aesir_cloud::loader::LoaderBackend;
use aesir_cloud::loader::build_loader;
use aesir_cloud::loader::config::LoaderConfig;
use aesir_cloud::loader::loader_install_dir;
use aesir_cloud::loader::loader_is_installed;
use aesir_cloud::loader::loader_jar_path;
use aesir_cloud::loader::paper::PaperLoader;
use aesir_cloud::loader::thunderstorm::ThunderstormLoader;
use aesir_cloud::minecraft_loader::BuildEntry;
use aesir_cloud::minecraft_loader::MineacrftLoader;
use aesir_cloud::minecraft_loader::MinecraftLoader;
use aesir_cloud::minecraft_loader::select_stable_build;
use aesir_cloud::minecraft_version::JavaVersion;
use aesir_cloud::minecraft_version::MinecraftVersion;

fn entry(channel: &str, url: Option<&str>) -> BuildEntry {
    BuildEntry { channel: channel.to_string(), download_url: url.map(|u| u.to_string()) }
}

#[test]
fn version_strings_and_runtimes() {
    assert_eq!(MinecraftVersion::V1_21_10.get(), "1.21.10");
    assert_eq!(MinecraftVersion::V1_21_11.get(), "1.21.11");
    assert_eq!(MinecraftVersion::V1_21_10.java_version(), JavaVersion::J21);
    assert_eq!(MinecraftVersion::V1_21_11.java_version(), JavaVersion::J21);
}

#[test]
fn minecraft_loader_identity() {
    let paper = MinecraftLoader::Paper(MinecraftVersion::V1_21_10);
    let storm = MinecraftLoader::ThunderStorm(MinecraftVersion::V1_21_11);
    assert_eq!(paper.name(), "paper");
    assert_eq!(storm.name(), "thunderstorm");
    assert_eq!(paper.version(), "1.21.10");
    assert_eq!(storm.version(), "1.21.11");
    assert_eq!(paper.get_java_version(), JavaVersion::J21);
    assert_eq!(storm.get_java_version(), JavaVersion::J25);
}

#[test]
fn minecraft_loader_paths_and_urls() {
    let paper = MinecraftLoader::Paper(MinecraftVersion::V1_21_10);
    assert_eq!(paper.local_dir(), "versions/paper");
    assert_eq!(paper.jar_path(), "versions/paper/paper-1.21.10.jar");
    assert_eq!(
        paper.builds_request_url(),
        "https://fill.papermc.io/v3/projects/paper/versions/1.21.10/builds"
    );
}

#[test]
fn minecraft_loader_paths_are_keyed_by_family_name() {
    // The canonical artifact location is versions/<name>/<name>-<version>.jar
    // for every family, not just the first one.
    let storm = MinecraftLoader::ThunderStorm(MinecraftVersion::V1_21_11);
    assert_eq!(storm.local_dir(), "versions/thunderstorm");
    assert_eq!(storm.jar_path(), "versions/thunderstorm/thunderstorm-1.21.11.jar");
    let paper = MinecraftLoader::Paper(MinecraftVersion::V1_21_11);
    assert_ne!(paper.jar_path(), storm.jar_path());
}

#[test]
fn same_family_and_version_share_one_artifact_path() {
    // Two instances of the same binary and version resolve to one canonical
    // artifact, so the second start finds the first one's download.
    let a = MinecraftLoader::Paper(MinecraftVersion::V1_21_10);
    let b = MinecraftLoader::Paper(MinecraftVersion::V1_21_10);
    assert_eq!(a.jar_path(), b.jar_path());
    let c = MinecraftLoader::Paper(MinecraftVersion::V1_21_11);
    assert_ne!(a.jar_path(), c.jar_path());
}

#[test]
fn uninstalled_artifact_is_detected_before_launch() {
    // Nothing has materialized this artifact in the test's working
    // directory, so the start path would install before launching.
    let paper = MinecraftLoader::Paper(MinecraftVersion::V1_21_11);
    assert!(!paper.is_installed());
    let backend = build_loader(&LoaderConfig::Paper { version: MinecraftVersion::V1_21_11 });
    assert!(!loader_is_installed(&backend));
}

#[test]
fn select_stable_build_takes_first_qualifying_entry() {
    let builds = vec![
        entry("experimental", Some("https://example.invalid/exp.jar")),
        entry("STABLE", None),
        entry("Stable", Some("https://example.invalid/good.jar")),
        entry("stable", Some("https://example.invalid/later.jar")),
    ];
    assert_eq!(select_stable_build(&builds), Ok("https://example.invalid/good.jar".to_string()));
}

#[test]
fn select_stable_build_ignores_case_of_channel() {
    let builds = vec![entry("sTaBlE", Some("https://example.invalid/a.jar"))];
    assert_eq!(select_stable_build(&builds), Ok("https://example.invalid/a.jar".to_string()));
}

#[test]
fn select_stable_build_with_no_candidate_reports_no_stable_build() {
    assert_eq!(select_stable_build(&Vec::new()), Err(CloudError::NoStableBuild));
    let builds = vec![
        entry("experimental", Some("https://example.invalid/exp.jar")),
        entry("stables", Some("https://example.invalid/not-quite.jar")),
        entry("stable", None),
    ];
    assert_eq!(select_stable_build(&builds), Err(CloudError::NoStableBuild));
}

#[test]
fn build_loader_selects_the_configured_backend() {
    let paper = build_loader(&LoaderConfig::Paper { version: MinecraftVersion::V1_21_10 });
    assert_eq!(paper, AnyLoader::Paper(PaperLoader { version: MinecraftVersion::V1_21_10 }));
    assert_eq!(paper.name(), "paper");
    assert_eq!(paper.version(), MinecraftVersion::V1_21_10);
    assert_eq!(paper.java_version(), JavaVersion::J21);

    let storm = build_loader(&LoaderConfig::Thunderstorm { version: MinecraftVersion::V1_21_11 });
    assert_eq!(
        storm,
        AnyLoader::Thunderstorm(ThunderstormLoader { version: MinecraftVersion::V1_21_11 })
    );
    assert_eq!(storm.name(), "thunderstorm");
    assert_eq!(storm.java_version(), JavaVersion::J25);
}

#[test]
fn backend_paths_are_keyed_by_family_and_version() {
    let paper = PaperLoader { version: MinecraftVersion::V1_21_10 };
    assert_eq!(loader_install_dir(&paper), "versions/paper");
    assert_eq!(loader_jar_path(&paper), "versions/paper/paper-1.21.10.jar");
    let storm = ThunderstormLoader { version: MinecraftVersion::V1_21_11 };
    assert_eq!(loader_install_dir(&storm), "versions/thunderstorm");
    assert_eq!(loader_jar_path(&storm), "versions/thunderstorm/thunderstorm-1.21.11.jar");
}

#[test]
fn backend_build_listing_urls() {
    let paper = PaperLoader { version: MinecraftVersion::V1_21_11 };
    assert_eq!(
        paper.builds_request_url(),
        "https://api.papermc.io/v2/projects/paper/versions/1.21.11/builds"
    );
    let storm = ThunderstormLoader { version: MinecraftVersion::V1_21_11 };
    assert_eq!(storm.builds_request_url(), "");
}

#[test]
fn paper_resolves_newest_build_into_its_download_url() {
    let paper = PaperLoader { version: MinecraftVersion::V1_21_10 };
    let r = paper.resolve_download_url(&vec![110, 115, 117]);
    assert_eq!(
        r,
        Ok(
            "https://api.papermc.io/v2/projects/paper/versions/1.21.10/builds/117/downloads/paper-1.21.10-117.jar"
                .to_string()
        )
    );
    assert_eq!(paper.resolve_download_url(&Vec::new()), Err(CloudError::NoStableBuild));
}

#[test]
fn thunderstorm_resolves_to_an_empty_url() {
    let storm = ThunderstormLoader { version: MinecraftVersion::V1_21_10 };
    assert_eq!(storm.resolve_download_url(&Vec::new()), Ok(String::new()));
    assert_eq!(storm.resolve_download_url(&vec![1, 2, 3]), Ok(String::new()));
}

#[test]
fn pinned_loader_table() {
    let paper = MineacrftLoader::Paper(MinecraftVersion::V1_21_10);
    assert_eq!(
        paper.download_url(),
        "https://fill-data.papermc.io/v1/objects/a61a0585e203688f606ca3a649760b8ba71efca01a4af7687db5e41408ee27aa/paper-1.21.10-117.jar"
    );
    assert_eq!(paper.get_java_version(), JavaVersion::J21);
    let storm = MineacrftLoader::ThunderStorm(MinecraftVersion::V1_21_10);
    assert_eq!(storm.download_url(), "");
    assert_eq!(storm.get_java_version(), JavaVersion::J25);
}

#[test]
fn decimal_rendering_is_exact() {
    assert_eq!(aesir_cloud::strutil::u64_to_dec(0), "0");
    assert_eq!(aesir_cloud::strutil::u64_to_dec(7), "7");
    assert_eq!(aesir_cloud::strutil::u64_to_dec(10), "10");
    assert_eq!(aesir_cloud::strutil::u64_to_dec(25571), "25571");
    assert_eq!(aesir_cloud::strutil::u64_to_dec(u64::MAX), "18446744073709551615");
    assert_eq!(aesir_cloud::strutil::u16_to_dec(65535), "65535");
}
