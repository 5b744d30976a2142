use cookbook_fetch::asset::{check_release_asset, file_blake3, verify_release_asset};
use cookbook_fetch::release::{
    has_packages_in_name_order, expected_repository, expected_target, get_release_package, get_release_pubkey,
    release_index_configured, release_index_url, validate_release_document, FetchError,
    ReleaseAsset, ReleaseDocument, ReleaseInfo, ReleasePackage, ReleaseSignature,
};

const BASE: &str = "https://github.com/sory-x/soryos-apt/releases/download/v1";
const INDEX_URL: &str = "https://github.com/sory-x/soryos-apt/releases/download/v1/index.json";

fn asset(name: &str) -> ReleaseAsset {
    ReleaseAsset {
        name: name.to_string(),
        url: format!("{BASE}/{name}"),
        size: 3,
        blake3: "6437b3ac38465133ffb63b75273a8db548c558465d79db03fd359c6cd5bd9d85".to_string(),
    }
}

fn package(name: &str) -> ReleasePackage {
    ReleasePackage { pkgar: asset(&format!("{name}.pkgar")), metadata: asset(&format!("{name}.toml")) }
}

fn good_document() -> ReleaseDocument {
    ReleaseDocument {
        schema: 1,
        repository: "sory-x/soryos-apt".to_string(),
        target: "x86_64-unknown-redox".to_string(),
        release: ReleaseInfo { tag: "v1".to_string(), immutable: true },
        packages: vec![
            ("acid".to_string(), package("acid")),
            ("base".to_string(), package("base")),
        ],
        pkgar_public_key: Some(asset("id_ed25519.pub.toml")),
        signature: ReleaseSignature {
            url: format!("{BASE}/index.json.sig"),
            public_key_url: format!("{BASE}/index-signing-key.pub.pem"),
            runtime_public_key_url: format!("{BASE}/index-signing-key.pub.hex"),
        },
    }
}

fn check(doc: &ReleaseDocument, url: &str) -> Result<(), FetchError> {
    validate_release_document(doc, url, "sory-x/soryos-apt", "x86_64-unknown-redox")
}

#[test]
fn index_url_absent_or_blank_is_not_configured() {
    assert!(!release_index_configured(None));
    assert!(!release_index_configured(Some(String::new())));
    assert!(!release_index_configured(Some(" \t\n".to_string())));
    assert!(!release_index_configured(Some("\u{3000}\u{a0}".to_string())));
    assert!(release_index_configured(Some(INDEX_URL.to_string())));
    assert!(release_index_configured(Some("  x ".to_string())));
}

#[test]
fn index_url_keeps_the_configured_value() {
    assert_eq!(release_index_url(Some(" u ".to_string())), Some(" u ".to_string()));
    assert_eq!(release_index_url(Some("   ".to_string())), None);
    assert_eq!(release_index_url(None), None);
}

#[test]
fn expected_repository_and_target_default() {
    assert_eq!(expected_repository(None), "sory-x/soryos-apt");
    assert_eq!(expected_repository(Some("a/b".to_string())), "a/b");
    assert_eq!(expected_target(None), "x86_64-unknown-redox");
    assert_eq!(expected_target(Some("aarch64-unknown-redox".to_string())), "aarch64-unknown-redox");
}

#[test]
fn good_document_is_accepted() {
    assert!(check(&good_document(), INDEX_URL).is_ok());
}

#[test]
fn mutable_or_other_schema_is_refused() {
    let mut doc = good_document();
    doc.release.immutable = false;
    assert!(matches!(check(&doc, INDEX_URL), Err(FetchError::NotImmutableSchema1)));
    let mut doc = good_document();
    doc.schema = 2;
    doc.repository = "other/repo".to_string();
    assert!(matches!(check(&doc, INDEX_URL), Err(FetchError::NotImmutableSchema1)));
}

#[test]
fn other_repository_is_refused() {
    let mut doc = good_document();
    doc.repository = "other/repo".to_string();
    match check(&doc, INDEX_URL) {
        Err(FetchError::RepositoryMismatch { expected, found }) => {
            assert_eq!(expected, "sory-x/soryos-apt");
            assert_eq!(found, "other/repo");
        }
        other => panic!("unexpected {other:?}"),
    }
}

#[test]
fn other_target_is_refused() {
    let mut doc = good_document();
    doc.target = "i686-unknown-redox".to_string();
    match check(&doc, INDEX_URL) {
        Err(FetchError::TargetMismatch { expected, found }) => {
            assert_eq!(expected, "x86_64-unknown-redox");
            assert_eq!(found, "i686-unknown-redox");
        }
        other => panic!("unexpected {other:?}"),
    }
}

#[test]
fn index_url_without_suffix_is_refused() {
    let url = format!("{BASE}/index.json.bak");
    assert!(matches!(check(&good_document(), &url), Err(FetchError::IndexUrlSuffix)));
    assert!(matches!(check(&good_document(), "index.json"), Err(FetchError::IndexUrlSuffix)));
}

#[test]
fn urls_outside_the_release_are_refused() {
    let url = "https://github.com/sory-x/soryos-apt/releases/download/v2/index.json";
    assert!(matches!(check(&good_document(), url), Err(FetchError::UrlMismatch)));
    let mut doc = good_document();
    doc.signature.runtime_public_key_url = "https://example.com/key.hex".to_string();
    assert!(matches!(check(&doc, INDEX_URL), Err(FetchError::UrlMismatch)));
    let mut doc = good_document();
    doc.signature.url = format!("{BASE}/index.sig");
    assert!(matches!(check(&doc, INDEX_URL), Err(FetchError::UrlMismatch)));
}

#[test]
fn package_lookup_by_name() {
    let index = Some(good_document());
    let found = get_release_package(&index, "base").unwrap();
    assert_eq!(found.pkgar.name, "base.pkgar");
    assert_eq!(found.metadata.name, "base.toml");
    assert!(get_release_package(&index, "missing").is_none());
    assert!(get_release_package(&None, "base").is_none());
}

#[test]
fn package_names_in_order() {
    let mut doc = good_document();
    assert!(has_packages_in_name_order(&doc));
    doc.packages.push(("c".to_string(), package("c")));
    assert!(has_packages_in_name_order(&doc));
    doc.packages.push(("c".to_string(), package("c")));
    assert!(!has_packages_in_name_order(&doc));
    let mut doc = good_document();
    doc.packages.push(("b".to_string(), package("b")));
    assert!(!has_packages_in_name_order(&doc));
    let mut doc = good_document();
    doc.packages.reverse();
    assert!(!has_packages_in_name_order(&doc));
    doc.packages.clear();
    assert!(has_packages_in_name_order(&doc));
    doc.packages = vec![("é".to_string(), package("x")), ("z".to_string(), package("y"))];
    assert!(!has_packages_in_name_order(&doc));
    doc.packages = vec![("ab".to_string(), package("x")), ("abc".to_string(), package("y"))];
    assert!(has_packages_in_name_order(&doc));
}

#[test]
fn pubkey_path_lies_in_the_release_cache() {
    let index = Some(good_document());
    let (key, path) = get_release_pubkey(&index).unwrap().unwrap();
    assert_eq!(key.name, "id_ed25519.pub.toml");
    assert_eq!(path, "build/remotes/soryos-release/id_ed25519.pub.toml");
    assert!(matches!(get_release_pubkey(&None), Ok(None)));
    let mut doc = good_document();
    doc.pkgar_public_key = None;
    assert!(matches!(get_release_pubkey(&Some(doc)), Err(FetchError::MissingPkgarKey)));
    let mut doc = good_document();
    doc.pkgar_public_key = Some(asset("/etc/key.toml"));
    let (_, path) = get_release_pubkey(&Some(doc)).unwrap().unwrap();
    assert_eq!(path, "/etc/key.toml");
}

#[test]
fn blake3_of_known_inputs() {
    assert_eq!(file_blake3(b""), "af1349b9f5f9a1a6a0404dea36dcc9499bcb25c9adc112b7cc9a93cae41f3262");
    assert_eq!(file_blake3(b"abc"), "6437b3ac38465133ffb63b75273a8db548c558465d79db03fd359c6cd5bd9d85");
    let large: Vec<u8> = (0..(3 * 1024 * 1024 + 17)).map(|i: u32| (i % 251) as u8).collect();
    let hex = file_blake3(&large);
    assert_eq!(hex.len(), 64);
    assert_eq!(hex, blake3::hash(&large).to_hex().to_string());
}

#[test]
fn asset_checks_size_and_hash() {
    let a = asset("x");
    assert!(verify_release_asset(&a, 3, b"abc").is_ok());
    match verify_release_asset(&a, 4, b"abc") {
        Err(FetchError::AssetMismatch { name, size, blake3 }) => {
            assert_eq!(name, "x");
            assert_eq!(size, 4);
            assert_eq!(blake3, a.blake3);
        }
        other => panic!("unexpected {other:?}"),
    }
    match verify_release_asset(&a, 3, b"abd") {
        Err(FetchError::AssetMismatch { blake3, .. }) => assert_ne!(blake3, a.blake3),
        other => panic!("unexpected {other:?}"),
    }
    assert!(check_release_asset(&a, 3, &a.blake3.clone()).is_ok());
    assert!(check_release_asset(&a, 3, "00").is_err());
}
