use cookbook_fetch::loader::{IndexLoadAction, ReleaseIndexLoader, SignatureFiles};
use cookbook_fetch::release::{FetchError, ReleaseDocument, ReleaseInfo, ReleaseSignature};

const RELEASE_BASE: &str = "https://github.com/sory-x/soryos-apt/releases/download/v7";

fn release_url() -> String {
    format!("{RELEASE_BASE}/index.json")
}

fn signed_document() -> ReleaseDocument {
    ReleaseDocument {
        schema: 1,
        repository: "sory-x/soryos-apt".to_string(),
        target: "x86_64-unknown-redox".to_string(),
        release: ReleaseInfo { tag: "v7".to_string(), immutable: true },
        packages: vec![],
        pkgar_public_key: None,
        signature: ReleaseSignature {
            url: format!("{RELEASE_BASE}/index.json.sig"),
            public_key_url: format!("{RELEASE_BASE}/index-signing-key.pub.pem"),
            runtime_public_key_url: format!("{RELEASE_BASE}/index-signing-key.pub.hex"),
        },
    }
}

#[test]
fn unconfigured_index_loads_nothing_and_is_remembered() {
    let mut loader = ReleaseIndexLoader::new();
    assert!(matches!(loader.start(None, false, None, None), IndexLoadAction::Finish(Ok(None))));
    let again = loader.start(Some(release_url()), false, None, None);
    assert!(matches!(again, IndexLoadAction::Finish(Ok(None))));
    let mut loader = ReleaseIndexLoader::new();
    let blank = loader.start(Some("  ".to_string()), false, None, None);
    assert!(matches!(blank, IndexLoadAction::Finish(Ok(None))));
}

#[test]
fn online_load_downloads_checks_and_caches() {
    let mut loader = ReleaseIndexLoader::new();
    match loader.start(Some(release_url()), false, None, None) {
        IndexLoadAction::DownloadIndex { url, path } => {
            assert_eq!(url, release_url());
            assert_eq!(path, "build/remotes/soryos-release/index.json");
        }
        other => panic!("unexpected {other:?}"),
    }
    match loader.index_fetched(Ok(signed_document())) {
        IndexLoadAction::DownloadSignatureFiles {
            signature_url,
            signature_path,
            public_key_url,
            public_key_path,
        } => {
            assert_eq!(signature_url, format!("{RELEASE_BASE}/index.json.sig"));
            assert_eq!(signature_path, "build/remotes/soryos-release/index.json.sig");
            assert_eq!(public_key_url, format!("{RELEASE_BASE}/index-signing-key.pub.pem"));
            assert_eq!(public_key_path, "build/remotes/soryos-release/index-signing-key.pub.pem");
        }
        other => panic!("unexpected {other:?}"),
    }
    match loader.signature_files(SignatureFiles::Downloaded(Ok(()))) {
        IndexLoadAction::VerifySignature { index_path, signature_path, public_key_path } => {
            assert_eq!(index_path, "build/remotes/soryos-release/index.json");
            assert_eq!(signature_path, "build/remotes/soryos-release/index.json.sig");
            assert_eq!(public_key_path, "build/remotes/soryos-release/index-signing-key.pub.pem");
        }
        other => panic!("unexpected {other:?}"),
    }
    match loader.signature_verified(Ok(())) {
        IndexLoadAction::Finish(Ok(Some(doc))) => assert_eq!(doc.release.tag, "v7"),
        other => panic!("unexpected {other:?}"),
    }
    match loader.start(None, true, None, None) {
        IndexLoadAction::Finish(Ok(Some(doc))) => assert_eq!(doc.repository, "sory-x/soryos-apt"),
        other => panic!("unexpected {other:?}"),
    }
}

#[test]
fn offline_load_reads_cache_and_needs_signature_files() {
    let mut loader = ReleaseIndexLoader::new();
    match loader.start(Some(release_url()), true, None, None) {
        IndexLoadAction::ReadCachedIndex { path } => {
            assert_eq!(path, "build/remotes/soryos-release/index.json")
        }
        other => panic!("unexpected {other:?}"),
    }
    assert!(matches!(
        loader.index_fetched(Ok(signed_document())),
        IndexLoadAction::CheckSignatureFiles { .. }
    ));
    let missing = loader.signature_files(SignatureFiles::Present { signature: true, public_key: false });
    assert!(matches!(missing, IndexLoadAction::Finish(Err(FetchError::OfflineSignatureMissing))));
    assert!(matches!(
        loader.start(Some(release_url()), true, None, None),
        IndexLoadAction::ReadCachedIndex { .. }
    ));
}

#[test]
fn refused_index_ends_the_load_with_its_error() {
    let mut loader = ReleaseIndexLoader::new();
    let _ = loader.start(Some(release_url()), false, Some("someone/else".to_string()), None);
    match loader.index_fetched(Ok(signed_document())) {
        IndexLoadAction::Finish(Err(FetchError::RepositoryMismatch { expected, found })) => {
            assert_eq!(expected, "someone/else");
            assert_eq!(found, "sory-x/soryos-apt");
        }
        other => panic!("unexpected {other:?}"),
    }
    let _ = loader.start(Some(release_url()), false, None, Some("riscv64gc-unknown-redox".to_string()));
    assert!(matches!(
        loader.index_fetched(Ok(signed_document())),
        IndexLoadAction::Finish(Err(FetchError::TargetMismatch { .. }))
    ));
}

#[test]
fn outside_failures_end_the_load_and_cache_nothing() {
    let mut loader = ReleaseIndexLoader::new();
    let _ = loader.start(Some(release_url()), false, None, None);
    let failed = loader.index_fetched(Err(FetchError::Outside("network down".to_string())));
    match failed {
        IndexLoadAction::Finish(Err(FetchError::Outside(m))) => assert_eq!(m, "network down"),
        other => panic!("unexpected {other:?}"),
    }
    let _ = loader.start(Some(release_url()), false, None, None);
    let _ = loader.index_fetched(Ok(signed_document()));
    let _ = loader.signature_files(SignatureFiles::Downloaded(Ok(())));
    let refused = loader.signature_verified(Err(FetchError::Outside("bad signature".to_string())));
    assert!(matches!(refused, IndexLoadAction::Finish(Err(FetchError::Outside(_)))));
    assert!(loader.cache.is_none());
    assert!(matches!(
        loader.start(Some(release_url()), false, None, None),
        IndexLoadAction::DownloadIndex { .. }
    ));
}
