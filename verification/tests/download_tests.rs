use cookbook_fetch::download::{AssetAction, AssetDownload, AssetPhase};
use cookbook_fetch::release::{FetchError, ReleaseAsset};

fn abc_asset() -> ReleaseAsset {
    ReleaseAsset {
        name: "acid.pkgar".to_string(),
        url: "https://example.org/acid.pkgar".to_string(),
        size: 3,
        blake3: "6437b3ac38465133ffb63b75273a8db548c558465d79db03fd359c6cd5bd9d85".to_string(),
    }
}

#[test]
fn matching_destination_is_kept() {
    let mut fetch = AssetDownload::new(&abc_asset());
    assert!(matches!(fetch.start(true), AssetAction::ReadExisting));
    let action = fetch.existing_read(Some((3, b"abc".to_vec())));
    assert!(matches!(action, AssetAction::Finish(Ok(false))));
    assert_eq!(fetch.phase, AssetPhase::Done);
}

#[test]
fn stale_destination_is_replaced_by_a_checked_download() {
    let mut fetch = AssetDownload::new(&abc_asset());
    let _ = fetch.start(true);
    assert!(matches!(fetch.existing_read(Some((3, b"abd".to_vec()))), AssetAction::RemoveExisting));
    assert!(matches!(fetch.existing_removed(Ok(())), AssetAction::CheckTemporary));
    assert!(matches!(fetch.temporary_checked(true), AssetAction::RemoveTemporary));
    match fetch.temporary_removed(Ok(())) {
        AssetAction::Download { url, size } => {
            assert_eq!(url, "https://example.org/acid.pkgar");
            assert_eq!(size, 3);
        }
        other => panic!("unexpected {other:?}"),
    }
    assert!(matches!(fetch.downloaded(Ok((3, b"abc".to_vec()))), AssetAction::Install));
    assert!(matches!(fetch.installed(Ok(())), AssetAction::Finish(Ok(true))));
}

#[test]
fn unreadable_destination_is_removed() {
    let mut fetch = AssetDownload::new(&abc_asset());
    let _ = fetch.start(true);
    assert!(matches!(fetch.existing_read(None), AssetAction::RemoveExisting));
    let failed = fetch.existing_removed(Err(FetchError::Outside("busy".to_string())));
    assert!(matches!(failed, AssetAction::Finish(Err(FetchError::Outside(_)))));
}

#[test]
fn mismatching_download_is_discarded() {
    let mut fetch = AssetDownload::new(&abc_asset());
    assert!(matches!(fetch.start(false), AssetAction::CheckTemporary));
    assert!(matches!(fetch.temporary_checked(false), AssetAction::Download { .. }));
    match fetch.downloaded(Ok((4, b"abcd".to_vec()))) {
        AssetAction::DiscardTemporary { error: FetchError::AssetMismatch { name, size, blake3 } } => {
            assert_eq!(name, "acid.pkgar");
            assert_eq!(size, 4);
            assert_eq!(blake3.len(), 64);
        }
        other => panic!("unexpected {other:?}"),
    }
}

#[test]
fn failed_download_or_install_ends_the_fetch() {
    let mut fetch = AssetDownload::new(&abc_asset());
    let _ = fetch.start(false);
    let _ = fetch.temporary_checked(false);
    let failed = fetch.downloaded(Err(FetchError::Outside("404".to_string())));
    assert!(matches!(failed, AssetAction::Finish(Err(_))));
    let mut fetch = AssetDownload::new(&abc_asset());
    let _ = fetch.start(false);
    let _ = fetch.temporary_checked(false);
    let _ = fetch.downloaded(Ok((3, b"abc".to_vec())));
    let failed = fetch.installed(Err(FetchError::Outside("rename".to_string())));
    assert!(matches!(failed, AssetAction::Finish(Err(FetchError::Outside(_)))));
}
