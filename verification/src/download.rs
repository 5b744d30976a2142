use vstd::prelude::*;

use crate::asset::{asset_matches, blake3_digest, hex_lower, verify_release_asset};
use crate::release::{FetchError, ReleaseAsset};

verus! {

/// Whether a file of `size` bytes with these contents is the file that
/// `asset` announces.
pub open spec fn file_matches(asset: ReleaseAsset, size: u64, contents: Seq<u8>) -> bool {
    asset_matches(asset, size, hex_lower(blake3_digest(contents)))
}

/// The next piece of outside work in fetching a release asset to its
/// destination, or its end.
#[derive(Debug)]
pub enum AssetAction {
    /// Read the size and contents of the destination file, then call `existing_read`.
    ReadExisting,
    /// Remove the destination file, then call `existing_removed`.
    RemoveExisting,
    /// Tell `temporary_checked` whether the temporary download file exists.
    CheckTemporary,
    /// Remove the stale temporary download file, then call `temporary_removed`.
    RemoveTemporary,
    /// Create the temporary download file, download `url` (announced as `size`
    /// bytes) into it, then give `downloaded` its size and contents.
    Download { url: String, size: u64 },
    /// Remove the temporary download file, whatever comes of that, and end
    /// with `error`.
    DiscardTemporary { error: FetchError },
    /// Rename the temporary download file to the destination, then call `installed`.
    Install,
    /// The fetch is over: whether a new file was installed, or the error.
    Finish(Result<bool, FetchError>),
}

/// Where fetching a release asset stands.
#[derive(Debug, PartialEq, Eq, Structural)]
pub enum AssetPhase {
    Ready,
    ReadingExisting,
    RemovingExisting,
    CheckingTemporary,
    RemovingTemporary,
    Downloading,
    Installing,
    Done,
}

/// Fetches a release asset: keeps a destination that already matches the
/// asset, else downloads to a temporary file and installs it only once its
/// size and hash match. The caller does the file and network work.
pub struct AssetDownload {
    pub asset: ReleaseAsset,
    pub phase: AssetPhase,
}

/// Whether `action` is the download of `asset`.
pub open spec fn downloads(action: AssetAction, asset: ReleaseAsset) -> bool {
    action matches AssetAction::Download { url, size } && url@ == asset.url@ && size == asset.size
}

impl AssetDownload {
    /// What `start` does: look at the destination first where it is a file,
    /// else go on to the temporary file.
    pub open spec fn start_step(old: Self, new: Self, destination_is_file: bool, action: AssetAction) -> bool {
        &&& new.asset == old.asset
        &&& if destination_is_file {
            new.phase == AssetPhase::ReadingExisting && action is ReadExisting
        } else {
            new.phase == AssetPhase::CheckingTemporary && action is CheckTemporary
        }
    }

    /// What `existing_read` does: a destination that matches the asset is kept
    /// and nothing is installed; one that does not, or cannot be read, is removed.
    pub open spec fn existing_read_step(
        old: Self,
        new: Self,
        file: Option<(u64, Vec<u8>)>,
        action: AssetAction,
    ) -> bool {
        &&& new.asset == old.asset
        &&& if file matches Some((size, contents)) && file_matches(old.asset, size, contents@) {
            new.phase == AssetPhase::Done && action == AssetAction::Finish(Ok(false))
        } else {
            new.phase == AssetPhase::RemovingExisting && action is RemoveExisting
        }
    }

    /// What `existing_removed` and `temporary_removed` do after a removal: a
    /// failure ends the fetch with its error; else the fetch goes on to `next`.
    pub open spec fn removed_step(
        old: Self,
        new: Self,
        removed: Result<(), FetchError>,
        action: AssetAction,
        next_phase: AssetPhase,
        next_action: spec_fn(AssetAction) -> bool,
    ) -> bool {
        &&& new.asset == old.asset
        &&& match removed {
            Err(e) => new.phase == AssetPhase::Done && action == AssetAction::Finish(Err(e)),
            Ok(()) => new.phase == next_phase && next_action(action),
        }
    }

    /// What `temporary_checked` does: a stale temporary file is removed first;
    /// else the asset is downloaded.
    pub open spec fn temporary_checked_step(
        old: Self,
        new: Self,
        exists: bool,
        action: AssetAction,
    ) -> bool {
        &&& new.asset == old.asset
        &&& if exists {
            new.phase == AssetPhase::RemovingTemporary && action is RemoveTemporary
        } else {
            new.phase == AssetPhase::Downloading && downloads(action, old.asset)
        }
    }

    /// What `downloaded` does: a failed download ends the fetch with its error;
    /// a download that does not match the asset is discarded with the mismatch;
    /// only a matching one is installed.
    pub open spec fn downloaded_step(
        old: Self,
        new: Self,
        downloaded: Result<(u64, Vec<u8>), FetchError>,
        action: AssetAction,
    ) -> bool {
        &&& new.asset == old.asset
        &&& match downloaded {
            Err(e) => new.phase == AssetPhase::Done && action == AssetAction::Finish(Err(e)),
            Ok((size, contents)) => if file_matches(old.asset, size, contents@) {
                new.phase == AssetPhase::Installing && action is Install
            } else {
                &&& new.phase == AssetPhase::Done
                &&& action matches AssetAction::DiscardTemporary {
                    error: FetchError::AssetMismatch { name, size: s, blake3 },
                } && name@ == old.asset.name@ && s == size && blake3@ == hex_lower(
                    blake3_digest(contents@),
                )
            },
        }
    }

    /// What `installed` does: the fetch ends, with a new file installed unless
    /// the rename failed.
    pub open spec fn installed_step(
        old: Self,
        new: Self,
        installed: Result<(), FetchError>,
        action: AssetAction,
    ) -> bool {
        &&& new.asset == old.asset
        &&& new.phase == AssetPhase::Done
        &&& match installed {
            Err(e) => action == AssetAction::Finish(Err(e)),
            Ok(()) => action == AssetAction::Finish(Ok(true)),
        }
    }

    /// A fetch of `asset` that has not started.
    pub fn new(asset: &ReleaseAsset) -> (r: Self)
        ensures
            r.asset == *asset,
            r.phase == AssetPhase::Ready,
    {
        AssetDownload { asset: asset.duplicate(), phase: AssetPhase::Ready }
    }

    /// Starts the fetch, given whether the destination is a file.
    pub fn start(&mut self, destination_is_file: bool) -> (action: AssetAction)
        requires
            old(self).phase == AssetPhase::Ready,
        ensures
            Self::start_step(*old(self), *final(self), destination_is_file, action),
    {
        if destination_is_file {
            self.phase = AssetPhase::ReadingExisting;
            AssetAction::ReadExisting
        } else {
            self.phase = AssetPhase::CheckingTemporary;
            AssetAction::CheckTemporary
        }
    }

    /// Takes the size and contents of the destination, or `None` where they
    /// could not be read.
    pub fn existing_read(&mut self, file: Option<(u64, Vec<u8>)>) -> (action: AssetAction)
        requires
            old(self).phase == AssetPhase::ReadingExisting,
        ensures
            Self::existing_read_step(*old(self), *final(self), file, action),
    {
        let usable = match &file {
            Some((size, contents)) => verify_release_asset(
                &self.asset,
                *size,
                contents.as_slice(),
            ).is_ok(),
            None => false,
        };
        if usable {
            self.phase = AssetPhase::Done;
            AssetAction::Finish(Ok(false))
        } else {
            self.phase = AssetPhase::RemovingExisting;
            AssetAction::RemoveExisting
        }
    }

    /// Takes how removing the destination went.
    pub fn existing_removed(&mut self, removed: Result<(), FetchError>) -> (action: AssetAction)
        requires
            old(self).phase == AssetPhase::RemovingExisting,
        ensures
            Self::removed_step(
                *old(self),
                *final(self),
                removed,
                action,
                AssetPhase::CheckingTemporary,
                |a: AssetAction| a is CheckTemporary,
            ),
    {
        match removed {
            Err(e) => {
                self.phase = AssetPhase::Done;
                AssetAction::Finish(Err(e))
            },
            Ok(()) => {
                self.phase = AssetPhase::CheckingTemporary;
                AssetAction::CheckTemporary
            },
        }
    }

    fn download_action(&self) -> (action: AssetAction)
        ensures
            downloads(action, self.asset),
    {
        AssetAction::Download { url: self.asset.url.clone(), size: self.asset.size }
    }

    /// Takes whether the temporary download file exists.
    pub fn temporary_checked(&mut self, exists: bool) -> (action: AssetAction)
        requires
            old(self).phase == AssetPhase::CheckingTemporary,
        ensures
            Self::temporary_checked_step(*old(self), *final(self), exists, action),
    {
        if exists {
            self.phase = AssetPhase::RemovingTemporary;
            AssetAction::RemoveTemporary
        } else {
            self.phase = AssetPhase::Downloading;
            self.download_action()
        }
    }

    /// Takes how removing the stale temporary file went.
    pub fn temporary_removed(&mut self, removed: Result<(), FetchError>) -> (action: AssetAction)
        requires
            old(self).phase == AssetPhase::RemovingTemporary,
        ensures
            Self::removed_step(
                *old(self),
                *final(self),
                removed,
                action,
                AssetPhase::Downloading,
                |a: AssetAction| downloads(a, old(self).asset),
            ),
    {
        match removed {
            Err(e) => {
                self.phase = AssetPhase::Done;
                AssetAction::Finish(Err(e))
            },
            Ok(()) => {
                self.phase = AssetPhase::Downloading;
                self.download_action()
            },
        }
    }

    /// Takes the size and contents of the downloaded file, or the error that
    /// downloading or reading it gave.
    pub fn downloaded(&mut self, downloaded: Result<(u64, Vec<u8>), FetchError>) -> (action:
        AssetAction)
        requires
            old(self).phase == AssetPhase::Downloading,
        ensures
            Self::downloaded_step(*old(self), *final(self), downloaded, action),
    {
        match downloaded {
            Err(e) => {
                self.phase = AssetPhase::Done;
                AssetAction::Finish(Err(e))
            },
            Ok((size, contents)) => match verify_release_asset(
                &self.asset,
                size,
                contents.as_slice(),
            ) {
                Ok(()) => {
                    self.phase = AssetPhase::Installing;
                    AssetAction::Install
                },
                Err(error) => {
                    self.phase = AssetPhase::Done;
                    AssetAction::DiscardTemporary { error }
                },
            },
        }
    }

    /// Takes how renaming the download to the destination went.
    pub fn installed(&mut self, installed: Result<(), FetchError>) -> (action: AssetAction)
        requires
            old(self).phase == AssetPhase::Installing,
        ensures
            Self::installed_step(*old(self), *final(self), installed, action),
    {
        self.phase = AssetPhase::Done;
        match installed {
            Err(e) => AssetAction::Finish(Err(e)),
            Ok(()) => AssetAction::Finish(Ok(true)),
        }
    }
}

/// A fetch installs a downloaded file only after checking it: where a download
/// is followed by a successful install, the downloaded file had the size and
/// the BLAKE3 hash that the asset announces.
pub proof fn lemma_install_follows_verification(
    s0: AssetDownload,
    s1: AssetDownload,
    s2: AssetDownload,
    downloaded: Result<(u64, Vec<u8>), FetchError>,
    download_action: AssetAction,
    installed: Result<(), FetchError>,
    action: AssetAction,
)
    requires
        AssetDownload::downloaded_step(s0, s1, downloaded, download_action),
        s1.phase == AssetPhase::Installing,
        AssetDownload::installed_step(s1, s2, installed, action),
        action == AssetAction::Finish(Ok(true)),
    ensures
        downloaded matches Ok((size, contents)) && size == s0.asset.size && hex_lower(
            blake3_digest(contents@),
        ) == s0.asset.blake3@,
        s2.asset == s0.asset,
{
}

/// A fetch is idempotent: once a fetch has installed a download, a later fetch
/// of the same asset, finding the destination as that fetch left it, keeps it
/// without removing or downloading anything.
pub proof fn lemma_installed_file_is_kept(
    s0: AssetDownload,
    s1: AssetDownload,
    s2: AssetDownload,
    size: u64,
    contents: Vec<u8>,
    download_action: AssetAction,
    install_action: AssetAction,
    t0: AssetDownload,
    t1: AssetDownload,
    t2: AssetDownload,
    start_action: AssetAction,
    found_contents: Vec<u8>,
    action: AssetAction,
)
    requires
        AssetDownload::downloaded_step(s0, s1, Ok((size, contents)), download_action),
        s1.phase == AssetPhase::Installing,
        AssetDownload::installed_step(s1, s2, Ok(()), install_action),
        t0.asset == s0.asset,
        found_contents@ == contents@,
        AssetDownload::start_step(t0, t1, true, start_action),
        AssetDownload::existing_read_step(t1, t2, Some((size, found_contents)), action),
    ensures
        install_action == AssetAction::Finish(Ok(true)),
        start_action is ReadExisting,
        action == AssetAction::Finish(Ok(false)),
        t2.phase == AssetPhase::Done,
{
}

/// A fetch that keeps the destination without downloading does so only where
/// the destination already has the size and the BLAKE3 hash that the asset
/// announces.
pub proof fn lemma_kept_file_matches(
    s0: AssetDownload,
    s1: AssetDownload,
    file: Option<(u64, Vec<u8>)>,
    action: AssetAction,
)
    requires
        AssetDownload::existing_read_step(s0, s1, file, action),
        action == AssetAction::Finish(Ok(false)),
    ensures
        file matches Some((size, contents)) && size == s0.asset.size && hex_lower(
            blake3_digest(contents@),
        ) == s0.asset.blake3@,
{
}

/// A destination of another size than the asset's is never kept: the fetch
/// removes it and goes on to download the asset again.
pub proof fn lemma_wrong_size_destination_is_replaced(
    s0: AssetDownload,
    s1: AssetDownload,
    size: u64,
    contents: Vec<u8>,
    action: AssetAction,
)
    requires
        AssetDownload::existing_read_step(s0, s1, Some((size, contents)), action),
        size != s0.asset.size,
    ensures
        action is RemoveExisting,
        s1.phase == AssetPhase::RemovingExisting,
{
}

} // verus!
