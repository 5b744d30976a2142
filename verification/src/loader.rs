use vstd::prelude::*;
use vstd::string::*;

use crate::release::{
    document_accepted, expected_repository, expected_target, release_index_url,
    validate_release_document, first_failed_check, reports_check, default_repository,
    default_target, FetchError, ReleaseDocument,
};
use crate::text::is_blank;

verus! {

/// Where the cached release index is stored.
pub open spec fn index_cache_path() -> Seq<char> {
    "build/remotes/soryos-release/index.json"@
}

/// Where the cached signature of the release index is stored.
pub open spec fn signature_cache_path() -> Seq<char> {
    "build/remotes/soryos-release/index.json.sig"@
}

/// Where the cached public key that signs the release index is stored.
pub open spec fn public_key_cache_path() -> Seq<char> {
    "build/remotes/soryos-release/index-signing-key.pub.pem"@
}

/// The next piece of outside work in loading the release index, or its end.
#[derive(Debug)]
pub enum IndexLoadAction {
    /// Read the cached index at `path` and parse it, then call `index_fetched`.
    ReadCachedIndex { path: String },
    /// Download the index from `url`, store its bytes at `path`, parse them,
    /// then call `index_fetched`.
    DownloadIndex { url: String, path: String },
    /// Tell `signature_files` whether the cached signature and public key exist.
    CheckSignatureFiles { signature_path: String, public_key_path: String },
    /// Download the signature and the public key to their paths, then tell
    /// `signature_files` how that went.
    DownloadSignatureFiles {
        signature_url: String,
        signature_path: String,
        public_key_url: String,
        public_key_path: String,
    },
    /// Verify the signature of the index with the public key, then tell
    /// `signature_verified` how that went.
    VerifySignature { index_path: String, signature_path: String, public_key_path: String },
    /// Loading is over, with this result: the index, or `None` where no index
    /// is configured.
    Finish(Result<Option<ReleaseDocument>, FetchError>),
}

/// What came of fetching the signature files.
pub enum SignatureFiles {
    /// Offline: whether the cached signature and public key exist.
    Present { signature: bool, public_key: bool },
    /// Online: whether downloading and storing them succeeded.
    Downloaded(Result<(), FetchError>),
}

/// Where loading the release index stands.
pub enum LoadPhase {
    /// No load is under way.
    Idle,
    /// The index is being read or downloaded.
    Fetching { index_url: String, offline: bool, repository: String, target: String },
    /// The index passed its checks; its signature files are being fetched.
    Securing {
        document: ReleaseDocument,
        offline: bool,
        index_url: String,
        repository: String,
        target: String,
    },
    /// The signature of the index is being verified.
    Verifying {
        document: ReleaseDocument,
        index_url: String,
        repository: String,
        target: String,
    },
}

/// Loads the signed release index once per process: decides each step, while
/// the caller does the reading, downloading, parsing and signature checking.
pub struct ReleaseIndexLoader {
    /// The outcome of the last successful load: `Some(None)` where no index is
    /// configured, `Some(Some(index))` once an index was loaded and verified.
    pub cache: Option<Option<ReleaseDocument>>,
    pub phase: LoadPhase,
}

/// Whether `action` ends loading with the index `doc` (or with no index).
pub open spec fn finishes_with(action: IndexLoadAction, doc: Option<ReleaseDocument>) -> bool {
    action matches IndexLoadAction::Finish(Ok(result)) && match (result, doc) {
        (None, None) => true,
        (Some(a), Some(b)) => a.equivalent(b),
        _ => false,
    }
}

/// Whether `action` ends loading with the error `e`.
pub open spec fn finishes_with_error(action: IndexLoadAction, e: FetchError) -> bool {
    action == IndexLoadAction::Finish(Err(e))
}

/// The view of an optional configured value.
pub open spec fn value_view(value: Option<String>) -> Option<Seq<char>> {
    match value {
        Some(v) => Some(v@),
        None => None,
    }
}

/// The index URL that a configured value names, if any: blank values name none.
pub open spec fn configured_url(value: Option<Seq<char>>) -> Option<Seq<char>> {
    match value {
        Some(v) => if is_blank(v) {
            None
        } else {
            Some(v)
        },
        None => None,
    }
}

/// A configured value, or a default.
pub open spec fn or_default(value: Option<Seq<char>>, default: Seq<char>) -> Seq<char> {
    match value {
        Some(v) => v,
        None => default,
    }
}

impl ReleaseIndexLoader {
    /// The loader's invariant: a document past its checks, or cached, passed them.
    pub open spec fn wf(&self) -> bool {
        &&& match self.phase {
            LoadPhase::Securing { document, index_url, repository, target, .. } => document_accepted(
                document,
                index_url@,
                repository@,
                target@,
            ),
            LoadPhase::Verifying { document, index_url, repository, target } => document_accepted(
                document,
                index_url@,
                repository@,
                target@,
            ),
            _ => true,
        }
        &&& self.cache matches Some(Some(d)) ==> exists|
            url: Seq<char>,
            repository: Seq<char>,
            target: Seq<char>,
        | document_accepted(d, url, repository, target)
    }

    /// What `start` does: reuse a cached outcome; else finish with no index
    /// where none is configured; else fetch the index, from the cache when
    /// offline, from its URL when online.
    pub open spec fn start_step(
        old: Self,
        new: Self,
        index_url: Option<Seq<char>>,
        offline: bool,
        repository: Option<Seq<char>>,
        target: Option<Seq<char>>,
        action: IndexLoadAction,
    ) -> bool {
        match old.cache {
            Some(outcome) => new == old && finishes_with(action, outcome),
            None => match configured_url(index_url) {
                None => new.cache == Some(None::<ReleaseDocument>) && new.phase is Idle
                    && finishes_with(action, None),
                Some(url) => {
                    &&& new.cache == old.cache
                    &&& new.phase matches LoadPhase::Fetching {
                        index_url: u,
                        offline: o,
                        repository: r,
                        target: t,
                    } && u@ == url && o == offline && r@ == or_default(
                        repository,
                        default_repository(),
                    ) && t@ == or_default(target, default_target())
                    &&& if offline {
                        action matches IndexLoadAction::ReadCachedIndex { path } && path@
                            == index_cache_path()
                    } else {
                        action matches IndexLoadAction::DownloadIndex { url: d, path } && d@
                            == url && path@ == index_cache_path()
                    }
                },
            },
        }
    }

    /// What `index_fetched` does: a fetch error or a failed check ends the load
    /// with that error; an accepted index goes on to its signature files, which
    /// are looked for in the cache when offline and downloaded from the URLs
    /// the index names when online.
    pub open spec fn index_fetched_step(
        old: Self,
        new: Self,
        fetched: Result<ReleaseDocument, FetchError>,
        action: IndexLoadAction,
    ) -> bool {
        match old.phase {
            LoadPhase::Fetching { index_url, offline, repository, target } => {
                &&& new.cache == old.cache
                &&& match fetched {
                    Err(e) => new.phase is Idle && finishes_with_error(action, e),
                    Ok(doc) => match first_failed_check(doc, index_url@, repository@, target@) {
                        Some(check) => new.phase is Idle && (action matches IndexLoadAction::Finish(
                            Err(e),
                        ) && reports_check(e, check, doc, repository@, target@)),
                        None => {
                            &&& new.phase matches LoadPhase::Securing {
                                document: d,
                                offline: o,
                                index_url: u,
                                repository: r,
                                target: t,
                            } && d.equivalent(doc) && o == offline && u == index_url && r
                                == repository && t == target
                            &&& if offline {
                                action matches IndexLoadAction::CheckSignatureFiles {
                                    signature_path,
                                    public_key_path,
                                } && signature_path@ == signature_cache_path()
                                    && public_key_path@ == public_key_cache_path()
                            } else {
                                action matches IndexLoadAction::DownloadSignatureFiles {
                                    signature_url,
                                    signature_path,
                                    public_key_url,
                                    public_key_path,
                                } && signature_url@ == doc.signature.url@ && signature_path@
                                    == signature_cache_path() && public_key_url@
                                    == doc.signature.public_key_url@ && public_key_path@
                                    == public_key_cache_path()
                            }
                        },
                    },
                }
            },
            _ => false,
        }
    }

    /// What `signature_files` does: a missing cached file or a failed download
    /// ends the load with an error; else the signature is to be verified.
    pub open spec fn signature_files_step(
        old: Self,
        new: Self,
        files: SignatureFiles,
        action: IndexLoadAction,
    ) -> bool {
        match old.phase {
            LoadPhase::Securing { document, index_url, repository, target, .. } => {
                let ready = match files {
                    SignatureFiles::Present { signature, public_key } => signature && public_key,
                    SignatureFiles::Downloaded(r) => r is Ok,
                };
                &&& new.cache == old.cache
                &&& if ready {
                    &&& new.phase == LoadPhase::Verifying {
                        document,
                        index_url,
                        repository,
                        target,
                    }
                    &&& action matches IndexLoadAction::VerifySignature {
                        index_path,
                        signature_path,
                        public_key_path,
                    } && index_path@ == index_cache_path() && signature_path@
                        == signature_cache_path() && public_key_path@ == public_key_cache_path()
                } else {
                    &&& new.phase is Idle
                    &&& match files {
                        SignatureFiles::Present { .. } => finishes_with_error(
                            action,
                            FetchError::OfflineSignatureMissing,
                        ),
                        SignatureFiles::Downloaded(r) => (r matches Err(e) && finishes_with_error(
                            action,
                            e,
                        )),
                    }
                }
            },
            _ => false,
        }
    }

    /// What `signature_verified` does: a failed verification ends the load with
    /// its error and caches nothing; a verified index is cached and returned.
    pub open spec fn signature_verified_step(
        old: Self,
        new: Self,
        verified: Result<(), FetchError>,
        action: IndexLoadAction,
    ) -> bool {
        match old.phase {
            LoadPhase::Verifying { document, .. } => {
                &&& new.phase is Idle
                &&& match verified {
                    Err(e) => new.cache == old.cache && finishes_with_error(action, e),
                    Ok(()) => (new.cache matches Some(Some(d)) && d.equivalent(document))
                        && finishes_with(action, Some(document)),
                }
            },
            _ => false,
        }
    }

    /// A loader that has loaded nothing yet.
    pub fn new() -> (r: Self)
        ensures
            r.wf(),
            r.cache is None,
            r.phase is Idle,
    {
        ReleaseIndexLoader { cache: None, phase: LoadPhase::Idle }
    }

    /// Starts loading the release index, given the configured index URL, whether
    /// to work offline, and the configured repository and target (each `None`
    /// where not configured).
    pub fn start(
        &mut self,
        index_url: Option<String>,
        offline: bool,
        repository: Option<String>,
        target: Option<String>,
    ) -> (action: IndexLoadAction)
        requires
            old(self).wf(),
            old(self).phase is Idle,
        ensures
            final(self).wf(),
            Self::start_step(
                *old(self),
                *final(self),
                value_view(index_url),
                offline,
                value_view(repository),
                value_view(target),
                action,
            ),
    {
        match &self.cache {
            Some(outcome) => {
                let result = match outcome {
                    Some(doc) => Some(doc.duplicate()),
                    None => None,
                };
                return IndexLoadAction::Finish(Ok(result));
            },
            None => {},
        }
        let url = match release_index_url(index_url) {
            Some(url) => url,
            None => {
                self.cache = Some(None);
                return IndexLoadAction::Finish(Ok(None));
            },
        };
        let repository = expected_repository(repository);
        let target = expected_target(target);
        let action = if offline {
            IndexLoadAction::ReadCachedIndex {
                path: String::from_str("build/remotes/soryos-release/index.json"),
            }
        } else {
            IndexLoadAction::DownloadIndex {
                url: url.clone(),
                path: String::from_str("build/remotes/soryos-release/index.json"),
            }
        };
        self.phase = LoadPhase::Fetching { index_url: url, offline, repository, target };
        action
    }

    /// Takes the fetched and parsed index, or the error that fetching or
    /// parsing it gave.
    pub fn index_fetched(&mut self, fetched: Result<ReleaseDocument, FetchError>) -> (action:
        IndexLoadAction)
        requires
            old(self).wf(),
            old(self).phase is Fetching,
        ensures
            final(self).wf(),
            Self::index_fetched_step(*old(self), *final(self), fetched, action),
    {
        let mut phase = LoadPhase::Idle;
        std::mem::swap(&mut phase, &mut self.phase);
        let (index_url, offline, repository, target) = match phase {
            LoadPhase::Fetching { index_url, offline, repository, target } => (
                index_url,
                offline,
                repository,
                target,
            ),
            _ => {
                return IndexLoadAction::Finish(Err(FetchError::NotImmutableSchema1));
            },
        };
        let document = match fetched {
            Err(e) => {
                return IndexLoadAction::Finish(Err(e));
            },
            Ok(document) => document,
        };
        match validate_release_document(
            &document,
            index_url.as_str(),
            repository.as_str(),
            target.as_str(),
        ) {
            Err(e) => {
                return IndexLoadAction::Finish(Err(e));
            },
            Ok(()) => {},
        }
        let action = if offline {
            IndexLoadAction::CheckSignatureFiles {
                signature_path: String::from_str("build/remotes/soryos-release/index.json.sig"),
                public_key_path: String::from_str(
                    "build/remotes/soryos-release/index-signing-key.pub.pem",
                ),
            }
        } else {
            IndexLoadAction::DownloadSignatureFiles {
                signature_url: document.signature.url.clone(),
                signature_path: String::from_str("build/remotes/soryos-release/index.json.sig"),
                public_key_url: document.signature.public_key_url.clone(),
                public_key_path: String::from_str(
                    "build/remotes/soryos-release/index-signing-key.pub.pem",
                ),
            }
        };
        self.phase = LoadPhase::Securing { document, offline, index_url, repository, target };
        action
    }

    /// Takes what came of fetching the signature files: whether they exist in
    /// the cache when offline, how downloading them went when online.
    pub fn signature_files(&mut self, files: SignatureFiles) -> (action: IndexLoadAction)
        requires
            old(self).wf(),
            old(self).phase matches LoadPhase::Securing { offline, .. } && (offline
                <==> files is Present),
        ensures
            final(self).wf(),
            Self::signature_files_step(*old(self), *final(self), files, action),
    {
        let mut phase = LoadPhase::Idle;
        std::mem::swap(&mut phase, &mut self.phase);
        let (document, index_url, repository, target) = match phase {
            LoadPhase::Securing { document, index_url, repository, target, .. } => (
                document,
                index_url,
                repository,
                target,
            ),
            _ => {
                return IndexLoadAction::Finish(Err(FetchError::OfflineSignatureMissing));
            },
        };
        match files {
            SignatureFiles::Present { signature, public_key } => {
                if !signature || !public_key {
                    return IndexLoadAction::Finish(Err(FetchError::OfflineSignatureMissing));
                }
            },
            SignatureFiles::Downloaded(Err(e)) => {
                return IndexLoadAction::Finish(Err(e));
            },
            SignatureFiles::Downloaded(Ok(())) => {},
        }
        self.phase = LoadPhase::Verifying { document, index_url, repository, target };
        IndexLoadAction::VerifySignature {
            index_path: String::from_str("build/remotes/soryos-release/index.json"),
            signature_path: String::from_str("build/remotes/soryos-release/index.json.sig"),
            public_key_path: String::from_str(
                "build/remotes/soryos-release/index-signing-key.pub.pem",
            ),
        }
    }

    /// Takes how verifying the signature of the index went.
    pub fn signature_verified(&mut self, verified: Result<(), FetchError>) -> (action:
        IndexLoadAction)
        requires
            old(self).wf(),
            old(self).phase is Verifying,
        ensures
            final(self).wf(),
            Self::signature_verified_step(*old(self), *final(self), verified, action),
    {
        let mut phase = LoadPhase::Idle;
        std::mem::swap(&mut phase, &mut self.phase);
        let document = match phase {
            LoadPhase::Verifying { document, .. } => document,
            _ => {
                return IndexLoadAction::Finish(Ok(None));
            },
        };
        match verified {
            Err(e) => IndexLoadAction::Finish(Err(e)),
            Ok(()) => {
                let result = document.duplicate();
                self.cache = Some(Some(document));
                IndexLoadAction::Finish(Ok(Some(result)))
            },
        }
    }
}

/// Once a load has verified an index and cached it, the next load hands back
/// that same index and changes nothing, whatever it is configured with.
pub proof fn lemma_verified_index_is_reused(
    l0: ReleaseIndexLoader,
    l1: ReleaseIndexLoader,
    l2: ReleaseIndexLoader,
    verified_action: IndexLoadAction,
    index_url: Option<Seq<char>>,
    offline: bool,
    repository: Option<Seq<char>>,
    target: Option<Seq<char>>,
    action: IndexLoadAction,
)
    requires
        ReleaseIndexLoader::signature_verified_step(l0, l1, Ok(()), verified_action),
        ReleaseIndexLoader::start_step(l1, l2, index_url, offline, repository, target, action),
    ensures
        l2 == l1,
        verified_action matches IndexLoadAction::Finish(Ok(Some(first))) && action matches IndexLoadAction::Finish(
            Ok(Some(second)),
        ) && second.equivalent(first),
{
}

/// A load hands back the very index it fetched, with all of its packages in
/// their order, and caches it so: every later load hands back those packages.
pub proof fn lemma_loaded_index_keeps_packages(
    l1: ReleaseIndexLoader,
    l2: ReleaseIndexLoader,
    l3: ReleaseIndexLoader,
    l4: ReleaseIndexLoader,
    l5: ReleaseIndexLoader,
    fetched: ReleaseDocument,
    fetched_action: IndexLoadAction,
    files: SignatureFiles,
    files_action: IndexLoadAction,
    verified_action: IndexLoadAction,
    index_url: Option<Seq<char>>,
    offline: bool,
    repository: Option<Seq<char>>,
    target: Option<Seq<char>>,
    later_action: IndexLoadAction,
)
    requires
        ReleaseIndexLoader::index_fetched_step(l1, l2, Ok(fetched), fetched_action),
        ReleaseIndexLoader::signature_files_step(l2, l3, files, files_action),
        ReleaseIndexLoader::signature_verified_step(l3, l4, Ok(()), verified_action),
        ReleaseIndexLoader::start_step(l4, l5, index_url, offline, repository, target, later_action),
    ensures
        verified_action matches IndexLoadAction::Finish(Ok(Some(d))) && d.packages@
            == fetched.packages@ && d.repository@ == fetched.repository@ && d.release
            == fetched.release,
        l4.cache matches Some(Some(c)) && c.packages@ == fetched.packages@,
        later_action matches IndexLoadAction::Finish(Ok(Some(d))) && d.packages@
            == fetched.packages@,
        l5 == l4,
{
}

/// Every index that a load hands back passed all of its checks: it is an
/// immutable schema 1 document of the expected repository and target, fetched
/// from an index URL, with every URL under its repository and tag.
pub proof fn lemma_returned_index_passed_checks(
    old: ReleaseIndexLoader,
    new: ReleaseIndexLoader,
    index_url: Option<Seq<char>>,
    offline: bool,
    repository: Option<Seq<char>>,
    target: Option<Seq<char>>,
    verified: Result<(), FetchError>,
    action: IndexLoadAction,
    doc: ReleaseDocument,
)
    requires
        old.wf(),
        ReleaseIndexLoader::start_step(old, new, index_url, offline, repository, target, action)
            || ReleaseIndexLoader::signature_verified_step(old, new, verified, action),
        action == IndexLoadAction::Finish(Ok(Some(doc))),
    ensures
        exists|url: Seq<char>, r: Seq<char>, t: Seq<char>| document_accepted(doc, url, r, t),
{
    if ReleaseIndexLoader::start_step(old, new, index_url, offline, repository, target, action) {
        let d = old.cache->0->0;
        let (url, r, t) = choose|url: Seq<char>, r: Seq<char>, t: Seq<char>|
            document_accepted(d, url, r, t);
        assert(document_accepted(doc, url, r, t));
    } else {
        match old.phase {
            LoadPhase::Verifying { document, index_url, repository, target } => {
                assert(document_accepted(doc, index_url@, repository@, target@));
            },
            _ => {},
        }
    }
}

/// A load that ends in an error leaves the cache as it was.
pub proof fn lemma_failed_load_caches_nothing(
    old: ReleaseIndexLoader,
    new: ReleaseIndexLoader,
    fetched: Result<ReleaseDocument, FetchError>,
    files: SignatureFiles,
    verified: Result<(), FetchError>,
    action: IndexLoadAction,
    e: FetchError,
)
    requires
        ReleaseIndexLoader::index_fetched_step(old, new, fetched, action)
            || ReleaseIndexLoader::signature_files_step(old, new, files, action)
            || ReleaseIndexLoader::signature_verified_step(old, new, verified, action),
        action == IndexLoadAction::Finish(Err(e)),
    ensures
        new.cache == old.cache,
{
}

} // verus!
