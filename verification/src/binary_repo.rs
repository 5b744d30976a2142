use vstd::prelude::*;
use vstd::string::*;

use crate::text::{join_path, path_join, same_text};

verus! {

/// The repository listing of a remote, as the package manager parses it.
#[verifier::external_type_specification]
#[verifier::external_body]
pub struct ExRepository(pkg::Repository);

/// The directory where the listings and keys of binary remotes are cached.
pub open spec fn remotes_dir() -> Seq<char> {
    "build/remotes"@
}

/// Where the public key of the remote `remote` is cached.
pub open spec fn binary_pubkey_path(remote: Seq<char>) -> Seq<char> {
    remotes_dir() + "/pub_key_"@ + remote + ".toml"@
}

/// The path of the public key of the first binary remote.
pub fn get_binary_pubkey(remotes: &Vec<String>) -> (r: String)
    requires
        remotes@.len() > 0,
    ensures
        r@ == binary_pubkey_path(remotes@[0]@),
{
    let mut out = String::from_str("build/remotes");
    out.append("/pub_key_");
    out.append(remotes[0].as_str());
    out.append(".toml");
    out
}

/// Where the listing of `remote` for `target` is cached between runs.
pub open spec fn cached_repo_path(remote: Seq<char>, target: Seq<char>) -> Seq<char> {
    remotes_dir() + "/repo_"@ + remote + "_"@ + target + ".toml"@
}

/// The path of the cached listing of the first binary remote for `target`.
pub fn cached_repo_file(remotes: &Vec<String>, target: &str) -> (r: String)
    requires
        remotes@.len() > 0,
    ensures
        r@ == cached_repo_path(remotes@[0]@, target@),
{
    let mut out = String::from_str("build/remotes");
    out.append("/repo_");
    out.append(remotes[0].as_str());
    out.append("_");
    out.append(target);
    out.append(".toml");
    out
}

/// Where a freshly downloaded listing for `target` is written.
pub open spec fn downloaded_repo_path(target: Seq<char>) -> Seq<char> {
    path_join(remotes_dir(), target + "_repo.toml"@)
}

/// The path a freshly downloaded listing for `target` is written to.
pub fn downloaded_repo_file(target: &str) -> (r: String)
    ensures
        r@ == downloaded_repo_path(target@),
{
    let name = target.to_owned().concat("_repo.toml");
    join_path("build/remotes", name.as_str())
}

/// Whether the value of the variable that forces a refresh of the cached
/// listing asks for one: `1`, `true` or `yes`.
pub open spec fn asks_refresh(value: Option<Seq<char>>) -> bool {
    value matches Some(v) && (v == "1"@ || v == "true"@ || v == "yes"@)
}

/// Whether the cached listing is to be refreshed, given the value of the
/// variable that forces it (`None` where unset).
pub fn refresh_requested(value: Option<&str>) -> (r: bool)
    ensures
        r == asks_refresh(
            match value {
                Some(v) => Some(v@),
                None => None,
            },
        ),
{
    match value {
        Some(v) => same_text(v, "1") || same_text(v, "true") || same_text(v, "yes"),
        None => false,
    }
}

/// How long a cached listing stays fresh when working online, in nanoseconds
/// (eight hours).
pub open spec fn cache_lifetime() -> int {
    28_800_000_000_000int
}

/// What to do with the cached listing of a remote.
#[derive(Debug, PartialEq, Eq, Structural)]
pub enum RepoCacheUse {
    /// Do not use it: a refresh is asked for, it does not exist, or its age
    /// cannot be told.
    Skip,
    /// It is stale: remove it and do not use it.
    DiscardStale,
    /// Read and parse it.
    Read,
}

/// The time before which a cached listing is stale, `now` less the cache
/// lifetime, where that time can be written.
pub open spec fn stale_before(now: i128) -> Option<int> {
    if now - cache_lifetime() >= i128::MIN {
        Some(now - cache_lifetime())
    } else {
        None
    }
}

/// What to do with the cached listing, decided as the binary remote does it.
pub open spec fn cache_use_of(
    refresh: bool,
    offline: bool,
    now: i128,
    exists: bool,
    modified: Option<i128>,
) -> RepoCacheUse {
    if refresh || !exists {
        RepoCacheUse::Skip
    } else if offline {
        RepoCacheUse::Read
    } else {
        match (modified, stale_before(now)) {
            (Some(m), Some(stale)) => if m < stale {
                RepoCacheUse::DiscardStale
            } else {
                RepoCacheUse::Read
            },
            _ => RepoCacheUse::Skip,
        }
    }
}

/// Online, without a forced refresh, a cached listing whose modification time
/// is known is discarded exactly when it was last modified more than eight
/// hours before now, however long before, and read otherwise. Offline, an
/// existing listing is always read; a forced refresh or a missing listing is
/// never read.
pub proof fn lemma_stale_listing_is_discarded(
    refresh: bool,
    offline: bool,
    now: i128,
    exists: bool,
    modified: Option<i128>,
)
    ensures
        forall|m: i128|
            !refresh && exists && !offline && modified == Some(m) && now - 28_800_000_000_000
                >= i128::MIN ==> (cache_use_of(refresh, offline, now, exists, modified)
                == RepoCacheUse::DiscardStale <==> m < now - 28_800_000_000_000) && (cache_use_of(
                refresh,
                offline,
                now,
                exists,
                modified,
            ) == RepoCacheUse::Read <==> m >= now - 28_800_000_000_000),
        !refresh && exists && offline ==> cache_use_of(refresh, offline, now, exists, modified)
            == RepoCacheUse::Read,
        refresh || !exists ==> cache_use_of(refresh, offline, now, exists, modified)
            == RepoCacheUse::Skip,
{
}

/// Decides what to do with the cached listing, given whether a refresh is
/// asked for, whether to work offline, the current time, whether the cached
/// file exists, and the time it was last modified (`None` where that cannot be
/// read); times are in nanoseconds from the Unix epoch. Offline, a cached
/// listing never goes stale and its age is not looked at; online, a listing
/// last modified more than eight hours ago is stale, and one whose age cannot
/// be told is skipped.
pub fn cached_repo_use(
    refresh: bool,
    offline: bool,
    now: i128,
    exists: bool,
    modified: Option<i128>,
) -> (r: RepoCacheUse)
    ensures
        r == cache_use_of(refresh, offline, now, exists, modified),
        forall|m: i128|
            !refresh && exists && !offline && modified == Some(m) && now - 28_800_000_000_000
                >= i128::MIN ==> (r == RepoCacheUse::DiscardStale <==> m < now
                - 28_800_000_000_000) && (r == RepoCacheUse::Read <==> m >= now
                - 28_800_000_000_000),
{
    if refresh || !exists {
        return RepoCacheUse::Skip;
    }
    if offline {
        return RepoCacheUse::Read;
    }
    let m = match modified {
        Some(m) => m,
        None => {
            return RepoCacheUse::Skip;
        },
    };
    proof {
        lemma_stale_listing_is_discarded(refresh, offline, now, exists, modified);
    }
    let stale = match now.checked_sub(28_800_000_000_000i128) {
        Some(stale) => stale,
        None => {
            return RepoCacheUse::Skip;
        },
    };
    if m < stale {
        RepoCacheUse::DiscardStale
    } else {
        RepoCacheUse::Read
    }
}

/// Whether `pkg::Repository::from_toml` parses `text` into a listing, which
/// depends on the text alone.
pub uninterp spec fn repository_toml_parses(text: Seq<char>) -> bool;

/// Calls `pkg::Repository::from_toml` on `text` and keeps the listing it
/// parses, if any: there is one exactly when the text parses. Nothing is
/// stated of the listing itself: it is an outside value that the library only
/// carries.
#[verifier::external_body]
fn parse_repository(text: &str) -> (r: Option<pkg::Repository>)
    ensures
        r is Some <==> repository_toml_parses(text@),
{
    pkg::Repository::from_toml(text).ok()
}

/// The listing that a remote serves, parsed from its text: there is one
/// exactly when the text parses.
pub fn parse_downloaded_repo(text: &str) -> (r: Option<pkg::Repository>)
    ensures
        r is Some <==> repository_toml_parses(text@),
{
    parse_repository(text)
}

/// The cached listing, given what to do with it and its text (`None` where
/// reading it failed): there is one exactly when it is to be read, could be,
/// and its text parses.
pub fn load_cached_repo(cache_use: RepoCacheUse, text: Option<&str>) -> (r: Option<
    pkg::Repository,
>)
    ensures
        r is Some <==> (cache_use == RepoCacheUse::Read && (text matches Some(t)
            && repository_toml_parses(t@))),
{
    match cache_use {
        RepoCacheUse::Read => match text {
            Some(t) => parse_repository(t),
            None => None,
        },
        _ => None,
    }
}

} // verus!
