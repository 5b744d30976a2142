use vstd::prelude::*;
use vstd::string::*;

use crate::text::{
    blank, is_blank, join_path, lemma_text_less_distinct, lemma_text_less_transitive, path_join,
    same_text, strip_suffix, text_before, text_less,
};

verus! {

/// One file published with a release: where to fetch it and what it must hash to.
#[derive(Clone, Debug)]
pub struct ReleaseAsset {
    pub name: String,
    pub url: String,
    pub size: u64,
    pub blake3: String,
}

/// The two assets of one package: its archive and its metadata.
#[derive(Clone, Debug)]
pub struct ReleasePackage {
    pub pkgar: ReleaseAsset,
    pub metadata: ReleaseAsset,
}

/// Where the signature of a release index and its keys are published.
#[derive(Clone, Debug)]
pub struct ReleaseSignature {
    pub url: String,
    pub public_key_url: String,
    pub runtime_public_key_url: String,
}

/// The release an index describes.
#[derive(Clone, Debug)]
pub struct ReleaseInfo {
    pub tag: String,
    pub immutable: bool,
}

/// A release index: the packages of one immutable release of one repository.
///
/// `packages` lists each package under its name; an index read from its JSON
/// map lists them in the order of their names, each name once
/// (`packages_in_name_order`).
#[derive(Clone, Debug)]
pub struct ReleaseDocument {
    pub schema: u32,
    pub repository: String,
    pub target: String,
    pub release: ReleaseInfo,
    pub packages: Vec<(String, ReleasePackage)>,
    pub pkgar_public_key: Option<ReleaseAsset>,
    pub signature: ReleaseSignature,
}

/// Why fetching or checking a release failed.
#[derive(Debug)]
pub enum FetchError {
    /// The index is not an immutable schema 1 document.
    NotImmutableSchema1,
    /// The index belongs to another repository than the expected one.
    RepositoryMismatch { expected: String, found: String },
    /// The index was built for another target than the expected one.
    TargetMismatch { expected: String, found: String },
    /// The index URL does not end with `/index.json`.
    IndexUrlSuffix,
    /// The URLs of the index do not belong to its repository and tag.
    UrlMismatch,
    /// Working offline, the cached signature or public key is missing.
    OfflineSignatureMissing,
    /// The index publishes no public key for package archives.
    MissingPkgarKey,
    /// A file does not have the size and BLAKE3 hash that its asset announces.
    AssetMismatch { name: String, size: u64, blake3: String },
    /// An outside operation (reading, writing, downloading, parsing, verifying a
    /// signature) failed; the message says how.
    Outside(String),
}

impl ReleaseAsset {
    /// A field-by-field copy.
    pub fn duplicate(&self) -> (r: Self)
        ensures
            r == *self,
    {
        ReleaseAsset {
            name: self.name.clone(),
            url: self.url.clone(),
            size: self.size,
            blake3: self.blake3.clone(),
        }
    }
}

impl ReleasePackage {
    /// A field-by-field copy.
    pub fn duplicate(&self) -> (r: Self)
        ensures
            r == *self,
    {
        ReleasePackage { pkgar: self.pkgar.duplicate(), metadata: self.metadata.duplicate() }
    }
}

impl ReleaseDocument {
    /// Whether two documents hold the same fields and list the same packages.
    pub open spec fn equivalent(self, other: Self) -> bool {
        &&& self.schema == other.schema
        &&& self.repository == other.repository
        &&& self.target == other.target
        &&& self.release == other.release
        &&& self.packages@ == other.packages@
        &&& self.pkgar_public_key == other.pkgar_public_key
        &&& self.signature == other.signature
    }

    /// A field-by-field copy: the same fields, the same packages in the same order.
    pub fn duplicate(&self) -> (r: Self)
        ensures
            r.equivalent(*self),
            r.schema == self.schema,
            r.repository == self.repository,
            r.target == self.target,
            r.release == self.release,
            r.packages@ == self.packages@,
            r.pkgar_public_key == self.pkgar_public_key,
            r.signature == self.signature,
    {
        let mut packages: Vec<(String, ReleasePackage)> = Vec::new();
        let n = self.packages.len();
        let mut i: usize = 0;
        while i < n
            invariant
                n == self.packages@.len(),
                i <= n,
                packages@ =~= self.packages@.subrange(0, i as int),
            decreases n - i,
        {
            let entry = &self.packages[i];
            packages.push((entry.0.clone(), entry.1.duplicate()));
            i = i + 1;
        }
        assert(packages@ =~= self.packages@);
        ReleaseDocument {
            schema: self.schema,
            repository: self.repository.clone(),
            target: self.target.clone(),
            release: ReleaseInfo { tag: self.release.tag.clone(), immutable: self.release.immutable },
            packages,
            pkgar_public_key: match &self.pkgar_public_key {
                Some(asset) => Some(asset.duplicate()),
                None => None,
            },
            signature: ReleaseSignature {
                url: self.signature.url.clone(),
                public_key_url: self.signature.public_key_url.clone(),
                runtime_public_key_url: self.signature.runtime_public_key_url.clone(),
            },
        }
    }
}

// ---------------------------------------------------------------------------
// Configuration read from the environment

/// The release index URL, from the value of the variable that configures it
/// (`None` where the variable is unset): blank values do not count.
pub fn release_index_url(value: Option<String>) -> (r: Option<String>)
    ensures
        r matches Some(u) ==> value matches Some(v) && u@ == v@,
        r is Some <==> (value matches Some(v) && !is_blank(v@)),
{
    match value {
        Some(v) => if blank(v.as_str()) {
            None
        } else {
            Some(v)
        },
        None => None,
    }
}

/// Whether a release index is configured, given the value of the variable that
/// names its URL: it is where that value is present and not blank.
pub fn release_index_configured(value: Option<String>) -> (r: bool)
    ensures
        r <==> (value matches Some(v) && !is_blank(v@)),
{
    release_index_url(value).is_some()
}

/// The repository a release index must belong to, unless configured otherwise.
pub open spec fn default_repository() -> Seq<char> {
    "sory-x/soryos-apt"@
}

/// The target a release index must be built for, unless configured otherwise.
pub open spec fn default_target() -> Seq<char> {
    "x86_64-unknown-redox"@
}

/// The repository a release index must belong to: the configured one, or the default.
pub fn expected_repository(value: Option<String>) -> (r: String)
    ensures
        match value {
            Some(v) => r@ == v@,
            None => r@ == default_repository(),
        },
{
    match value {
        Some(v) => v,
        None => String::from_str("sory-x/soryos-apt"),
    }
}

/// The target a release index must be built for: the configured one, or the default.
pub fn expected_target(value: Option<String>) -> (r: String)
    ensures
        match value {
            Some(v) => r@ == v@,
            None => r@ == default_target(),
        },
{
    match value {
        Some(v) => v,
        None => String::from_str("x86_64-unknown-redox"),
    }
}

// ---------------------------------------------------------------------------
// Checking a release index

/// The suffix that every release index URL ends with.
pub open spec fn index_suffix() -> Seq<char> {
    "/index.json"@
}

/// Whether `url` ends with the index suffix.
pub open spec fn has_index_suffix(url: Seq<char>) -> bool {
    exists|base: Seq<char>| url == base + index_suffix()
}

/// The release base of an index URL: the URL without its index suffix.
pub open spec fn release_base_of(url: Seq<char>) -> Seq<char> {
    url.subrange(0, url.len() - index_suffix().len())
}

/// The base of the download URLs of the release that a document describes.
pub open spec fn expected_release_base(doc: ReleaseDocument) -> Seq<char> {
    "https://github.com/"@ + doc.repository@ + "/releases/download/"@ + doc.release.tag@
}

/// Whether a document is an immutable schema 1 document.
pub open spec fn is_immutable_schema1(doc: ReleaseDocument) -> bool {
    doc.schema == 1 && doc.release.immutable
}

/// Whether the release base and the signature URLs of a document all lie under
/// its repository and tag.
pub open spec fn urls_match(doc: ReleaseDocument, base: Seq<char>) -> bool {
    &&& base == expected_release_base(doc)
    &&& doc.signature.url@ == base + "/index.json.sig"@
    &&& doc.signature.public_key_url@ == base + "/index-signing-key.pub.pem"@
    &&& doc.signature.runtime_public_key_url@ == base + "/index-signing-key.pub.hex"@
}

/// Whether a document fetched from `url` is the release index that was asked for:
/// immutable, of schema 1, of the expected repository and target, with every URL
/// under its repository and tag.
pub open spec fn document_accepted(
    doc: ReleaseDocument,
    url: Seq<char>,
    repository: Seq<char>,
    target: Seq<char>,
) -> bool {
    &&& is_immutable_schema1(doc)
    &&& doc.repository@ == repository
    &&& doc.target@ == target
    &&& has_index_suffix(url)
    &&& urls_match(doc, release_base_of(url))
}

proof fn lemma_base_unique(url: Seq<char>, base: Seq<char>)
    requires
        url == base + index_suffix(),
    ensures
        base == release_base_of(url),
{
    assert(base =~= release_base_of(url));
}

/// The checks a release index goes through, in their order.
pub enum IndexCheck {
    Schema,
    Repository,
    Target,
    IndexUrlSuffix,
    Urls,
}

/// The first check that a document fetched from `url` fails, if any.
pub open spec fn first_failed_check(
    doc: ReleaseDocument,
    url: Seq<char>,
    repository: Seq<char>,
    target: Seq<char>,
) -> Option<IndexCheck> {
    if !is_immutable_schema1(doc) {
        Some(IndexCheck::Schema)
    } else if doc.repository@ != repository {
        Some(IndexCheck::Repository)
    } else if doc.target@ != target {
        Some(IndexCheck::Target)
    } else if !has_index_suffix(url) {
        Some(IndexCheck::IndexUrlSuffix)
    } else if !urls_match(doc, release_base_of(url)) {
        Some(IndexCheck::Urls)
    } else {
        None
    }
}

/// Whether `e` is the error that reports the failed check `check` of `doc`
/// against the expected `repository` and `target`.
pub open spec fn reports_check(
    e: FetchError,
    check: IndexCheck,
    doc: ReleaseDocument,
    repository: Seq<char>,
    target: Seq<char>,
) -> bool {
    match check {
        IndexCheck::Schema => e is NotImmutableSchema1,
        IndexCheck::Repository => e matches FetchError::RepositoryMismatch { expected, found }
            && expected@ == repository && found@ == doc.repository@,
        IndexCheck::Target => e matches FetchError::TargetMismatch { expected, found }
            && expected@ == target && found@ == doc.target@,
        IndexCheck::IndexUrlSuffix => e is IndexUrlSuffix,
        IndexCheck::Urls => e is UrlMismatch,
    }
}

/// Whether a document fetched from `url` is an immutable schema 1 index of
/// `repository` for `target`, whose URL and signature URLs all lie under
/// `https://github.com/<repository>/releases/download/<tag>`, written out in
/// full.
pub open spec fn index_matches_release(
    doc: ReleaseDocument,
    url: Seq<char>,
    repository: Seq<char>,
    target: Seq<char>,
) -> bool {
    let base = "https://github.com/"@ + doc.repository@ + "/releases/download/"@
        + doc.release.tag@;
    &&& doc.schema == 1
    &&& doc.release.immutable
    &&& doc.repository@ == repository
    &&& doc.target@ == target
    &&& url == base + "/index.json"@
    &&& doc.signature.url@ == base + "/index.json.sig"@
    &&& doc.signature.public_key_url@ == base + "/index-signing-key.pub.pem"@
    &&& doc.signature.runtime_public_key_url@ == base + "/index-signing-key.pub.hex"@
}

/// A release index is accepted exactly when it is an immutable schema 1 index
/// of the expected repository and target, fetched from
/// `<base>/index.json`, whose signature, public key and runtime public key are
/// published at `<base>/index.json.sig`, `<base>/index-signing-key.pub.pem` and
/// `<base>/index-signing-key.pub.hex`, where `<base>` is the download URL of
/// its repository and tag. An index with any other URL is refused.
pub proof fn lemma_accepted_index_lies_under_its_release(
    doc: ReleaseDocument,
    url: Seq<char>,
    repository: Seq<char>,
    target: Seq<char>,
)
    ensures
        document_accepted(doc, url, repository, target) <==> index_matches_release(
            doc,
            url,
            repository,
            target,
        ),
{
    let base = "https://github.com/"@ + doc.repository@ + "/releases/download/"@
        + doc.release.tag@;
    if document_accepted(doc, url, repository, target) {
        let b = choose|b: Seq<char>| url == b + index_suffix();
        assert(b =~= release_base_of(url));
    }
    if index_matches_release(doc, url, repository, target) {
        assert(url == base + index_suffix());
        assert(base =~= release_base_of(url));
    }
}

/// Checks a release index fetched from `index_url` against the repository and
/// target it must have, in this order: schema and immutability, repository,
/// target, URL suffix, URLs. The first check that fails gives the error.
pub fn validate_release_document(
    doc: &ReleaseDocument,
    index_url: &str,
    expected_repository: &str,
    expected_target: &str,
) -> (r: Result<(), FetchError>)
    ensures
        r is Ok <==> document_accepted(*doc, index_url@, expected_repository@, expected_target@),
        r is Ok <==> index_matches_release(*doc, index_url@, expected_repository@, expected_target@),
        match first_failed_check(*doc, index_url@, expected_repository@, expected_target@) {
            None => r is Ok,
            Some(check) => r matches Err(e) && reports_check(
                e,
                check,
                *doc,
                expected_repository@,
                expected_target@,
            ),
        },
{
    proof {
        lemma_accepted_index_lies_under_its_release(
            *doc,
            index_url@,
            expected_repository@,
            expected_target@,
        );
    }
    if doc.schema != 1 || !doc.release.immutable {
        return Err(FetchError::NotImmutableSchema1);
    }
    if !same_text(doc.repository.as_str(), expected_repository) {
        return Err(
            FetchError::RepositoryMismatch {
                expected: expected_repository.to_owned(),
                found: doc.repository.clone(),
            },
        );
    }
    if !same_text(doc.target.as_str(), expected_target) {
        return Err(
            FetchError::TargetMismatch {
                expected: expected_target.to_owned(),
                found: doc.target.clone(),
            },
        );
    }
    let release_base = match strip_suffix(index_url, "/index.json") {
        Some(base) => base,
        None => {
            return Err(FetchError::IndexUrlSuffix);
        },
    };
    proof {
        lemma_base_unique(index_url@, release_base@);
    }
    let mut expected_base = String::from_str("https://github.com/");
    expected_base.append(doc.repository.as_str());
    expected_base.append("/releases/download/");
    expected_base.append(doc.release.tag.as_str());
    let signature_url = release_base.clone().concat("/index.json.sig");
    let public_key_url = release_base.clone().concat("/index-signing-key.pub.pem");
    let runtime_public_key_url = release_base.clone().concat("/index-signing-key.pub.hex");
    if release_base != expected_base || doc.signature.url != signature_url
        || doc.signature.public_key_url != public_key_url || doc.signature.runtime_public_key_url
        != runtime_public_key_url {
        return Err(FetchError::UrlMismatch);
    }
    Ok(())
}

// ---------------------------------------------------------------------------
// Looking up a release index

/// Whether the `i`th package entry of `doc` is listed under `name`.
pub open spec fn package_named(doc: ReleaseDocument, i: int, name: Seq<char>) -> bool {
    0 <= i < doc.packages@.len() && doc.packages@[i].0@ == name
}

/// Whether the packages of `doc` are listed in the order of their names, each
/// name once, as a map keyed by name lists them.
pub open spec fn packages_in_name_order(doc: ReleaseDocument) -> bool {
    forall|i: int, j: int|
        0 <= i < j < doc.packages@.len() ==> text_less(
            #[trigger] doc.packages@[i].0@,
            #[trigger] doc.packages@[j].0@,
        )
}

/// A document whose packages are in name order lists each name once.
pub proof fn lemma_package_names_unique(doc: ReleaseDocument, i: int, j: int, name: Seq<char>)
    requires
        packages_in_name_order(doc),
        package_named(doc, i, name),
        package_named(doc, j, name),
    ensures
        i == j,
{
    if i < j {
        lemma_text_less_distinct(doc.packages@[i].0@, doc.packages@[j].0@);
    } else if j < i {
        lemma_text_less_distinct(doc.packages@[j].0@, doc.packages@[i].0@);
    }
}

/// Whether the packages of `doc` are listed in the order of their names, each
/// name once.
pub fn has_packages_in_name_order(doc: &ReleaseDocument) -> (r: bool)
    ensures
        r == packages_in_name_order(*doc),
{
    let n = doc.packages.len();
    if n == 0 {
        return true;
    }
    let mut k: usize = 1;
    while k < n
        invariant
            n == doc.packages@.len(),
            1 <= k <= n,
            forall|i: int, j: int|
                0 <= i < j < k ==> text_less(
                    #[trigger] doc.packages@[i].0@,
                    #[trigger] doc.packages@[j].0@,
                ),
        decreases n - k,
    {
        if !text_before(doc.packages[k - 1].0.as_str(), doc.packages[k].0.as_str()) {
            assert(!text_less(doc.packages@[k - 1].0@, doc.packages@[k as int].0@));
            return false;
        }
        assert forall|i: int, j: int|
            0 <= i < j < k + 1 implies text_less(
                #[trigger] doc.packages@[i].0@,
                #[trigger] doc.packages@[j].0@,
            ) by {
            if j == k && i < k - 1 {
                lemma_text_less_transitive(
                    doc.packages@[i].0@,
                    doc.packages@[k - 1].0@,
                    doc.packages@[j].0@,
                );
            }
        }
        k = k + 1;
    }
    true
}

/// The package that a loaded release index lists under `name`; `None` where no
/// index is loaded or it lists no such package. The packages of the index are
/// in name order, so at most one is listed under `name`.
pub fn get_release_package(index: &Option<ReleaseDocument>, name: &str) -> (r: Option<
    ReleasePackage,
>)
    requires
        *index matches Some(doc) ==> packages_in_name_order(doc),
    ensures
        *index is None ==> r is None,
        *index matches Some(doc) ==> {
            &&& r is Some <==> exists|i: int| package_named(doc, i, name@)
            &&& r matches Some(p) ==> forall|i: int|
                #![trigger doc.packages@[i]]
                package_named(doc, i, name@) ==> p == doc.packages@[i].1
        },
{
    match index {
        None => None,
        Some(doc) => {
            let n = doc.packages.len();
            let mut i: usize = 0;
            while i < n
                invariant
                    *index == Some(*doc),
                    packages_in_name_order(*doc),
                    n == doc.packages@.len(),
                    i <= n,
                    forall|j: int| 0 <= j < i ==> !package_named(*doc, j, name@),
                decreases n - i,
            {
                let entry = &doc.packages[i];
                if same_text(entry.0.as_str(), name) {
                    assert(package_named(*doc, i as int, name@));
                    assert(doc.packages@[i as int] == *entry);
                    assert forall|k: int| #![trigger doc.packages@[k]]
                        package_named(*doc, k, name@) implies entry.1 == doc.packages@[k].1 by {
                        lemma_package_names_unique(*doc, i as int, k, name@);
                    }
                    return Some(entry.1.duplicate());
                }
                i = i + 1;
            }
            None
        },
    }
}

/// The directory where the release index and its files are cached.
pub open spec fn release_cache_dir() -> Seq<char> {
    "build/remotes/soryos-release"@
}

/// What fetching the public key for package archives needs, given the loaded
/// release index: nothing where no index is loaded; an error where the index
/// publishes no key; else the key's asset and the path it is to be stored at.
pub fn get_release_pubkey(index: &Option<ReleaseDocument>) -> (r: Result<
    Option<(ReleaseAsset, String)>,
    FetchError,
>)
    ensures
        *index is None ==> r == Ok::<Option<(ReleaseAsset, String)>, FetchError>(None),
        *index matches Some(doc) ==> match doc.pkgar_public_key {
            None => r == Err::<Option<(ReleaseAsset, String)>, FetchError>(
                FetchError::MissingPkgarKey,
            ),
            Some(asset) => r matches Ok(Some((a, path))) && a == asset && path@ == path_join(
                release_cache_dir(),
                asset.name@,
            ),
        },
{
    match index {
        None => Ok(None),
        Some(doc) => match &doc.pkgar_public_key {
            None => Err(FetchError::MissingPkgarKey),
            Some(asset) => {
                let path = join_path("build/remotes/soryos-release", asset.name.as_str());
                Ok(Some((asset.duplicate(), path)))
            },
        },
    }
}

} // verus!
