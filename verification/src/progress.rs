use vstd::prelude::*;
use vstd::string::*;

use crate::text::{decimal, push_decimal};

verus! {

/// The control sequence that returns to the start of the line and clears it.
pub open spec fn reset_line() -> Seq<char> {
    "\r\x1b[2K"@
}

/// The line that shows how many packages were fetched out of how many.
pub open spec fn fetching_line(processed: nat, total: nat) -> Seq<char> {
    reset_line() + "Fetching: ["@ + decimal(processed) + "/"@ + decimal(total) + "]"@
}

/// Where a download of known size stands, for the caller to render.
#[derive(Debug)]
pub struct DownloadProgress {
    pub pos: u64,
    pub size: u64,
    pub file_name: String,
}

/// Progress of package fetching and downloading, as shown on a terminal that
/// the caller writes the returned text to.
#[derive(Debug)]
pub struct PlainPtyCallback {
    pub size: u64,
    pub unknown_size: bool,
    pub pos: u64,
    pub fetch_processed: usize,
    pub fetch_total: usize,
    pub interactive: bool,
    pub download_file: Option<String>,
}

impl PlainPtyCallback {
    /// The invariant: while the size of a download is unknown, the size counts
    /// the bytes received so far.
    pub open spec fn wf(&self) -> bool {
        self.unknown_size ==> self.size == self.pos
    }

    /// Whether `new` is `old` with only the fetch counters set.
    pub open spec fn fetch_counters_set(old: Self, new: Self, processed: nat, total: nat) -> bool {
        new == Self { fetch_processed: processed as usize, fetch_total: total as usize, ..old }
            && new.fetch_processed == processed && new.fetch_total == total
    }

    /// What `download_start` does: it sets the size, whether it is unknown,
    /// and the position; for a known size it names the file and returns the
    /// line that announces the download.
    pub open spec fn download_start_step(
        old: Self,
        new: Self,
        length: u64,
        file: Seq<char>,
        text: Option<String>,
    ) -> bool {
        &&& new.size == length
        &&& new.unknown_size == (length == 0)
        &&& new.pos == 0
        &&& new.fetch_processed == old.fetch_processed
        &&& new.fetch_total == old.fetch_total
        &&& new.interactive == old.interactive
        &&& if length == 0 {
            text is None && new.download_file == old.download_file
        } else {
            &&& text matches Some(t) && t@ == reset_line() + "Downloading"@ + " "@ + file
            &&& new.download_file matches Some(f) && f@ == file
        }
    }

    /// What `download_increment` does: it adds the bytes to the position, and
    /// to the size where that is unknown; for a known size it reports where
    /// the download stands.
    pub open spec fn download_increment_step(
        old: Self,
        new: Self,
        downloaded: u64,
        progress: Option<DownloadProgress>,
    ) -> bool {
        &&& new.pos == old.pos + downloaded
        &&& new.size == if old.unknown_size {
            old.size + downloaded
        } else {
            old.size as int
        }
        &&& new == (Self { pos: new.pos, size: new.size, ..old })
        &&& if old.unknown_size {
            progress is None
        } else {
            progress matches Some(p) && p.pos == new.pos && p.size == new.size && p.file_name@
                == match old.download_file {
                Some(f) => f@,
                None => Seq::<char>::empty(),
            }
        }
    }

    /// What `download_end` does: for a known size it forgets the file and
    /// returns the end of the progress line; else it does nothing.
    pub open spec fn download_end_step(old: Self, new: Self, text: Option<String>) -> bool {
        if old.unknown_size {
            text is None && new == old
        } else {
            &&& text matches Some(t) && t@ == "\n"@
            &&& new == (Self { download_file: None, ..old })
        }
    }

    /// A callback with nothing fetched or downloaded yet.
    pub fn new() -> (r: Self)
        ensures
            r.wf(),
            r.size == 0,
            !r.unknown_size,
            r.pos == 0,
            r.fetch_processed == 0,
            r.fetch_total == 0,
            !r.interactive,
            r.download_file is None,
    {
        PlainPtyCallback {
            size: 0,
            unknown_size: false,
            pos: 0,
            fetch_processed: 0,
            fetch_total: 0,
            interactive: false,
            download_file: None,
        }
    }

    /// Sets whether the user is to agree on the terminal.
    pub fn set_interactive(&mut self, enabled: bool)
        ensures
            *final(self) == (Self { interactive: enabled, ..*old(self) }),
    {
        self.interactive = enabled;
    }

    fn downloading_str(&self) -> (r: &'static str)
        ensures
            r@ == "Downloading"@,
    {
        "Downloading"
    }

    fn fetching_text(processed: usize, total: usize) -> (r: String)
        ensures
            r@ == fetching_line(processed as nat, total as nat),
    {
        let mut out = String::from_str("\r\x1b[2K");
        out.append("Fetching: [");
        push_decimal(&mut out, processed as u64);
        out.append("/");
        push_decimal(&mut out, total as u64);
        out.append("]");
        out
    }

    /// Starts fetching `initial_count` packages; returns the text to write.
    pub fn fetch_start(&mut self, initial_count: usize) -> (text: String)
        ensures
            Self::fetch_counters_set(*old(self), *final(self), 0, initial_count as nat),
            text@ == fetching_line(0, initial_count as nat),
    {
        self.fetch_total = 0;
        self.fetch_processed = 0;
        self.fetch_package_increment(0, initial_count)
    }

    /// The text that names a package being fetched.
    pub fn fetch_package_name(&self, pkg_name: &str) -> (text: String)
        ensures
            text@ == " "@ + pkg_name@,
    {
        let mut out = String::from_str(" ");
        out.append(pkg_name);
        out
    }

    /// Counts `added_processed` more packages fetched out of `added_count` more;
    /// returns the text to write.
    pub fn fetch_package_increment(&mut self, added_processed: usize, added_count: usize) -> (text:
        String)
        requires
            old(self).fetch_processed + added_processed <= usize::MAX,
            old(self).fetch_total + added_count <= usize::MAX,
        ensures
            Self::fetch_counters_set(
                *old(self),
                *final(self),
                (old(self).fetch_processed + added_processed) as nat,
                (old(self).fetch_total + added_count) as nat,
            ),
            text@ == fetching_line(final(self).fetch_processed as nat, final(self).fetch_total as nat),
    {
        self.fetch_processed = self.fetch_processed + added_processed;
        self.fetch_total = self.fetch_total + added_count;
        Self::fetching_text(self.fetch_processed, self.fetch_total)
    }

    /// Ends fetching; returns the line to write, which says whether every
    /// counted package was fetched.
    pub fn fetch_end(&self) -> (text: String)
        ensures
            text@ == reset_line() + (if self.fetch_processed == self.fetch_total {
                "Fetch complete."@
            } else {
                "Fetch incomplete."@
            }) + "\n"@,
    {
        let mut out = String::from_str("\r\x1b[2K");
        if self.fetch_processed == self.fetch_total {
            out.append("Fetch complete.");
        } else {
            out.append("Fetch incomplete.");
        }
        out.append("\n");
        out
    }

    /// Starts downloading `file`, of `length` bytes (0 where unknown); returns
    /// the text to write, which is none for a download of unknown size.
    pub fn download_start(&mut self, length: u64, file: &str) -> (text: Option<String>)
        ensures
            final(self).wf(),
            Self::download_start_step(*old(self), *final(self), length, file@, text),
    {
        self.size = length;
        self.unknown_size = length == 0;
        self.pos = 0;
        if !self.unknown_size {
            let mut out = String::from_str("\r\x1b[2K");
            out.append(self.downloading_str());
            out.append(" ");
            out.append(file);
            self.download_file = Some(file.to_owned());
            Some(out)
        } else {
            None
        }
    }

    /// Counts `downloaded` more bytes; returns where a download of known size
    /// stands, for the caller to render, and nothing for one of unknown size.
    pub fn download_increment(&mut self, downloaded: u64) -> (progress: Option<DownloadProgress>)
        requires
            old(self).wf(),
            old(self).pos + downloaded <= u64::MAX,
        ensures
            final(self).wf(),
            Self::download_increment_step(*old(self), *final(self), downloaded, progress),
    {
        self.pos = self.pos + downloaded;
        if self.unknown_size {
            self.size = self.size + downloaded;
        }
        if self.unknown_size {
            return None;
        }
        let file_name = match &self.download_file {
            Some(f) => f.clone(),
            None => String::new(),
        };
        Some(DownloadProgress { pos: self.pos, size: self.size, file_name })
    }

    /// Ends a download; returns the text to write, which ends the progress
    /// line of a download of known size.
    pub fn download_end(&mut self) -> (text: Option<String>)
        ensures
            Self::download_end_step(*old(self), *final(self), text),
    {
        if !self.unknown_size {
            self.download_file = None;
            Some(String::from_str("\n"))
        } else {
            None
        }
    }

    /// The line that says a package is being extracted.
    pub fn install_extract(&self, pkg_name: &str) -> (text: String)
        ensures
            text@ == "Extracting "@ + pkg_name@ + "...\n"@,
    {
        let mut out = String::from_str("Extracting ");
        out.append(pkg_name);
        out.append("...\n");
        out
    }
}

/// The number of bytes that a sequence of increments adds up to.
pub open spec fn total(amounts: Seq<u64>) -> int
    decreases amounts.len(),
{
    if amounts.len() == 0 {
        0
    } else {
        total(amounts.drop_last()) + amounts.last()
    }
}

proof fn lemma_total_take(amounts: Seq<u64>, k: int)
    requires
        0 <= k < amounts.len(),
    ensures
        total(amounts.take(k + 1)) == total(amounts.take(k)) + amounts[k],
{
    assert(amounts.take(k + 1).drop_last() =~= amounts.take(k));
}

/// A download of known size `length`: after any number of increments the
/// size stays `length`, the position is the sum of the bytes counted so far,
/// the file stays named, and each increment reports that position, that size
/// and the file's name.
pub proof fn lemma_known_size_download(
    start: PlainPtyCallback,
    states: Seq<PlainPtyCallback>,
    length: u64,
    file: Seq<char>,
    text: Option<String>,
    amounts: Seq<u64>,
    reports: Seq<Option<DownloadProgress>>,
)
    requires
        length > 0,
        states.len() == amounts.len() + 1,
        reports.len() == amounts.len(),
        PlainPtyCallback::download_start_step(start, states[0], length, file, text),
        forall|k: int|
            0 <= k < amounts.len() ==> PlainPtyCallback::download_increment_step(
                #[trigger] states[k],
                states[k + 1],
                amounts[k],
                reports[k],
            ),
    ensures
        forall|k: int|
            0 <= k < states.len() ==> {
                &&& (#[trigger] states[k]).size == length
                &&& !states[k].unknown_size
                &&& states[k].pos == total(amounts.take(k))
                &&& states[k].download_file matches Some(f) && f@ == file
            },
        forall|k: int|
            0 <= k < reports.len() ==> (#[trigger] reports[k] matches Some(p) && p.pos == total(
                amounts.take(k + 1),
            ) && p.size == length && p.file_name@ == file),
{
    assert forall|k: int| 0 <= k < states.len() implies {
        &&& (#[trigger] states[k]).size == length
        &&& !states[k].unknown_size
        &&& states[k].pos == total(amounts.take(k))
        &&& states[k].download_file matches Some(f) && f@ == file
    } by {
        lemma_known_size_prefix(start, states, length, file, text, amounts, reports, k);
    }
    assert forall|k: int| 0 <= k < reports.len() implies (#[trigger] reports[k] matches Some(p)
        && p.pos == total(amounts.take(k + 1)) && p.size == length && p.file_name@ == file) by {
        lemma_known_size_prefix(start, states, length, file, text, amounts, reports, k);
        lemma_total_take(amounts, k);
    }
}

proof fn lemma_known_size_prefix(
    start: PlainPtyCallback,
    states: Seq<PlainPtyCallback>,
    length: u64,
    file: Seq<char>,
    text: Option<String>,
    amounts: Seq<u64>,
    reports: Seq<Option<DownloadProgress>>,
    k: int,
)
    requires
        length > 0,
        states.len() == amounts.len() + 1,
        reports.len() == amounts.len(),
        PlainPtyCallback::download_start_step(start, states[0], length, file, text),
        forall|k: int|
            0 <= k < amounts.len() ==> PlainPtyCallback::download_increment_step(
                #[trigger] states[k],
                states[k + 1],
                amounts[k],
                reports[k],
            ),
        0 <= k < states.len(),
    ensures
        states[k].size == length,
        !states[k].unknown_size,
        states[k].pos == total(amounts.take(k)),
        states[k].download_file matches Some(f) && f@ == file,
    decreases k,
{
    if k == 0 {
        assert(amounts.take(0) =~= Seq::<u64>::empty());
    } else {
        lemma_known_size_prefix(start, states, length, file, text, amounts, reports, k - 1);
        lemma_total_take(amounts, k - 1);
        assert(PlainPtyCallback::download_increment_step(
            states[k - 1],
            states[k],
            amounts[k - 1],
            reports[k - 1],
        ));
    }
}

/// A download of unknown size: it writes nothing when it starts, reports
/// nothing on any increment, and writes nothing when it ends; all along the
/// size and the position are the sum of the bytes counted so far, and the
/// named file is the one named before it started.
pub proof fn lemma_unknown_size_download(
    start: PlainPtyCallback,
    states: Seq<PlainPtyCallback>,
    file: Seq<char>,
    text: Option<String>,
    amounts: Seq<u64>,
    reports: Seq<Option<DownloadProgress>>,
    end: PlainPtyCallback,
    end_text: Option<String>,
)
    requires
        states.len() == amounts.len() + 1,
        reports.len() == amounts.len(),
        PlainPtyCallback::download_start_step(start, states[0], 0, file, text),
        forall|k: int|
            0 <= k < amounts.len() ==> PlainPtyCallback::download_increment_step(
                #[trigger] states[k],
                states[k + 1],
                amounts[k],
                reports[k],
            ),
        PlainPtyCallback::download_end_step(states.last(), end, end_text),
    ensures
        text is None,
        forall|k: int| 0 <= k < reports.len() ==> #[trigger] reports[k] is None,
        forall|k: int|
            0 <= k < states.len() ==> {
                &&& (#[trigger] states[k]).size == total(amounts.take(k))
                &&& states[k].pos == total(amounts.take(k))
                &&& states[k].unknown_size
                &&& states[k].download_file == start.download_file
            },
        end_text is None,
        end == states.last(),
{
    assert forall|k: int| 0 <= k < states.len() implies {
        &&& (#[trigger] states[k]).size == total(amounts.take(k))
        &&& states[k].pos == total(amounts.take(k))
        &&& states[k].unknown_size
        &&& states[k].download_file == start.download_file
    } by {
        lemma_unknown_size_prefix(start, states, file, text, amounts, reports, k);
    }
    assert forall|k: int| 0 <= k < reports.len() implies #[trigger] reports[k] is None by {
        lemma_unknown_size_prefix(start, states, file, text, amounts, reports, k);
    }
    lemma_unknown_size_prefix(start, states, file, text, amounts, reports, states.len() - 1);
}

proof fn lemma_unknown_size_prefix(
    start: PlainPtyCallback,
    states: Seq<PlainPtyCallback>,
    file: Seq<char>,
    text: Option<String>,
    amounts: Seq<u64>,
    reports: Seq<Option<DownloadProgress>>,
    k: int,
)
    requires
        states.len() == amounts.len() + 1,
        reports.len() == amounts.len(),
        PlainPtyCallback::download_start_step(start, states[0], 0, file, text),
        forall|k: int|
            0 <= k < amounts.len() ==> PlainPtyCallback::download_increment_step(
                #[trigger] states[k],
                states[k + 1],
                amounts[k],
                reports[k],
            ),
        0 <= k < states.len(),
    ensures
        states[k].size == total(amounts.take(k)),
        states[k].pos == total(amounts.take(k)),
        states[k].unknown_size,
        states[k].download_file == start.download_file,
    decreases k,
{
    if k == 0 {
        assert(amounts.take(0) =~= Seq::<u64>::empty());
    } else {
        lemma_unknown_size_prefix(start, states, file, text, amounts, reports, k - 1);
        lemma_total_take(amounts, k - 1);
        assert(PlainPtyCallback::download_increment_step(
            states[k - 1],
            states[k],
            amounts[k - 1],
            reports[k - 1],
        ));
    }
}

} // verus!
