//! Extracting an uploaded archive: which entries are taken, where they may go,
//! and how much they may come to.

use crate::text::chars_of;
use vstd::prelude::*;

verus! {

/// The most entries that an archive may have.
pub const MAX_ARCHIVE_ENTRIES: usize = 10_000;

/// The most bytes that the files of an archive may come to, taken together.
pub const MAX_EXTRACTED_BYTES: u64 = 1_073_741_824;

/// An entry of an archive: its name; the path, relative to the directory that
/// is extracted to, that the name stands for, or nothing where it leads out of
/// the archive or is otherwise unsafe; and whether it is a directory.
pub struct ArchiveEntry {
    pub name: String,
    pub enclosed_name: Option<String>,
    pub is_directory: bool,
}

/// Whether an entry's name is an absolute path.
pub open spec fn is_absolute(name: Seq<char>) -> bool {
    name.len() > 0 && name[0] == '/'
}

/// Where an entry may go, if anywhere.
pub open spec fn destination(entry: ArchiveEntry) -> Option<String> {
    if is_absolute(entry.name@) {
        None
    } else {
        entry.enclosed_name
    }
}

/// What came of a step of an extraction.
pub enum ExtractionEvent {
    /// How many entries the archive has; nothing where it is not an archive.
    Opened(Option<usize>),
    /// The entry that was to be inspected; nothing where it is corrupt.
    Inspected(Option<ArchiveEntry>),
    /// The directory was created.
    DirectoryCreated,
    /// How many bytes the entry came to; nothing where it is corrupt.
    FileWritten(Option<u64>),
}

/// The state of an extraction, and with it what to do next.
pub enum Extraction {
    /// Open the archive.
    Opening,
    /// Inspect the entry at this place.
    Inspecting { at: usize, entries: usize, budget: u64 },
    /// Create a directory.
    CreatingDirectory { path: String, at: usize, entries: usize, budget: u64 },
    /// Write the entry to a file, its directory created where it is missing;
    /// one byte more than the budget is enough.
    WritingFile { path: String, at: usize, entries: usize, budget: u64 },
    /// The archive is extracted.
    Extracted,
    /// The archive is not to be used.
    Rejected,
}

/// The state once the entries before `at` are extracted.
pub open spec fn from_entry(at: usize, entries: usize, budget: u64) -> Extraction {
    if at < entries {
        Extraction::Inspecting { at, entries, budget }
    } else {
        Extraction::Extracted
    }
}

/// What an event leads to.
pub open spec fn extraction_after(extraction: Extraction, event: ExtractionEvent) -> Extraction {
    match (extraction, event) {
        (Extraction::Opening, ExtractionEvent::Opened(Some(entries))) => if entries
            <= MAX_ARCHIVE_ENTRIES {
            from_entry(0, entries, MAX_EXTRACTED_BYTES)
        } else {
            Extraction::Rejected
        },
        (
            Extraction::Inspecting { at, entries, budget },
            ExtractionEvent::Inspected(Some(entry)),
        ) => match destination(entry) {
            Some(path) => if entry.is_directory {
                Extraction::CreatingDirectory { path, at, entries, budget }
            } else {
                Extraction::WritingFile { path, at, entries, budget }
            },
            None => Extraction::Rejected,
        },
        (
            Extraction::CreatingDirectory { at, entries, budget, .. },
            ExtractionEvent::DirectoryCreated,
        ) => from_entry((at + 1) as usize, entries, budget),
        (
            Extraction::WritingFile { at, entries, budget, .. },
            ExtractionEvent::FileWritten(Some(bytes)),
        ) => if bytes <= budget {
            from_entry((at + 1) as usize, entries, (budget - bytes) as u64)
        } else {
            Extraction::Rejected
        },
        _ => Extraction::Rejected,
    }
}

/// Whether the entry at hand is one of the archive's.
pub open spec fn within_archive(extraction: Extraction) -> bool {
    match extraction {
        Extraction::Inspecting { at, entries, budget } => at < entries <= MAX_ARCHIVE_ENTRIES
            && budget <= MAX_EXTRACTED_BYTES,
        Extraction::CreatingDirectory { at, entries, budget, .. } => at < entries
            <= MAX_ARCHIVE_ENTRIES && budget <= MAX_EXTRACTED_BYTES,
        Extraction::WritingFile { at, entries, budget, .. } => at < entries <= MAX_ARCHIVE_ENTRIES
            && budget <= MAX_EXTRACTED_BYTES,
        _ => true,
    }
}

impl ArchiveEntry {
    /// Where the entry may go, if anywhere.
    fn destination(self) -> (path: Option<String>)
        ensures
            path == destination(self),
    {
        let name = chars_of(self.name.as_str());
        if name.len() > 0 && name[0] == '/' {
            None
        } else {
            self.enclosed_name
        }
    }
}

impl Extraction {
    /// Begins an extraction.
    pub fn begin() -> (extraction: Extraction)
        ensures
            extraction == Extraction::Opening,
    {
        Extraction::Opening
    }

    /// Takes what came of the last step. An archive with an unsafe or corrupt
    /// entry, with too many of them, or with too much in them is rejected.
    pub fn step(self, event: ExtractionEvent) -> (after: Extraction)
        requires
            within_archive(self),
        ensures
            after == extraction_after(self, event),
            within_archive(after),
    {
        match (self, event) {
            (Extraction::Opening, ExtractionEvent::Opened(Some(entries))) => {
                if entries <= MAX_ARCHIVE_ENTRIES {
                    Extraction::from_entry(0, entries, MAX_EXTRACTED_BYTES)
                } else {
                    Extraction::Rejected
                }
            },
            (
                Extraction::Inspecting { at, entries, budget },
                ExtractionEvent::Inspected(Some(entry)),
            ) => {
                let is_directory = entry.is_directory;
                match entry.destination() {
                    Some(path) => {
                        if is_directory {
                            Extraction::CreatingDirectory { path, at, entries, budget }
                        } else {
                            Extraction::WritingFile { path, at, entries, budget }
                        }
                    },
                    None => Extraction::Rejected,
                }
            },
            (
                Extraction::CreatingDirectory { at, entries, budget, .. },
                ExtractionEvent::DirectoryCreated,
            ) => Extraction::from_entry(at + 1, entries, budget),
            (
                Extraction::WritingFile { at, entries, budget, .. },
                ExtractionEvent::FileWritten(Some(bytes)),
            ) => {
                if bytes <= budget {
                    Extraction::from_entry(at + 1, entries, budget - bytes)
                } else {
                    Extraction::Rejected
                }
            },
            _ => Extraction::Rejected,
        }
    }

    fn from_entry(at: usize, entries: usize, budget: u64) -> (extraction: Extraction)
        ensures
            extraction == from_entry(at, entries, budget),
    {
        if at < entries {
            Extraction::Inspecting { at, entries, budget }
        } else {
            Extraction::Extracted
        }
    }
}

/// An entry whose name is absolute or does not stay inside the archive is never
/// written, and the archive is rejected with it.
pub proof fn law_unsafe_entry_is_rejected(
    at: usize,
    entries: usize,
    budget: u64,
    entry: ArchiveEntry,
)
    requires
        is_absolute(entry.name@) || entry.enclosed_name is None,
    ensures
        extraction_after(
            Extraction::Inspecting { at, entries, budget },
            ExtractionEvent::Inspected(Some(entry)),
        ) is Rejected,
{
}

/// What is not an archive, and an entry that is corrupt, are rejected like any
/// other bad upload.
pub proof fn law_corrupt_archive_is_rejected(extraction: Extraction)
    ensures
        extraction_after(extraction, ExtractionEvent::Opened(None)) is Rejected,
        extraction_after(extraction, ExtractionEvent::Inspected(None)) is Rejected,
        extraction_after(extraction, ExtractionEvent::FileWritten(None)) is Rejected,
{
}

/// How many bytes the files that are still to come may have.
pub open spec fn budget_of(extraction: Extraction) -> Option<u64> {
    match extraction {
        Extraction::Inspecting { budget, .. } => Some(budget),
        Extraction::CreatingDirectory { budget, .. } => Some(budget),
        Extraction::WritingFile { budget, .. } => Some(budget),
        _ => None,
    }
}

/// What a file comes to is taken off the budget; what exceeds it is rejected;
/// and nothing else changes the budget.
pub proof fn law_budget_is_kept(extraction: Extraction, event: ExtractionEvent)
    requires
        within_archive(extraction),
        budget_of(extraction) is Some,
        budget_of(extraction_after(extraction, event)) is Some,
    ensures
        budget_of(extraction_after(extraction, event))->0 == budget_of(extraction)->0 - (
        match event {
            ExtractionEvent::FileWritten(Some(bytes)) => bytes as int,
            _ => 0,
        }),
{
}

/// An archive with more entries than are allowed is rejected unread.
pub proof fn law_crowded_archive_is_rejected(entries: usize)
    requires
        entries > MAX_ARCHIVE_ENTRIES,
    ensures
        extraction_after(Extraction::Opening, ExtractionEvent::Opened(Some(entries))) is Rejected,
{
}

} // verus!
