//! The extraction of an archive: every entry, in its place, and nothing else.

use crate::server::handler::extraction::{ArchiveEntry, Extraction, ExtractionEvent};
use vstd::prelude::*;

verus! {

/// The most entries that an archive may have.
pub const ENTRIES_AT_MOST: usize = 10_000;

/// The most bytes that the files of an archive may come to.
pub const BYTES_AT_MOST: u64 = 1024 * 1024 * 1024;

/// What an event leads to.
pub open spec fn after(extraction: Extraction, event: ExtractionEvent) -> Extraction {
    crate::server::handler::extraction::extraction_after(extraction, event)
}

/// Whether an entry may be extracted: its name is not absolute, and stays inside
/// the archive.
pub open spec fn is_safe(entry: ArchiveEntry) -> bool {
    &&& !(entry.name@.len() > 0 && entry.name@[0] == '/')
    &&& entry.enclosed_name is Some
}

/// The entry that an extraction is at, how many there are, and how many bytes
/// their files may still come to.
pub open spec fn progress(extraction: Extraction) -> Option<(int, int, int)> {
    match extraction {
        Extraction::Inspecting { at, entries, budget } => Some(
            (at as int, entries as int, budget as int),
        ),
        Extraction::CreatingDirectory { at, entries, budget, .. } => Some(
            (at as int, entries as int, budget as int),
        ),
        Extraction::WritingFile { at, entries, budget, .. } => Some(
            (at as int, entries as int, budget as int),
        ),
        _ => None,
    }
}

/// Whether an extraction has done with the entries before `at`: it goes on to
/// inspect that one, or is over where there is none.
pub open spec fn is_done_before(extraction: Extraction, at: int, entries: int, budget: int) -> bool {
    if at < entries {
        extraction is Inspecting && progress(extraction) == Some((at, entries, budget))
    } else {
        extraction is Extracted
    }
}

/// An archive within the limits is extracted from its first entry on; one beyond
/// them, and what is no archive, is rejected.
pub proof fn law_archives_within_the_limits_are_opened(opened: Option<usize>)
    ensures
        ({
            let state = after(Extraction::Opening, ExtractionEvent::Opened(opened));
            match opened {
                Some(entries) if entries <= ENTRIES_AT_MOST => is_done_before(
                    state,
                    0,
                    entries as int,
                    BYTES_AT_MOST as int,
                ),
                _ => state is Rejected,
            }
        }),
{
}

/// An entry that may be extracted goes where its name says, a directory as a
/// directory and a file as a file; one that may not, and a corrupt one, has the
/// archive rejected.
pub proof fn law_entries_go_where_they_say(
    extraction: Extraction,
    inspected: Option<ArchiveEntry>,
)
    requires
        extraction is Inspecting,
    ensures
        ({
            let state = after(extraction, ExtractionEvent::Inspected(inspected));
            match inspected {
                Some(entry) if is_safe(entry) => {
                    &&& progress(state) == progress(extraction)
                    &&& entry.is_directory ==> (state matches Extraction::CreatingDirectory {
                        path,
                        ..
                    } && Some(path) == entry.enclosed_name)
                    &&& !entry.is_directory ==> (state matches Extraction::WritingFile { path, .. }
                        && Some(path) == entry.enclosed_name)
                },
                _ => state is Rejected,
            }
        }),
{
}

/// Once a directory was created, or a file was written that fits the budget, the
/// next entry has its turn, and the archive is extracted only after the last one;
/// what was written is taken off the budget. A file that does not fit, and a
/// corrupt one, has the archive rejected.
pub proof fn law_every_entry_has_its_turn(
    extraction: Extraction,
    written: Option<u64>,
    at: int,
    entries: int,
    budget: int,
)
    requires
        crate::server::handler::extraction::within_archive(extraction),
        progress(extraction) == Some((at, entries, budget)),
    ensures
        extraction is CreatingDirectory ==> is_done_before(
            after(extraction, ExtractionEvent::DirectoryCreated),
            at + 1,
            entries,
            budget,
        ),
        extraction is WritingFile ==> ({
            let state = after(extraction, ExtractionEvent::FileWritten(written));
            match written {
                Some(bytes) if bytes <= budget => is_done_before(
                    state,
                    at + 1,
                    entries,
                    budget - bytes,
                ),
                _ => state is Rejected,
            }
        }),
{
}

/// An archive counts as extracted only once its last entry was handled, or where
/// it has none.
pub proof fn law_extracted_means_all_of_it(extraction: Extraction, event: ExtractionEvent)
    requires
        crate::server::handler::extraction::within_archive(extraction),
        after(extraction, event) is Extracted,
    ensures
        match progress(extraction) {
            None => extraction is Opening && event == ExtractionEvent::Opened(Some(0)),
            Some((at, entries, budget)) => {
                &&& at + 1 == entries
                &&& match event {
                    ExtractionEvent::DirectoryCreated => extraction is CreatingDirectory,
                    ExtractionEvent::FileWritten(Some(bytes)) => extraction is WritingFile && bytes
                        <= budget,
                    _ => false,
                }
            },
        },
{
}

/// What the first `n` files of an archive come to; directories come to nothing.
pub open spec fn bytes_of_first(entries: Seq<ArchiveEntry>, sizes: Seq<u64>, n: int) -> int
    decreases n,
{
    if n <= 0 {
        0
    } else {
        bytes_of_first(entries, sizes, n - 1) + if entries[n - 1].is_directory {
            0
        } else {
            sizes[n - 1] as int
        }
    }
}

/// The state once the entry at hand was inspected, and created or written.
pub open spec fn after_entry(extraction: Extraction, entry: ArchiveEntry, size: u64) -> Extraction {
    let inspected = after(extraction, ExtractionEvent::Inspected(Some(entry)));
    if entry.is_directory {
        after(inspected, ExtractionEvent::DirectoryCreated)
    } else {
        after(inspected, ExtractionEvent::FileWritten(Some(size)))
    }
}

/// The state once the first `n` entries of an archive were handled.
pub open spec fn after_entries(entries: Seq<ArchiveEntry>, sizes: Seq<u64>, n: int) -> Extraction
    decreases n,
{
    if n <= 0 {
        after(Extraction::Opening, ExtractionEvent::Opened(Some(entries.len() as usize)))
    } else {
        after_entry(after_entries(entries, sizes, n - 1), entries[n - 1], sizes[n - 1])
    }
}

/// An archive within the limits whose entries all may be extracted is extracted
/// whole: every entry has its turn, in order, and after the last one, and not
/// before, the archive is extracted.
pub proof fn law_good_archives_are_extracted_whole(
    entries: Seq<ArchiveEntry>,
    sizes: Seq<u64>,
    n: int,
)
    requires
        entries.len() <= ENTRIES_AT_MOST,
        sizes.len() == entries.len(),
        forall|i: int| 0 <= i < entries.len() ==> is_safe(#[trigger] entries[i]),
        bytes_of_first(entries, sizes, entries.len() as int) <= BYTES_AT_MOST,
        0 <= n <= entries.len(),
    ensures
        is_done_before(
            after_entries(entries, sizes, n),
            n,
            entries.len() as int,
            BYTES_AT_MOST - bytes_of_first(entries, sizes, n),
        ),
    decreases n,
{
    law_archives_within_the_limits_are_opened(Some(entries.len() as usize));
    if n > 0 {
        law_good_archives_are_extracted_whole(entries, sizes, n - 1);
        let before = after_entries(entries, sizes, n - 1);
        let entry = entries[n - 1];
        assert(is_safe(entry));
        lemma_bytes_grow(entries, sizes, n, entries.len() as int);
        lemma_bytes_grow(entries, sizes, 0, n - 1);
        let budget = BYTES_AT_MOST - bytes_of_first(entries, sizes, n - 1);
        law_entries_go_where_they_say(before, Some(entry));
        let inspected = after(before, ExtractionEvent::Inspected(Some(entry)));
        law_every_entry_has_its_turn(
            inspected,
            Some(sizes[n - 1]),
            n - 1,
            entries.len() as int,
            budget,
        );
    }
}

proof fn lemma_bytes_grow(entries: Seq<ArchiveEntry>, sizes: Seq<u64>, n: int, m: int)
    requires
        0 <= n <= m <= entries.len(),
    ensures
        bytes_of_first(entries, sizes, n) <= bytes_of_first(entries, sizes, m),
    decreases m,
{
    if n < m {
        lemma_bytes_grow(entries, sizes, n, m - 1);
    }
}

} // verus!
