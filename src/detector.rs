//! The change detector: from the files found under the watch roots, the
//! newest watched one, reported only when it is newer than the watermark.

use vstd::prelude::*;
use crate::text::{ends_with, extension_of, find_last_dot, has_suffix, matches_ignoring_case, tail_matches_ignoring_case};
use crate::watermark::Watermark;

verus! {

/// What a changed file is, by the end of its path.
#[derive(Clone, Copy, Debug, PartialEq, Eq, Structural)]
pub enum Category {
    Template,
    Stylesheet,
    Script,
    File,
}

/// One regular file found while walking the watch roots.
pub struct FileStamp {
    /// The path as reported in messages.
    pub path: String,
    /// The last component of the path.
    pub name: String,
    /// Seconds since the Unix epoch of the last modification, when it could
    /// be read.
    pub modified: Option<u64>,
}

/// The reported change: the newest watched file and its category.
pub struct ChangeEvent {
    pub path: String,
    pub category: Category,
}

pub open spec fn watched_extension(e: Seq<char>) -> bool {
    matches_ignoring_case(e, seq!['t', 'e', 'r', 'a'])
    || matches_ignoring_case(e, seq!['h', 't', 'm', 'l'])
    || matches_ignoring_case(e, seq!['c', 's', 's'])
    || matches_ignoring_case(e, seq!['s', 'c', 's', 's'])
    || matches_ignoring_case(e, seq!['j', 's'])
    || matches_ignoring_case(e, seq!['t', 's'])
}

/// A file is watched when its extension is one of tera, html, css, scss, js
/// and ts, in any ASCII case.
pub open spec fn is_watched(name: Seq<char>) -> bool {
    match extension_of(name) {
        Some(e) => watched_extension(e),
        None => false,
    }
}

pub open spec fn category_of(path: Seq<char>) -> Category {
    if has_suffix(path, seq!['.', 't', 'e', 'r', 'a']) || has_suffix(path, seq!['.', 'h', 't', 'm', 'l']) {
        Category::Template
    } else if has_suffix(path, seq!['.', 'c', 's', 's']) || has_suffix(path, seq!['.', 's', 'c', 's', 's']) {
        Category::Stylesheet
    } else if has_suffix(path, seq!['.', 'j', 's']) || has_suffix(path, seq!['.', 't', 's']) {
        Category::Script
    } else {
        Category::File
    }
}

/// The time a file counts with: its modification time when it is watched and
/// that time was read, else 0 (never newer than any watermark).
pub open spec fn observed_time(f: FileStamp) -> u64 {
    if is_watched(f.name@) {
        match f.modified {
            Some(t) => t,
            None => 0,
        }
    } else {
        0
    }
}

/// The newest observed time among `files` (0 when there is none).
pub open spec fn newest_time(files: Seq<FileStamp>) -> u64
    decreases files.len(),
{
    if files.len() == 0 {
        0
    } else {
        let rest = newest_time(files.drop_last());
        let t = observed_time(files.last());
        if t > rest { t } else { rest }
    }
}

/// The first file whose observed time is the newest one, or -1 when the
/// newest time is 0.
pub open spec fn newest_index(files: Seq<FileStamp>) -> int
    decreases files.len(),
{
    if files.len() == 0 {
        -1
    } else if observed_time(files.last()) > newest_time(files.drop_last()) {
        files.len() - 1
    } else {
        newest_index(files.drop_last())
    }
}

/// Whether a scan over `files` against a watermark at `mark` reports a change.
pub open spec fn scan_reports(mark: u64, files: Seq<FileStamp>) -> bool {
    newest_time(files) > mark
}

/// The watermark after a scan over `files` that started from `mark`.
pub open spec fn mark_after_scan(mark: u64, files: Seq<FileStamp>) -> u64 {
    if scan_reports(mark, files) { newest_time(files) } else { mark }
}

/// The newest time bounds every file's observed time; the chosen file has it,
/// and every file before the chosen one is strictly older.
pub proof fn lemma_newest(files: Seq<FileStamp>)
    ensures
        forall|j: int| 0 <= j < files.len() ==> observed_time(#[trigger] files[j]) <= newest_time(files),
        newest_time(files) == 0 <==> newest_index(files) == -1,
        newest_time(files) > 0 ==> {
            let i = newest_index(files);
            &&& 0 <= i < files.len()
            &&& observed_time(files[i]) == newest_time(files)
            &&& forall|j: int| 0 <= j < i ==> observed_time(#[trigger] files[j]) < newest_time(files)
        },
    decreases files.len(),
{
    if files.len() > 0 {
        let rest = files.drop_last();
        let n = newest_time(files);
        lemma_newest(rest);
        assert forall|j: int| 0 <= j < files.len() implies observed_time(#[trigger] files[j]) <= n by {
            if j < files.len() - 1 {
                assert(files[j] == rest[j]);
            }
        }
        if n > 0 {
            let i = newest_index(files);
            assert forall|j: int| 0 <= j < i implies observed_time(#[trigger] files[j]) < n by {
                assert(files[j] == rest[j]);
            }
            if i < files.len() - 1 {
                assert(files[i] == rest[i]);
            }
        }
    }
}

/// Category of a path, by its ending.
pub fn categorize(path: &str) -> (r: Category)
    ensures
        r == category_of(path@),
{
    proof {
        reveal_strlit(".tera");
        reveal_strlit(".html");
        reveal_strlit(".css");
        reveal_strlit(".scss");
        reveal_strlit(".js");
        reveal_strlit(".ts");
        assert(".tera"@ =~= seq!['.', 't', 'e', 'r', 'a']);
        assert(".html"@ =~= seq!['.', 'h', 't', 'm', 'l']);
        assert(".css"@ =~= seq!['.', 'c', 's', 's']);
        assert(".scss"@ =~= seq!['.', 's', 'c', 's', 's']);
        assert(".js"@ =~= seq!['.', 'j', 's']);
        assert(".ts"@ =~= seq!['.', 't', 's']);
    }
    if ends_with(path, ".tera") || ends_with(path, ".html") {
        Category::Template
    } else if ends_with(path, ".css") || ends_with(path, ".scss") {
        Category::Stylesheet
    } else if ends_with(path, ".js") || ends_with(path, ".ts") {
        Category::Script
    } else {
        Category::File
    }
}

/// Whether a file name has a watched extension.
pub fn is_watched_name(name: &str) -> (r: bool)
    ensures
        r == is_watched(name@),
{
    proof {
        reveal_strlit("tera");
        reveal_strlit("html");
        reveal_strlit("css");
        reveal_strlit("scss");
        reveal_strlit("js");
        reveal_strlit("ts");
    }
    match find_last_dot(name) {
        None => false,
        Some(i) => {
            if i == 0 {
                return false;
            }
            let n = name.unicode_len();
            if n == 2 && name.get_char(0) == '.' && name.get_char(1) == '.' {
                assert(name@ =~= seq!['.', '.']);
                return false;
            }
            assert(name@ != seq!['.', '.']) by {
                if name@ == seq!['.', '.'] {
                    assert(name@[0] == '.' && name@[1] == '.');
                }
            }
            let from = i + 1;
            tail_matches_ignoring_case(name, from, "tera")
                || tail_matches_ignoring_case(name, from, "html")
                || tail_matches_ignoring_case(name, from, "css")
                || tail_matches_ignoring_case(name, from, "scss")
                || tail_matches_ignoring_case(name, from, "js")
                || tail_matches_ignoring_case(name, from, "ts")
        },
    }
}

/// The time `f` counts with in a scan.
pub fn file_time(f: &FileStamp) -> (r: u64)
    ensures
        r == observed_time(*f),
{
    if is_watched_name(f.name.as_str()) {
        match f.modified {
            Some(t) => t,
            None => 0,
        }
    } else {
        0
    }
}

/// The newest observed time among `files`, and the index of the first file
/// that has it (none when that time is 0).
pub fn newest_watched(files: &Vec<FileStamp>) -> (r: (u64, Option<usize>))
    ensures
        r.0 == newest_time(files@),
        match r.1 {
            Some(i) => i as int == newest_index(files@),
            None => newest_index(files@) == -1,
        },
{
    let mut latest: u64 = 0;
    let mut pick: Option<usize> = None;
    let mut k: usize = 0;
    while k < files.len()
        invariant
            k <= files@.len(),
            latest == newest_time(files@.subrange(0, k as int)),
            match pick {
                Some(i) => i as int == newest_index(files@.subrange(0, k as int)),
                None => newest_index(files@.subrange(0, k as int)) == -1,
            },
        decreases files@.len() - k,
    {
        let t = file_time(&files[k]);
        assert(files@.subrange(0, k + 1).drop_last() =~= files@.subrange(0, k as int));
        if t > latest {
            latest = t;
            pick = Some(k);
        }
        k = k + 1;
    }
    assert(files@.subrange(0, files@.len() as int) =~= files@);
    (latest, pick)
}

} // verus!

verus! {

/// The watermark after scanning each file set of `scans` in turn from `mark`.
pub open spec fn mark_after_scans(mark: u64, scans: Seq<Seq<FileStamp>>) -> u64
    decreases scans.len(),
{
    if scans.len() == 0 {
        mark
    } else {
        mark_after_scan(mark_after_scans(mark, scans.drop_last()), scans.last())
    }
}

/// Over any sequence of scans the watermark never decreases: each scan leaves
/// it at least where the previous one did.
pub proof fn lemma_watermark_monotone(mark: u64, scans: Seq<Seq<FileStamp>>)
    ensures
        mark_after_scans(mark, scans) >= mark,
        forall|k: int|
            0 <= k < scans.len() ==> #[trigger] mark_after_scans(mark, scans.take(k + 1)) >= mark_after_scans(
                mark,
                scans.take(k),
            ),
    decreases scans.len(),
{
    assert forall|k: int| 0 <= k < scans.len() implies #[trigger] mark_after_scans(mark, scans.take(k + 1))
        >= mark_after_scans(mark, scans.take(k)) by {
        assert(scans.take(k + 1).drop_last() =~= scans.take(k));
    }
    if scans.len() > 0 {
        lemma_watermark_monotone(mark, scans.drop_last());
    }
}

/// Once a tree has been scanned, scanning it again unchanged reports nothing
/// and leaves the watermark where it is, however often it is repeated.
pub proof fn lemma_unchanged_tree_quiet(mark: u64, files: Seq<FileStamp>)
    ensures
        mark_after_scan(mark, files) >= newest_time(files),
        forall|m: u64| m >= newest_time(files) ==> !scan_reports(m, files) && #[trigger] mark_after_scan(m, files) == m,
{
}

/// When several files changed since the last scan, the one report names a
/// file with the newest time of them all, and the watermark becomes that time.
pub proof fn lemma_burst_reports_newest(mark: u64, files: Seq<FileStamp>)
    requires
        scan_reports(mark, files),
    ensures
        0 <= newest_index(files) < files.len(),
        forall|j: int|
            0 <= j < files.len() ==> observed_time(#[trigger] files[j]) <= observed_time(
                files[newest_index(files)],
            ),
        mark_after_scan(mark, files) == observed_time(files[newest_index(files)]),
{
    lemma_newest(files);
}

/// A file whose extension is not watched changes nothing in a scan, whatever
/// its modification time: neither whether a change is reported, nor which,
/// nor the watermark.
pub proof fn lemma_unwatched_file_ignored(mark: u64, files: Seq<FileStamp>, f: FileStamp)
    requires
        !is_watched(f.name@),
    ensures
        scan_reports(mark, files.push(f)) == scan_reports(mark, files),
        mark_after_scan(mark, files.push(f)) == mark_after_scan(mark, files),
        newest_index(files.push(f)) == newest_index(files),
{
    assert(files.push(f).drop_last() =~= files);
}

/// A tree with no watched file never reports a change.
pub proof fn lemma_unwatched_tree_quiet(mark: u64, files: Seq<FileStamp>)
    requires
        forall|j: int| 0 <= j < files.len() ==> !is_watched(#[trigger] files[j].name@),
    ensures
        !scan_reports(mark, files),
        mark_after_scan(mark, files) == mark,
    decreases files.len(),
{
    if files.len() > 0 {
        let rest = files.drop_last();
        assert forall|j: int| 0 <= j < rest.len() implies !is_watched(#[trigger] rest[j].name@) by {
            assert(rest[j] == files[j]);
        }
        assert(!is_watched(files[files.len() - 1].name@));
        lemma_unwatched_tree_quiet(0, rest);
    }
}

/// After the watermark is reset to the moment `now` a session connects, a
/// scan reports no file modified at or before `now`: it reports nothing when
/// every file is that old, and otherwise only a file modified after `now`.
pub proof fn lemma_fresh_session_baseline(now: u64, files: Seq<FileStamp>)
    ensures
        (forall|j: int| 0 <= j < files.len() ==> observed_time(#[trigger] files[j]) <= now) ==> !scan_reports(
            now,
            files,
        ),
        scan_reports(now, files) ==> observed_time(files[newest_index(files)]) > now,
{
    lemma_newest(files);
}

} // verus!
