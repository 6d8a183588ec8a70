//! Local file-system browsing: directory listings, the home directory, drive
//! roots and the command that reveals a file in the host's file manager.
//!
//! Nothing here touches the file system. The caller reads what is on disk and
//! hands the facts over; the functions decide what the answer is.

use crate::boundary::{
    format_utc, home_directory, lowercase_text, parent_directory, utc_text,
};
use crate::platform::Platform;
use crate::supervisor::{CommandLine, CommandLineView};
use crate::text::{
    chars_of, join, lemma_lex_le_total, lemma_lex_le_transitive, lex_le, lex_le_chars,
};
use vstd::prelude::*;
use vstd::string::*;

verus! {

/// One row of a directory listing.
#[derive(Debug, PartialEq, Eq)]
pub struct FileEntry {
    pub name: String,
    pub path: String,
    pub is_dir: bool,
    pub size: u64,
    pub modified: Option<String>,
}

/// The mathematical content of a [`FileEntry`].
pub struct FileEntryView {
    pub name: Seq<char>,
    pub path: Seq<char>,
    pub is_dir: bool,
    pub size: nat,
    pub modified: Option<Seq<char>>,
}

impl View for FileEntry {
    type V = FileEntryView;

    open spec fn view(&self) -> FileEntryView {
        FileEntryView {
            name: self.name@,
            path: self.path@,
            is_dir: self.is_dir,
            size: self.size as nat,
            modified: self.modified.deep_view(),
        }
    }
}

impl DeepView for FileEntry {
    type V = FileEntryView;

    open spec fn deep_view(&self) -> FileEntryView {
        self@
    }
}

/// What the file system reported about one directory entry's metadata.
#[derive(Clone, Copy, Debug, PartialEq, Eq)]
pub struct EntryMetadata {
    pub is_dir: bool,
    pub len: u64,
    /// Whole seconds from the Unix epoch to the last modification, where the
    /// platform knows the time and it is not before the epoch.
    pub modified_secs: Option<u64>,
}

/// One directory entry as read from disk. The metadata is absent where the
/// file system refused it.
#[derive(Debug, PartialEq, Eq)]
pub struct EntryFacts {
    pub name: String,
    pub path: String,
    pub metadata: Option<EntryMetadata>,
}

/// The mathematical content of an [`EntryFacts`].
pub struct EntryFactsView {
    pub name: Seq<char>,
    pub path: Seq<char>,
    pub metadata: Option<EntryMetadata>,
}

impl View for EntryFacts {
    type V = EntryFactsView;

    open spec fn view(&self) -> EntryFactsView {
        EntryFactsView { name: self.name@, path: self.path@, metadata: self.metadata }
    }
}

impl DeepView for EntryFacts {
    type V = EntryFactsView;

    open spec fn deep_view(&self) -> EntryFactsView {
        self@
    }
}

/// The outcome of reading one entry of a directory.
#[derive(Debug, PartialEq, Eq)]
pub enum EntryRead {
    /// The entry was read.
    Entry(EntryFacts),
    /// The file system failed on this entry; the text says how.
    Unreadable(String),
}

/// The mathematical content of an [`EntryRead`].
pub enum EntryReadView {
    Entry(EntryFactsView),
    Unreadable(Seq<char>),
}

impl View for EntryRead {
    type V = EntryReadView;

    open spec fn view(&self) -> EntryReadView {
        match self {
            EntryRead::Entry(facts) => EntryReadView::Entry(facts@),
            EntryRead::Unreadable(reason) => EntryReadView::Unreadable(reason@),
        }
    }
}

impl DeepView for EntryRead {
    type V = EntryReadView;

    open spec fn deep_view(&self) -> EntryReadView {
        self@
    }
}

/// What a look at a path found before its directory is read.
#[derive(Clone, Copy, Debug, PartialEq, Eq)]
pub struct PathProbe {
    pub exists: bool,
    pub is_dir: bool,
}

/// Why a query about the local file system gave no answer.
#[derive(Debug, PartialEq, Eq)]
pub enum PathQueryFailed {
    /// Nothing exists at the path.
    PathNotFound(String),
    /// The path exists and is not a directory.
    NotADirectory(String),
    /// The directory exists and could not be read; the text says why.
    ReadFailed(String),
    /// The host names no home directory for the user.
    NoHomeDirectory,
}

/// The mathematical content of a [`PathQueryFailed`].
pub enum PathQueryFailedView {
    PathNotFound(Seq<char>),
    NotADirectory(Seq<char>),
    ReadFailed(Seq<char>),
    NoHomeDirectory,
}

impl View for PathQueryFailed {
    type V = PathQueryFailedView;

    open spec fn view(&self) -> PathQueryFailedView {
        match self {
            PathQueryFailed::PathNotFound(path) => PathQueryFailedView::PathNotFound(path@),
            PathQueryFailed::NotADirectory(path) => PathQueryFailedView::NotADirectory(path@),
            PathQueryFailed::ReadFailed(reason) => PathQueryFailedView::ReadFailed(reason@),
            PathQueryFailed::NoHomeDirectory => PathQueryFailedView::NoHomeDirectory,
        }
    }
}

/// The sentence that reports a failed query to the user.
pub open spec fn query_failure_text(failure: PathQueryFailedView) -> Seq<char> {
    match failure {
        PathQueryFailedView::PathNotFound(path) => "Path does not exist: "@ + path,
        PathQueryFailedView::NotADirectory(path) => "Path is not a directory: "@ + path,
        PathQueryFailedView::ReadFailed(reason) => "Failed to read directory: "@ + reason,
        PathQueryFailedView::NoHomeDirectory => "Failed to get home directory"@,
    }
}

impl PathQueryFailed {
    /// The sentence that reports this failure to the user.
    pub fn message(&self) -> (text: String)
        ensures
            text@ == query_failure_text(self@),
    {
        match self {
            PathQueryFailed::PathNotFound(path) => join("Path does not exist: ", path.as_str()),
            PathQueryFailed::NotADirectory(path) => join(
                "Path is not a directory: ",
                path.as_str(),
            ),
            PathQueryFailed::ReadFailed(reason) => join(
                "Failed to read directory: ",
                reason.as_str(),
            ),
            PathQueryFailed::NoHomeDirectory => String::from_str("Failed to get home directory"),
        }
    }
}

/// The strftime pattern of the `modified` column: `YYYY-MM-DD HH:MM:SS`.
pub open spec fn timestamp_pattern() -> Seq<char> {
    "%Y-%m-%d %H:%M:%S"@
}

/// The `modified` text of an entry last changed `secs` seconds after the
/// epoch: the UTC date and time, or the empty text where the calendar cannot
/// express the instant. A count beyond the signed 64-bit range is such an
/// instant.
pub open spec fn modified_text(secs: u64) -> Seq<char> {
    if secs > i64::MAX as u64 {
        Seq::empty()
    } else {
        match utc_text(secs as i64, timestamp_pattern()) {
            Some(text) => text,
            None => Seq::empty(),
        }
    }
}

/// The listing row that stands for a directory entry. Without metadata the
/// entry counts as a file of size zero with no modification time.
pub open spec fn entry_of(facts: EntryFactsView) -> FileEntryView {
    FileEntryView {
        name: facts.name,
        path: facts.path,
        is_dir: match facts.metadata {
            Some(m) => m.is_dir,
            None => false,
        },
        size: match facts.metadata {
            Some(m) => m.len as nat,
            None => 0,
        },
        modified: match facts.metadata {
            Some(m) => match m.modified_secs {
                Some(secs) => Some(modified_text(secs)),
                None => None,
            },
            None => None,
        },
    }
}

/// Renders the `modified` text of an entry last changed `secs` seconds after
/// the epoch.
fn modified_column(secs: u64) -> (text: String)
    ensures
        text@ == modified_text(secs),
{
    if secs > 0x7fff_ffff_ffff_ffff {
        String::new()
    } else {
        match format_utc(secs as i64, "%Y-%m-%d %H:%M:%S") {
            Some(text) => text,
            None => String::new(),
        }
    }
}

/// Builds the listing row for one directory entry.
pub fn make_entry(facts: EntryFacts) -> (entry: FileEntry)
    ensures
        entry@ == entry_of(facts@),
{
    let (is_dir, size, modified) = match facts.metadata {
        Some(m) => {
            let modified = match m.modified_secs {
                Some(secs) => Some(modified_column(secs)),
                None => None,
            };
            (m.is_dir, m.len, modified)
        },
        None => (false, 0u64, None),
    };
    FileEntry { name: facts.name, path: facts.path, is_dir, size, modified }
}

/// The order of a listing: directories before files, and within each group
/// by the lowercase form of the name, compared code point by code point.
pub open spec fn listing_le(a: FileEntryView, b: FileEntryView) -> bool {
    if a.is_dir != b.is_dir {
        a.is_dir
    } else {
        lex_le(lowercase_text(a.name), lowercase_text(b.name))
    }
}

/// `output` holds the rows `input[from..]` in listing order, and rows that
/// the order does not tell apart stay in the order they had in `input`.
/// `origin[i]` is the place in `input` that `output[i]` came from, and
/// `place[k]` is the place in `output` that `input[k]` went to.
pub open spec fn is_ordered_tail(
    input: Seq<FileEntryView>,
    from: int,
    output: Seq<FileEntryView>,
    origin: Seq<int>,
    place: Seq<int>,
) -> bool {
    &&& 0 <= from <= input.len()
    &&& output.len() == input.len() - from
    &&& origin.len() == output.len()
    &&& place.len() == input.len()
    &&& forall|i: int|
        0 <= i < output.len() ==> from <= #[trigger] origin[i] < input.len() && output[i]
            == input[origin[i]] && place[origin[i]] == i
    &&& forall|k: int|
        from <= k < input.len() ==> 0 <= #[trigger] place[k] < output.len() && origin[place[k]]
            == k
    &&& forall|i: int, j: int|
        0 <= i < j < output.len() ==> listing_le(#[trigger] output[i], #[trigger] output[j])
    &&& forall|i: int, j: int|
        0 <= i < j < output.len() && listing_le(#[trigger] output[j], #[trigger] output[i])
            ==> origin[i] < origin[j]
}

/// `output` holds all the rows of `input`, each once, in listing order with
/// ties left as they were given; `origin` and `place` say where each row
/// came from and went to.
pub open spec fn is_listing_order(
    input: Seq<FileEntryView>,
    output: Seq<FileEntryView>,
    origin: Seq<int>,
    place: Seq<int>,
) -> bool {
    is_ordered_tail(input, 0, output, origin, place)
}

/// `output` is the listing of the rows `input`: the same rows, in listing
/// order, with ties left as they were given.
pub open spec fn is_listing_of(input: Seq<FileEntryView>, output: Seq<FileEntryView>) -> bool {
    exists|origin: Seq<int>, place: Seq<int>| is_listing_order(input, output, origin, place)
}

/// The listing order is total: of two rows, one comes first.
pub proof fn lemma_listing_le_total(a: FileEntryView, b: FileEntryView)
    ensures
        listing_le(a, b) || listing_le(b, a),
{
    lemma_lex_le_total(lowercase_text(a.name), lowercase_text(b.name));
}

/// The listing order is transitive.
pub proof fn lemma_listing_le_transitive(a: FileEntryView, b: FileEntryView, c: FileEntryView)
    requires
        listing_le(a, b),
        listing_le(b, c),
    ensures
        listing_le(a, c),
{
    if a.is_dir == b.is_dir && b.is_dir == c.is_dir {
        lemma_lex_le_transitive(
            lowercase_text(a.name),
            lowercase_text(b.name),
            lowercase_text(c.name),
        );
    }
}

/// Two listings of the same rows take their first `upto` rows from the same
/// places.
proof fn lemma_origins_agree(
    input: Seq<FileEntryView>,
    first: Seq<FileEntryView>,
    origin1: Seq<int>,
    place1: Seq<int>,
    second: Seq<FileEntryView>,
    origin2: Seq<int>,
    place2: Seq<int>,
    upto: int,
)
    requires
        is_listing_order(input, first, origin1, place1),
        is_listing_order(input, second, origin2, place2),
        0 <= upto <= input.len(),
    ensures
        forall|i: int| 0 <= i < upto ==> origin1[i] == origin2[i],
    decreases upto,
{
    if upto > 0 {
        lemma_origins_agree(input, first, origin1, place1, second, origin2, place2, upto - 1);
        let i = upto - 1;
        let a = origin1[i];
        let b = origin2[i];
        if a != b {
            // Where the other listing holds the row that this one has here.
            let j = place2[a];
            let m = place1[b];
            assert(origin2[j] == a && origin1[m] == b);
            if j < i {
                assert(origin1[j] == a);
                assert(place1[origin1[j]] == j && place1[origin1[i]] == i);
            }
            if m < i {
                assert(origin2[m] == b);
                assert(place2[origin2[m]] == m && place2[origin2[i]] == i);
            }
            assert(i < j && i < m);
            assert(first[i] == input[a] && first[m] == input[b]);
            assert(second[i] == input[b] && second[j] == input[a]);
            assert(listing_le(first[i], first[m]));
            assert(listing_le(second[i], second[j]));
            assert(origin1[i] < origin1[m]);
            assert(origin2[i] < origin2[j]);
        }
    }
}

/// The rows decide their listing: two listings of the same rows are the same
/// sequence.
pub proof fn lemma_listing_is_unique(
    input: Seq<FileEntryView>,
    first: Seq<FileEntryView>,
    second: Seq<FileEntryView>,
)
    requires
        is_listing_of(input, first),
        is_listing_of(input, second),
    ensures
        first == second,
{
    let (origin1, place1) = choose|origin: Seq<int>, place: Seq<int>|
        is_listing_order(input, first, origin, place);
    let (origin2, place2) = choose|origin: Seq<int>, place: Seq<int>|
        is_listing_order(input, second, origin, place);
    lemma_origins_agree(
        input,
        first,
        origin1,
        place1,
        second,
        origin2,
        place2,
        input.len() as int,
    );
    assert forall|i: int| 0 <= i < first.len() implies first[i] == second[i] by {
        assert(first[i] == input[origin1[i]]);
        assert(second[i] == input[origin2[i]]);
    }
    assert(first =~= second);
}

/// Decides the listing order of two rows from their flags and the characters
/// of their lowercase names.
fn comes_first(
    a_is_dir: bool,
    a_key: &Vec<char>,
    b_is_dir: bool,
    b_key: &Vec<char>,
) -> (r: bool)
    ensures
        r == (if a_is_dir != b_is_dir {
            a_is_dir
        } else {
            lex_le(a_key@, b_key@)
        }),
{
    if a_is_dir != b_is_dir {
        a_is_dir
    } else {
        lex_le_chars(a_key, b_key)
    }
}

/// Where the rows stand once a row has been put in at `at`: rows from `at`
/// on move one place up, and the new row `row` stands at `at`.
pub open spec fn places_after_insert(place: Seq<int>, row: int, at: int) -> Seq<int> {
    Seq::new(
        place.len(),
        |k: int|
            if k == row {
                at
            } else if place[k] >= at {
                place[k] + 1
            } else {
                place[k]
            },
    )
}

/// Putting the row before the ordered tail into it, behind every row that
/// must precede it and in front of all others, gives an ordered tail that is
/// one row longer.
proof fn lemma_insert_keeps_order(
    input: Seq<FileEntryView>,
    rest: int,
    out: Seq<FileEntryView>,
    origin: Seq<int>,
    place: Seq<int>,
    at: int,
)
    requires
        0 <= rest < input.len(),
        is_ordered_tail(input, rest + 1, out, origin, place),
        0 <= at <= out.len(),
        forall|i: int| 0 <= i < at ==> !listing_le(input[rest], #[trigger] out[i]),
        at < out.len() ==> listing_le(input[rest], out[at]),
    ensures
        is_ordered_tail(
            input,
            rest,
            out.insert(at, input[rest]),
            origin.insert(at, rest),
            places_after_insert(place, rest, at),
        ),
{
    let e = input[rest];
    let out2 = out.insert(at, e);
    let origin2 = origin.insert(at, rest);
    let place2 = places_after_insert(place, rest, at);
    out.insert_ensures(at, e);
    origin.insert_ensures(at, rest);
    // Where each place of the longer listing comes from in the shorter one.
    let back = |i: int| if i < at { i } else { i - 1 };
    assert forall|i: int| 0 <= i < out2.len() && i != at implies out2[i] == out[back(i)]
        && origin2[i] == origin[back(i)] by {
        if i > at {
            assert(out2[(i - 1) + 1] == out[i - 1]);
            assert(origin2[(i - 1) + 1] == origin[i - 1]);
        }
    }
    assert forall|i: int| 0 <= i < out2.len() implies rest <= #[trigger] origin2[i] < input.len()
        && out2[i] == input[origin2[i]] && place2[origin2[i]] == i by {
        if i != at {
            assert(place[origin[back(i)]] == back(i));
        }
    }
    assert forall|k: int| rest <= k < input.len() implies 0 <= #[trigger] place2[k] < out2.len()
        && origin2[place2[k]] == k by {
        if k != rest {
            let old = place[k];
            assert(origin[old] == k);
            if old >= at {
                assert(origin2[old + 1] == origin[old]);
            }
        }
    }
    assert forall|i: int, j: int| 0 <= i < j < out2.len() implies listing_le(
        #[trigger] out2[i],
        #[trigger] out2[j],
    ) by {
        if i == at {
            let m = back(j);
            if m > at {
                lemma_listing_le_transitive(e, out[at], out[m]);
            }
        } else if j == at {
            lemma_listing_le_total(e, out[back(i)]);
        } else {
            assert(listing_le(out[back(i)], out[back(j)]));
        }
    }
    assert forall|i: int, j: int|
        0 <= i < j < out2.len() && listing_le(
            #[trigger] out2[j],
            #[trigger] out2[i],
        ) implies origin2[i] < origin2[j] by {
        if i == at {
        } else if j == at {
            assert(!listing_le(e, out[back(i)]));
        } else {
            assert(listing_le(out[back(j)], out[back(i)]));
        }
    }
}

/// Sorts the rows of a listing: directories first, then by lowercase name.
/// Rows with equal keys keep the order in which they were given.
pub fn sort_entries(entries: Vec<FileEntry>) -> (sorted: Vec<FileEntry>)
    ensures
        is_listing_of(entries.deep_view(), sorted.deep_view()),
{
    let ghost input = entries.deep_view();
    let mut rest = entries;
    let mut out: Vec<FileEntry> = Vec::new();
    let mut keys: Vec<Vec<char>> = Vec::new();
    let ghost mut origin: Seq<int> = Seq::empty();
    let ghost mut place: Seq<int> = Seq::new(input.len(), |k: int| 0int);
    assert(rest.deep_view() =~= input.take(rest.len() as int));
    while rest.len() > 0
        invariant
            rest.len() <= input.len(),
            rest.deep_view() == input.take(rest.len() as int),
            keys.len() == out.len(),
            forall|i: int|
                0 <= i < out.len() ==> (#[trigger] keys[i])@ == lowercase_text(out[i]@.name),
            is_ordered_tail(input, rest.len() as int, out.deep_view(), origin, place),
        decreases rest.len(),
    {
        let ghost before = rest.deep_view();
        let ghost old_out = out.deep_view();
        let ghost old_keys = keys@;
        let entry = rest.pop().unwrap();
        let ghost k = rest.len() as int;
        assert(entry@ == input[k]) by {
            assert(before[k] == entry@);
        }
        assert(rest.deep_view() =~= input.take(k));
        let lowered = entry.name.as_str().to_lowercase();
        let key = chars_of(lowered.as_str());
        let mut at: usize = 0;
        while at < out.len() && !comes_first(entry.is_dir, &key, out[at].is_dir, &keys[at])
            invariant
                at <= out.len(),
                keys.len() == out.len(),
                key@ == lowercase_text(entry@.name),
                old_out == out.deep_view(),
                forall|i: int|
                    0 <= i < out.len() ==> (#[trigger] keys[i])@ == lowercase_text(out[i]@.name),
                forall|i: int| 0 <= i < at ==> !listing_le(entry@, #[trigger] old_out[i]),
            decreases out.len() - at,
        {
            assert(old_out[at as int] == out[at as int]@);
            at += 1;
        }
        proof {
            if at < out.len() {
                assert(old_out[at as int] == out[at as int]@);
            }
            lemma_insert_keeps_order(input, k, old_out, origin, place, at as int);
            origin = origin.insert(at as int, k);
            place = places_after_insert(place, k, at as int);
        }
        let ghost old_rows = out@;
        out.insert(at, entry);
        keys.insert(at, key);
        proof {
            old_rows.insert_ensures(at as int, entry);
            old_keys.insert_ensures(at as int, key);
            old_out.insert_ensures(at as int, input[k]);
            assert forall|i: int| 0 <= i < out.len() implies out.deep_view()[i] == old_out.insert(
                at as int,
                input[k],
            )[i] && (#[trigger] keys[i])@ == lowercase_text(out[i]@.name) by {
                if i < at {
                    assert(old_out[i] == old_rows[i]@);
                } else if i > at {
                    assert(out@[(i - 1) + 1] == old_rows[i - 1]);
                    assert(keys@[(i - 1) + 1] == old_keys[i - 1]);
                    assert(old_out.insert(at as int, input[k])[(i - 1) + 1] == old_out[i - 1]);
                    assert(old_out[i - 1] == old_rows[i - 1]@);
                }
            }
            assert(out.deep_view() =~= old_out.insert(at as int, input[k]));
        }
    }
    proof {
        assert(is_listing_order(input, out.deep_view(), origin, place));
    }
    out
}

/// The rows of the entries that were read, in the order of reading. Entries
/// on which the file system failed contribute nothing.
pub open spec fn readable_rows(reads: Seq<EntryReadView>) -> Seq<FileEntryView>
    decreases reads.len(),
{
    if reads.len() == 0 {
        Seq::empty()
    } else {
        let before = readable_rows(reads.drop_last());
        match reads.last() {
            EntryReadView::Entry(facts) => before.push(entry_of(facts)),
            EntryReadView::Unreadable(_) => before,
        }
    }
}

/// The failure of a listing, if it fails: the path must exist, must be a
/// directory, and the directory must have been readable, in that order.
pub open spec fn listing_failure(
    path: Seq<char>,
    probe: PathProbe,
    read: Result<Seq<EntryReadView>, Seq<char>>,
) -> Option<PathQueryFailedView> {
    if !probe.exists {
        Some(PathQueryFailedView::PathNotFound(path))
    } else if !probe.is_dir {
        Some(PathQueryFailedView::NotADirectory(path))
    } else {
        match read {
            Err(reason) => Some(PathQueryFailedView::ReadFailed(reason)),
            Ok(_) => None,
        }
    }
}

/// The mathematical content of what reading a directory gave.
pub open spec fn read_view(read: Result<Vec<EntryRead>, String>) -> Result<
    Seq<EntryReadView>,
    Seq<char>,
> {
    match read {
        Ok(reads) => Ok(reads.deep_view()),
        Err(reason) => Err(reason@),
    }
}

/// Turns the entries that were read into rows, skipping the unreadable ones.
pub fn collect_rows(reads: Vec<EntryRead>) -> (rows: Vec<FileEntry>)
    ensures
        rows.deep_view() == readable_rows(reads.deep_view()),
{
    let ghost all = reads.deep_view();
    let mut rows: Vec<FileEntry> = Vec::new();
    for read in it: reads
        invariant
            it.seq().len() == all.len(),
            forall|i: int| 0 <= i < all.len() ==> (#[trigger] it.seq()[i])@ == all[i],
            rows.deep_view() == readable_rows(all.take(it.index() as int)),
    {
        let ghost n = it.index() as int;
        let ghost old_rows = rows.deep_view();
        assert(all.take(n + 1).drop_last() =~= all.take(n));
        assert(all.take(n + 1).last() == read@);
        match read {
            EntryRead::Entry(facts) => {
                let row = make_entry(facts);
                rows.push(row);
                assert(rows.deep_view() =~= old_rows.push(row@));
            },
            EntryRead::Unreadable(_) => {},
        }
    }
    assert(all.take(all.len() as int) =~= all);
    rows
}

/// Lists a directory.
///
/// `probe` says what stands at `path`, and `read` is what reading the
/// directory gave: the entries, or the reason why it could not be read.
/// The listing fails where the path is missing, is no directory or could not
/// be read. Otherwise it holds one row for each entry that was read,
/// directories first, then by lowercase name.
pub fn list_files(path: String, probe: PathProbe, read: Result<Vec<EntryRead>, String>) -> (result:
    Result<Vec<FileEntry>, PathQueryFailed>)
    ensures
        result is Err <==> listing_failure(path@, probe, read_view(read)) is Some,
        result matches Err(failure) ==> listing_failure(path@, probe, read_view(read)) == Some(
            failure@,
        ),
        result matches Ok(rows) ==> is_listing_of(
            readable_rows(read_view(read)->Ok_0),
            rows.deep_view(),
        ),
{
    if !probe.exists {
        return Err(PathQueryFailed::PathNotFound(path));
    }
    if !probe.is_dir {
        return Err(PathQueryFailed::NotADirectory(path));
    }
    match read {
        Ok(reads) => Ok(sort_entries(collect_rows(reads))),
        Err(reason) => Err(PathQueryFailed::ReadFailed(reason)),
    }
}

/// What `get_home_dir` answers once the host has been asked: the directory,
/// or the failure to name one.
pub fn home_dir_answer(home: Option<String>) -> (result: Result<String, PathQueryFailed>)
    ensures
        match home {
            Some(dir) => result == Ok::<String, PathQueryFailed>(dir),
            None => result == Err::<String, PathQueryFailed>(PathQueryFailed::NoHomeDirectory),
        },
{
    match home {
        Some(dir) => Ok(dir),
        None => Err(PathQueryFailed::NoHomeDirectory),
    }
}

/// The user's home directory, as the host reports it. The only failure is
/// that the host names none.
pub fn get_home_dir() -> (result: Result<String, PathQueryFailed>)
    ensures
        result matches Err(failure) ==> failure == PathQueryFailed::NoHomeDirectory,
{
    home_dir_answer(home_directory())
}

/// The number of drive letters, `A` to `Z`.
pub const DRIVE_LETTERS: u32 = 26;

/// Whether bit `index` of the drive mask is set: the drive with that letter
/// is present.
pub open spec fn has_drive(drive_bits: u32, index: nat) -> bool {
    drive_bits & (1u32 << (index as u32)) != 0
}

/// The root of the drive with letter number `index`: `A:/` for 0, `B:/` for 1.
pub open spec fn drive_root(index: nat) -> Seq<char> {
    seq![((65 + index) as u8) as char, ':', '/']
}

/// The roots of the drives among the first `count` letters that the mask
/// marks as present, in alphabetical order.
pub open spec fn drive_roots(drive_bits: u32, count: nat) -> Seq<Seq<char>>
    decreases count,
{
    if count == 0 {
        Seq::empty()
    } else {
        let before = drive_roots(drive_bits, (count - 1) as nat);
        if has_drive(drive_bits, (count - 1) as nat) {
            before.push(drive_root((count - 1) as nat))
        } else {
            before
        }
    }
}

/// The top-level roots of the host: one per present drive letter on Windows,
/// the single root `/` elsewhere.
pub open spec fn roots_of(platform: Platform, drive_bits: u32) -> Seq<Seq<char>> {
    match platform {
        Platform::Windows => drive_roots(drive_bits, DRIVE_LETTERS as nat),
        _ => seq!["/"@],
    }
}

/// Lists the drive roots of the host.
///
/// `drive_bits` is the host's mask of logical drives, bit 0 for `A`; it is
/// looked at on Windows only.
pub fn get_drives(platform: Platform, drive_bits: u32) -> (result: Result<Vec<String>, String>)
    ensures
        result matches Ok(roots) && roots.deep_view() == roots_of(platform, drive_bits),
{
    let mut drives: Vec<String> = Vec::new();
    match platform {
        Platform::Windows => {
            let mut i: u32 = 0;
            while i < DRIVE_LETTERS
                invariant
                    i <= DRIVE_LETTERS,
                    drives.deep_view() == drive_roots(drive_bits, i as nat),
                decreases DRIVE_LETTERS - i,
            {
                let ghost before = drives.deep_view();
                if (drive_bits & (1u32 << i)) != 0 {
                    let letter: char = (65u8 + (i as u8)) as char;
                    let mut root = String::new();
                    root.push(letter);
                    root.push(':');
                    root.push('/');
                    assert(root@ =~= drive_root(i as nat));
                    drives.push(root);
                    assert(drives.deep_view() =~= before.push(drive_root(i as nat)));
                }
                i += 1;
            }
        },
        _ => {
            let root = String::from_str("/");
            drives.push(root);
            assert(drives.deep_view() =~= seq!["/"@]);
        },
    }
    Ok(drives)
}

/// The command that reveals `path` in the platform's file manager, given the
/// directory that holds it. Windows and macOS select the file itself; Linux
/// opens the holding directory, or the root where there is none. On other
/// platforms there is nothing to run.
pub open spec fn reveal_command_of(
    platform: Platform,
    path: Seq<char>,
    parent: Option<Seq<char>>,
) -> Option<CommandLineView> {
    match platform {
        Platform::Windows => Some(
            CommandLineView { program: "explorer"@, args: seq!["/select,"@, path] },
        ),
        Platform::MacOs => Some(CommandLineView { program: "open"@, args: seq!["-R"@, path] }),
        Platform::Linux => Some(
            CommandLineView {
                program: "xdg-open"@,
                args: seq![
                    match parent {
                        Some(dir) => dir,
                        None => "/"@,
                    },
                ],
            },
        ),
        Platform::Other => None,
    }
}

/// Builds the command that reveals `path` in the file manager; `parent` is
/// the directory that holds the path, if it has one.
pub fn reveal_command(platform: Platform, path: String, parent: Option<String>) -> (command:
    Option<CommandLine>)
    ensures
        command.deep_view() == reveal_command_of(platform, path@, parent.deep_view()),
{
    match platform {
        Platform::Windows => {
            let mut args: Vec<String> = Vec::new();
            args.push(String::from_str("/select,"));
            args.push(path);
            assert(args.deep_view() =~= seq!["/select,"@, path@]);
            Some(CommandLine { program: String::from_str("explorer"), args })
        },
        Platform::MacOs => {
            let mut args: Vec<String> = Vec::new();
            args.push(String::from_str("-R"));
            args.push(path);
            assert(args.deep_view() =~= seq!["-R"@, path@]);
            Some(CommandLine { program: String::from_str("open"), args })
        },
        Platform::Linux => {
            let dir = match parent {
                Some(dir) => dir,
                None => String::from_str("/"),
            };
            let mut args: Vec<String> = Vec::new();
            args.push(dir);
            assert(args.deep_view() =~= seq![dir@]);
            Some(CommandLine { program: String::from_str("xdg-open"), args })
        },
        Platform::Other => None,
    }
}

/// The command that reveals `path` in the platform's file manager, or `None`
/// where the platform has none. On Linux the holding directory is worked out
/// by the standard library's path rules.
pub fn open_file_in_explorer(platform: Platform, path: String) -> (command: Option<CommandLine>)
    ensures
        exists|parent: Option<Seq<char>>|
            command.deep_view() == reveal_command_of(platform, path@, parent),
        platform != Platform::Linux ==> command.deep_view() == reveal_command_of(
            platform,
            path@,
            None,
        ),
{
    let parent = match platform {
        Platform::Linux => parent_directory(path.as_str()),
        _ => None,
    };
    let command = reveal_command(platform, path, parent);
    assert(command.deep_view() == reveal_command_of(platform, path@, parent.deep_view()));
    command
}

/// The sentence that reports that the file manager could not be started.
pub open spec fn reveal_failure_text(platform: Platform, reason: Seq<char>) -> Seq<char> {
    match platform {
        Platform::Windows => "Failed to open explorer: "@ + reason,
        Platform::MacOs => "Failed to open finder: "@ + reason,
        _ => "Failed to open file manager: "@ + reason,
    }
}

/// Words the failure to start the file manager; `reason` is what the host
/// said.
pub fn reveal_failure_message(platform: Platform, reason: &str) -> (text: String)
    ensures
        text@ == reveal_failure_text(platform, reason@),
{
    match platform {
        Platform::Windows => join("Failed to open explorer: ", reason),
        Platform::MacOs => join("Failed to open finder: ", reason),
        _ => join("Failed to open file manager: ", reason),
    }
}

} // verus!
