//! Where files belong below the music directory, and what is to be done to
//! bring them there.

use vstd::prelude::*;
use vstd::string::*;
use crate::paths::{file_name, join_path, joined_path, path_file_name};
use crate::tally::{all_operations, law_plans_hold_every_file};
use crate::text::{lemma_lines_view_push, lines_view};

verus! {

/// The directory of an album below the directory of all artists.
pub open spec fn album_path_of(artists_path: Seq<char>, artist: Seq<char>, album: Seq<char>) -> Seq<
    char,
> {
    joined_path(joined_path(artists_path, artist), album)
}

/// The album directory that is to be created, with all its parents.
pub fn create_album_directory(artists_path: &str, artist: &str, album: &str) -> (path: String)
    ensures
        path@ == album_path_of(artists_path@, artist@, album@),
{
    let artist_path = join_path(artists_path, artist);
    join_path(artist_path.as_str(), album)
}

/// An album directory and whether it is to be created.
#[derive(Clone, Debug)]
pub struct DirectoryPlan {
    pub path: String,
    /// False in a dry run, in which the directory is only spoken of.
    pub create: bool,
}

/// The album directory, to be created unless this is a dry run.
pub fn create_album_directory_with_dry_run(
    artists_path: &str,
    artist: &str,
    album: &str,
    dry_run: bool,
) -> (plan: DirectoryPlan)
    ensures
        plan.path@ == album_path_of(artists_path@, artist@, album@),
        plan.create == !dry_run,
{
    DirectoryPlan { path: create_album_directory(artists_path, artist, album), create: !dry_run }
}

/// How a file is brought to its place.
#[derive(Clone, Copy, Debug, PartialEq, Eq, Structural)]
pub enum TransferKind {
    /// The file leaves where it was.
    Move,
    /// The file stays where it was, and a copy of it is made.
    Copy,
}

/// What is to be done with a file that belongs into an album directory.
#[derive(Clone, Debug)]
pub enum FileOperation {
    /// The path has no file name; the file cannot be placed.
    NoFileName { source: String },
    /// The file is where it belongs.
    InPlace,
    /// A dry run: say that the file would be moved or copied into the
    /// directory.
    Announce { kind: TransferKind, source: String, album_path: String },
    /// Move or copy the file to the destination unless there is a file
    /// already. A move takes the source away; a copy leaves it as it is.
    Transfer { kind: TransferKind, source: String, destination: String },
}

/// What a `FileOperation` holds, as mathematical values.
pub enum FileOperationView {
    NoFileName { source: Seq<char> },
    InPlace,
    Announce { kind: TransferKind, source: Seq<char>, album_path: Seq<char> },
    Transfer { kind: TransferKind, source: Seq<char>, destination: Seq<char> },
}

impl View for FileOperation {
    type V = FileOperationView;

    open spec fn view(&self) -> FileOperationView {
        match self {
            FileOperation::NoFileName { source } => FileOperationView::NoFileName {
                source: source@,
            },
            FileOperation::InPlace => FileOperationView::InPlace,
            FileOperation::Announce { kind, source, album_path } => FileOperationView::Announce {
                kind: *kind,
                source: source@,
                album_path: album_path@,
            },
            FileOperation::Transfer { kind, source, destination } => FileOperationView::Transfer {
                kind: *kind,
                source: source@,
                destination: destination@,
            },
        }
    }
}

/// What is to be done with a file that belongs into an album directory: it
/// keeps its name and is moved or copied there, as `kind` says; nothing is
/// done where it lies there already.
pub open spec fn placement(
    file_path: Seq<char>,
    album_path: Seq<char>,
    dry_run: bool,
    kind: TransferKind,
) -> FileOperationView {
    match path_file_name(file_path) {
        None => FileOperationView::NoFileName { source: file_path },
        Some(name) => if file_path == joined_path(album_path, name) {
            FileOperationView::InPlace
        } else if dry_run {
            FileOperationView::Announce { kind, source: file_path, album_path }
        } else {
            FileOperationView::Transfer {
                kind,
                source: file_path,
                destination: joined_path(album_path, name),
            }
        },
    }
}

fn place(file_path: &str, album_path: &str, dry_run: bool, kind: TransferKind) -> (r: FileOperation)
    ensures
        r@ == placement(file_path@, album_path@, dry_run, kind),
{
    match file_name(file_path) {
        None => FileOperation::NoFileName { source: String::from_str(file_path) },
        Some(name) => {
            let destination = join_path(album_path, name.as_str());
            if destination.as_str().eq(file_path) {
                FileOperation::InPlace
            } else if dry_run {
                FileOperation::Announce {
                    kind,
                    source: String::from_str(file_path),
                    album_path: String::from_str(album_path),
                }
            } else {
                FileOperation::Transfer { kind, source: String::from_str(file_path), destination }
            }
        },
    }
}

/// What is to be done to move a file into an album directory.
pub fn move_file_to_album(file_path: &str, album_path: &str, dry_run: bool) -> (r: FileOperation)
    ensures
        r@ == placement(file_path@, album_path@, dry_run, TransferKind::Move),
{
    place(file_path, album_path, dry_run, TransferKind::Move)
}

/// What is to be done to copy a file into an album directory.
pub fn copy_file_to_album(file_path: &str, album_path: &str, dry_run: bool) -> (r: FileOperation)
    ensures
        r@ == placement(file_path@, album_path@, dry_run, TransferKind::Copy),
{
    place(file_path, album_path, dry_run, TransferKind::Copy)
}

/// The tally of an organisation run.
#[derive(Clone, Copy, Debug, PartialEq, Eq, Structural)]
pub struct FileOrganizationResult {
    pub files_processed: usize,
    pub directories_created: usize,
    pub files_skipped: usize,
}

impl FileOrganizationResult {
    /// The tally after one more file: processed where it went through,
    /// skipped where it did not. A count that is full stays.
    pub open spec fn with_file(self, went_through: bool) -> FileOrganizationResult {
        if went_through {
            FileOrganizationResult {
                files_processed: if self.files_processed < usize::MAX {
                    (self.files_processed + 1) as usize
                } else {
                    self.files_processed
                },
                ..self
            }
        } else {
            FileOrganizationResult {
                files_skipped: if self.files_skipped < usize::MAX {
                    (self.files_skipped + 1) as usize
                } else {
                    self.files_skipped
                },
                ..self
            }
        }
    }

    /// Counts one more file.
    pub fn record(&mut self, went_through: bool)
        ensures
            *final(self) == old(self).with_file(went_through),
    {
        if went_through {
            if self.files_processed < usize::MAX {
                self.files_processed = self.files_processed + 1;
            }
        } else {
            if self.files_skipped < usize::MAX {
                self.files_skipped = self.files_skipped + 1;
            }
        }
    }
}

/// What came of carrying a transfer out.
#[derive(Clone, Copy, Debug, PartialEq, Eq, Structural)]
pub enum TransferOutcome {
    /// The file was moved or copied.
    Done,
    /// There was a file at the destination already; nothing was done.
    DestinationExists,
    /// The file could not be moved or copied.
    Failed,
}

/// Whether a file counts as processed once its operation was gone through:
/// a file without a name does not, a transfer that failed does not, and
/// everything else does. The outcome counts for transfers only.
pub open spec fn went_through(operation: FileOperationView, outcome: TransferOutcome) -> bool {
    match operation {
        FileOperationView::NoFileName { .. } => false,
        FileOperationView::Transfer { .. } => !(outcome is Failed),
        _ => true,
    }
}

impl FileOrganizationResult {
    /// Counts the file of an operation that was gone through.
    pub fn record_operation(&mut self, operation: &FileOperation, outcome: TransferOutcome)
        ensures
            *final(self) == old(self).with_file(went_through(operation@, outcome)),
    {
        let processed = match operation {
            FileOperation::NoFileName { .. } => false,
            FileOperation::Transfer { .. } => match outcome {
                TransferOutcome::Failed => false,
                _ => true,
            },
            _ => true,
        };
        self.record(processed);
    }
}

/// A file with the artist and album it belongs to.
#[derive(Clone, Debug)]
pub struct FileEntry {
    pub path: String,
    pub artist: String,
    pub album: String,
}

/// What a `FileEntry` holds, as mathematical values.
pub struct FileEntryView {
    pub path: Seq<char>,
    pub artist: Seq<char>,
    pub album: Seq<char>,
}

impl View for FileEntry {
    type V = FileEntryView;

    open spec fn view(&self) -> FileEntryView {
        FileEntryView { path: self.path@, artist: self.artist@, album: self.album@ }
    }
}

impl FileEntryView {
    /// The pair of artist and album.
    pub open spec fn key(self) -> (Seq<char>, Seq<char>) {
        (self.artist, self.album)
    }
}

/// The views of a sequence of files, in order.
pub open spec fn entries_view(files: Seq<FileEntry>) -> Seq<FileEntryView> {
    files.map_values(|f: FileEntry| f@)
}

/// The pairs of artist and album that occur among the files, each once, in
/// the order in which they first occur.
pub open spec fn album_keys(files: Seq<FileEntryView>) -> Seq<(Seq<char>, Seq<char>)>
    decreases files.len(),
{
    if files.len() == 0 {
        Seq::empty()
    } else {
        let before = album_keys(files.drop_last());
        if before.contains(files.last().key()) {
            before
        } else {
            before.push(files.last().key())
        }
    }
}

/// The paths of the files of an album, in the order of the files.
pub open spec fn album_files(files: Seq<FileEntryView>, key: (Seq<char>, Seq<char>)) -> Seq<
    Seq<char>,
> {
    files.filter(|f: FileEntryView| f.key() == key).map_values(|f: FileEntryView| f.path)
}

/// The files of one album.
#[derive(Clone, Debug)]
pub struct AlbumGroup {
    pub artist: String,
    pub album: String,
    pub files: Vec<String>,
}

impl AlbumGroup {
    /// The pair of artist and album.
    pub open spec fn key(self) -> (Seq<char>, Seq<char>) {
        (self.artist@, self.album@)
    }
}

/// Whether the groups are the files sorted into albums: one group for each
/// pair of artist and album, in the order of first occurrence, each with its
/// files in their order.
pub open spec fn is_grouping(groups: Seq<AlbumGroup>, files: Seq<FileEntryView>) -> bool {
    &&& groups.len() == album_keys(files).len()
    &&& forall|i: int|
        0 <= i < groups.len() ==> (#[trigger] groups[i]).key() == album_keys(files)[i]
            && lines_view(groups[i].files@) == album_files(files, album_keys(files)[i])
}

/// No pair occurs twice among the album keys.
pub proof fn lemma_album_keys_distinct(files: Seq<FileEntryView>)
    ensures
        album_keys(files).no_duplicates(),
    decreases files.len(),
{
    if files.len() > 0 {
        lemma_album_keys_distinct(files.drop_last());
    }
}

/// One more file: the files of its album grow by it, those of every other
/// album stay.
pub proof fn lemma_album_files_push(files: Seq<FileEntryView>, f: FileEntryView, key: (
    Seq<char>,
    Seq<char>,
))
    ensures
        album_files(files.push(f), key) == if f.key() == key {
            album_files(files, key).push(f.path)
        } else {
            album_files(files, key)
        },
{
    let same = |g: FileEntryView| g.key() == key;
    files.lemma_filter_push(f, same);
    if f.key() == key {
        assert(files.filter(same).push(f).map_values(|g: FileEntryView| g.path) =~= files.filter(
            same,
        ).map_values(|g: FileEntryView| g.path).push(f.path));
    }
}

/// An album whose key does not occur among the album keys has no files.
pub proof fn lemma_unseen_album_is_empty(files: Seq<FileEntryView>, key: (Seq<char>, Seq<char>))
    requires
        !album_keys(files).contains(key),
    ensures
        album_files(files, key).len() == 0,
    decreases files.len(),
{
    reveal(Seq::filter);
    if files.len() > 0 {
        let before = album_keys(files.drop_last());
        let last = files.last().key();
        if before.contains(last) {
            assert(album_keys(files) == before);
        } else {
            assert(album_keys(files) == before.push(last));
            assert(before.push(last)[before.len() as int] == last);
            if before.contains(key) {
                let j = choose|j: int| 0 <= j < before.len() && before[j] == key;
                assert(before.push(last)[j] == key);
            }
        }
        assert(last != key);
        lemma_unseen_album_is_empty(files.drop_last(), key);
    }
}

fn find_group(groups: &Vec<AlbumGroup>, artist: &str, album: &str) -> (r: Option<usize>)
    ensures
        match r {
            Some(i) => i < groups.len() && groups@[i as int].key() == (artist@, album@),
            None => forall|i: int|
                0 <= i < groups.len() ==> (#[trigger] groups@[i]).key() != (artist@, album@),
        },
{
    let mut i: usize = 0;
    while i < groups.len()
        invariant
            i <= groups.len(),
            forall|k: int| 0 <= k < i ==> (#[trigger] groups@[k]).key() != (artist@, album@),
        decreases groups.len() - i,
    {
        if groups[i].artist.as_str().eq(artist) && groups[i].album.as_str().eq(album) {
            return Some(i);
        }
        i += 1;
    }
    None
}

/// Sorts files into albums.
pub fn group_by_album(files: &Vec<FileEntry>) -> (groups: Vec<AlbumGroup>)
    ensures
        is_grouping(groups@, entries_view(files@)),
{
    let mut groups: Vec<AlbumGroup> = Vec::new();
    let ghost all = entries_view(files@);
    let mut i: usize = 0;
    proof {
        assert(all.take(0) =~= Seq::<FileEntryView>::empty());
        reveal(Seq::filter);
    }
    while i < files.len()
        invariant
            i <= files.len(),
            all == entries_view(files@),
            is_grouping(groups@, all.take(i as int)),
        decreases files.len() - i,
    {
        let file = &files[i];
        let ghost before = all.take(i as int);
        let ghost now = all.take(i + 1);
        let ghost keys = album_keys(before);
        let ghost old_groups = groups@;
        proof {
            assert(now =~= before.push(file@));
            assert(now.drop_last() =~= before);
            assert(now.last() == file@);
            lemma_album_keys_distinct(before);
            assert forall|j: int| 0 <= j < keys.len() implies album_files(now, keys[j]) == if file@.key()
                == keys[j] {
                album_files(before, keys[j]).push(file@.path)
            } else {
                album_files(before, keys[j])
            } by {
                lemma_album_files_push(before, file@, keys[j]);
            }
            lemma_album_files_push(before, file@, file@.key());
        }
        match find_group(&groups, file.artist.as_str(), file.album.as_str()) {
            Some(at) => {
                let path = file.path.clone();
                proof {
                    assert(keys[at as int] == file@.key());
                    assert(keys.contains(file@.key()));
                    lemma_lines_view_push(groups@[at as int].files@, path);
                }
                let mut group = groups.remove(at);
                group.files.push(path);
                groups.insert(at, group);
                proof {
                    assert(album_keys(now) == keys);
                    assert forall|j: int| 0 <= j < groups@.len() implies (#[trigger] groups@[j]).key()
                        == album_keys(now)[j] && lines_view(groups@[j].files@) == album_files(
                        now,
                        album_keys(now)[j],
                    ) by {
                        if j != at {
                            assert(groups@[j] == old_groups[j]);
                            assert(keys[j] != keys[at as int]);
                        }
                    }
                }
            },
            None => {
                let mut paths: Vec<String> = Vec::new();
                let path = file.path.clone();
                paths.push(path);
                proof {
                    assert(lines_view(paths@) =~= seq![file@.path]);
                    if keys.contains(file@.key()) {
                        let j = choose|j: int| 0 <= j < keys.len() && keys[j] == file@.key();
                        assert(old_groups[j].key() == keys[j]);
                    }
                    assert(!keys.contains(file@.key()));
                    assert(album_keys(now) == keys.push(file@.key()));
                    lemma_unseen_album_is_empty(before, file@.key());
                    assert(album_files(before, file@.key()) =~= Seq::<Seq<char>>::empty());
                }
                groups.push(
                    AlbumGroup {
                        artist: file.artist.clone(),
                        album: file.album.clone(),
                        files: paths,
                    },
                );
                proof {
                    assert forall|j: int| 0 <= j < groups@.len() implies (#[trigger] groups@[j]).key()
                        == album_keys(now)[j] && lines_view(groups@[j].files@) == album_files(
                        now,
                        album_keys(now)[j],
                    ) by {
                        if j < old_groups.len() {
                            assert(groups@[j] == old_groups[j]);
                            assert(keys[j] != file@.key());
                        }
                    }
                }
            },
        }
        i += 1;
    }
    assert(all.take(all.len() as int) == all);
    groups
}

/// What is to be done for one album: its directory, and an operation for
/// each of its files.
#[derive(Clone, Debug)]
pub struct AlbumPlan {
    pub directory: DirectoryPlan,
    /// Whether the directory counts as created in the tally.
    pub counted: bool,
    pub operations: Vec<FileOperation>,
}

/// The views of a sequence of operations, in order.
pub open spec fn operations_view(operations: Seq<FileOperation>) -> Seq<FileOperationView> {
    operations.map_values(|o: FileOperation| o@)
}

/// The operations for the files of an album, one for one.
pub open spec fn placements(
    files: Seq<Seq<char>>,
    album_path: Seq<char>,
    dry_run: bool,
    kind: TransferKind,
) -> Seq<FileOperationView> {
    files.map_values(|path: Seq<char>| placement(path, album_path, dry_run, kind))
}

/// Whether the plans are what is to be done for the files: one plan for each
/// album, in the order of first occurrence, with the album's directory below
/// `Artists` in the music directory, created unless this is a dry run, and an
/// operation of the given kind for each file of the album.
pub open spec fn is_plan(
    plans: Seq<AlbumPlan>,
    files: Seq<FileEntryView>,
    music_dir: Seq<char>,
    dry_run: bool,
    kind: TransferKind,
    counted: bool,
) -> bool {
    &&& plans.len() == album_keys(files).len()
    &&& forall|i: int|
        0 <= i < plans.len() ==> {
            let key = album_keys(files)[i];
            let path = album_path_of(joined_path(music_dir, "Artists"@), key.0, key.1);
            &&& (#[trigger] plans[i]).directory.path@ == path
            &&& plans[i].directory.create == !dry_run
            &&& plans[i].counted == counted
            &&& operations_view(plans[i].operations@) == placements(
                album_files(files, key),
                path,
                dry_run,
                kind,
            )
        }
}

/// Whether the plans are what is to be done for the groups, one for one:
/// the group's directory below `Artists` in the music directory, created
/// unless this is a dry run, and an operation for each of its files.
pub open spec fn is_plan_of_groups(
    plans: Seq<AlbumPlan>,
    groups: Seq<AlbumGroup>,
    music_dir: Seq<char>,
    dry_run: bool,
    kind: TransferKind,
    counted: bool,
) -> bool {
    &&& plans.len() == groups.len()
    &&& forall|i: int|
        0 <= i < plans.len() ==> {
            let path = album_path_of(
                joined_path(music_dir, "Artists"@),
                groups[i].artist@,
                groups[i].album@,
            );
            &&& (#[trigger] plans[i]).directory.path@ == path
            &&& plans[i].directory.create == !dry_run
            &&& plans[i].counted == counted
            &&& operations_view(plans[i].operations@) == placements(
                lines_view(groups[i].files@),
                path,
                dry_run,
                kind,
            )
        }
}

/// Plans what is to be done for groups of files.
pub fn plan_groups(
    groups: &Vec<AlbumGroup>,
    music_dir: &str,
    dry_run: bool,
    kind: TransferKind,
    counted: bool,
) -> (plans: Vec<AlbumPlan>)
    ensures
        is_plan_of_groups(plans@, groups@, music_dir@, dry_run, kind, counted),
{
    let artists_path = join_path(music_dir, "Artists");
    let mut plans: Vec<AlbumPlan> = Vec::new();
    let mut i: usize = 0;
    while i < groups.len()
        invariant
            i <= groups.len(),
            artists_path@ == joined_path(music_dir@, "Artists"@),
            is_plan_of_groups(plans@, groups@.take(i as int), music_dir@, dry_run, kind, counted),
        decreases groups.len() - i,
    {
        let group = &groups[i];
        let directory = create_album_directory_with_dry_run(
            artists_path.as_str(),
            group.artist.as_str(),
            group.album.as_str(),
            dry_run,
        );
        let mut operations: Vec<FileOperation> = Vec::new();
        let mut j: usize = 0;
        while j < group.files.len()
            invariant
                j <= group.files.len(),
                operations@.len() == j,
                forall|k: int|
                    0 <= k < j ==> (#[trigger] operations@[k])@ == placement(
                        group.files@[k]@,
                        directory.path@,
                        dry_run,
                        kind,
                    ),
            decreases group.files.len() - j,
        {
            operations.push(place(group.files[j].as_str(), directory.path.as_str(), dry_run, kind));
            j += 1;
        }
        assert(operations_view(operations@) =~= placements(
            lines_view(group.files@),
            directory.path@,
            dry_run,
            kind,
        ));
        let ghost before = plans@;
        plans.push(AlbumPlan { directory, counted, operations });
        proof {
            let now = groups@.take(i + 1);
            assert forall|k: int| 0 <= k < plans@.len() implies {
                let path = album_path_of(
                    joined_path(music_dir@, "Artists"@),
                    now[k].artist@,
                    now[k].album@,
                );
                &&& (#[trigger] plans@[k]).directory.path@ == path
                &&& plans@[k].directory.create == !dry_run
                &&& plans@[k].counted == counted
                &&& operations_view(plans@[k].operations@) == placements(
                    lines_view(now[k].files@),
                    path,
                    dry_run,
                    kind,
                )
            } by {
                if k < i {
                    assert(plans@[k] == before[k]);
                    assert(now[k] == groups@.take(i as int)[k]);
                }
            }
        }
        i += 1;
    }
    assert(groups@.take(groups@.len() as int) == groups@);
    plans
}

fn plan_albums(
    files: &Vec<FileEntry>,
    music_dir: &str,
    dry_run: bool,
    kind: TransferKind,
    counted: bool,
) -> (plans: Vec<AlbumPlan>)
    ensures
        is_plan(plans@, entries_view(files@), music_dir@, dry_run, kind, counted),
{
    let groups = group_by_album(files);
    plan_groups(&groups, music_dir, dry_run, kind, counted)
}

/// Plans the move of files into the directories of their albums: every
/// transfer is a move. No directory counts as created. There is one
/// operation for each file.
pub fn organize_files_by_metadata(files: &Vec<FileEntry>, music_dir: &str, dry_run: bool) -> (plans:
    Vec<AlbumPlan>)
    ensures
        is_plan(plans@, entries_view(files@), music_dir@, dry_run, TransferKind::Move, false),
        all_operations(plans@).len() == files@.len(),
{
    let plans = plan_albums(files, music_dir, dry_run, TransferKind::Move, false);
    proof {
        law_plans_hold_every_file(
            plans@,
            entries_view(files@),
            music_dir@,
            dry_run,
            TransferKind::Move,
            false,
        );
    }
    plans
}

/// Plans the copy of files into the directories of their albums: every
/// transfer is a copy, which leaves its source in place. In a dry run every
/// directory counts as created. There is one operation for each file.
pub fn copy_files_by_metadata(files: &Vec<FileEntry>, music_dir: &str, dry_run: bool) -> (plans: Vec<
    AlbumPlan,
>)
    ensures
        is_plan(plans@, entries_view(files@), music_dir@, dry_run, TransferKind::Copy, dry_run),
        all_operations(plans@).len() == files@.len(),
{
    let plans = plan_albums(files, music_dir, dry_run, TransferKind::Copy, dry_run);
    proof {
        law_plans_hold_every_file(
            plans@,
            entries_view(files@),
            music_dir@,
            dry_run,
            TransferKind::Copy,
            dry_run,
        );
    }
    plans
}

/// The tally before any file was gone through: no files, and the
/// directories that count as created.
pub fn begin_tally(plans: &Vec<AlbumPlan>) -> (r: FileOrganizationResult)
    ensures
        r.files_processed == 0,
        r.files_skipped == 0,
        r.directories_created == plans@.filter(|p: AlbumPlan| p.counted).len(),
{
    let mut created: usize = 0;
    let mut i: usize = 0;
    let ghost counted = |p: AlbumPlan| p.counted;
    proof {
        reveal(Seq::filter);
        assert(plans@.take(0).filter(counted) =~= Seq::<AlbumPlan>::empty());
    }
    while i < plans.len()
        invariant
            i <= plans.len(),
            counted == (|p: AlbumPlan| p.counted),
            created == plans@.take(i as int).filter(counted).len(),
            created <= i,
        decreases plans.len() - i,
    {
        proof {
            assert(plans@.take(i + 1) =~= plans@.take(i as int).push(plans@[i as int]));
            plans@.take(i as int).lemma_filter_push(plans@[i as int], counted);
        }
        if plans[i].counted {
            created += 1;
        }
        i += 1;
    }
    assert(plans@.take(plans@.len() as int) == plans@);
    FileOrganizationResult { files_processed: 0, directories_created: created, files_skipped: 0 }
}

} // verus!
