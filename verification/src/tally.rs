//! The tally of a run over plans: how many files went through, how many did
//! not, and that these are all the files there were.

use vstd::prelude::*;
use crate::directory::{
    album_files, album_keys, begin_tally, is_plan, is_plan_of_groups, lemma_album_files_push,
    lemma_album_keys_distinct, lemma_unseen_album_is_empty, operations_view, went_through,
    AlbumGroup, AlbumPlan, FileEntryView, FileOperationView, FileOrganizationResult,
    TransferKind, TransferOutcome,
};
use crate::organize::{album_map, law_index_holds_every_file, lists_contents};
use crate::text::lines_view;

verus! {

/// The operations of all plans, in the order of the plans.
pub open spec fn all_operations(plans: Seq<AlbumPlan>) -> Seq<FileOperationView>
    decreases plans.len(),
{
    if plans.len() == 0 {
        Seq::empty()
    } else {
        all_operations(plans.drop_last()) + operations_view(plans.last().operations@)
    }
}

/// For every operation, whether its file counts as processed under the
/// outcome at the same position.
pub open spec fn verdicts(
    operations: Seq<FileOperationView>,
    outcomes: Seq<TransferOutcome>,
) -> Seq<bool> {
    Seq::new(operations.len(), |i: int| went_through(operations[i], outcomes[i]))
}

/// How many files count as processed.
pub open spec fn processed_count(verdicts: Seq<bool>) -> nat {
    verdicts.filter(|v: bool| v).len()
}

/// How many files count as skipped.
pub open spec fn skipped_count(verdicts: Seq<bool>) -> nat {
    verdicts.filter(|v: bool| !v).len()
}

/// Every file is either processed or skipped.
pub proof fn law_every_file_is_counted(verdicts: Seq<bool>)
    ensures
        processed_count(verdicts) + skipped_count(verdicts) == verdicts.len(),
    decreases verdicts.len(),
{
    reveal(Seq::filter);
    if verdicts.len() > 0 {
        let front = verdicts.drop_last();
        law_every_file_is_counted(front);
        assert(verdicts =~= front.push(verdicts.last()));
        front.lemma_filter_push(verdicts.last(), |v: bool| v);
        front.lemma_filter_push(verdicts.last(), |v: bool| !v);
    }
}

/// The operations of a plan stand among the operations of all plans behind
/// those of the plans before it.
proof fn lemma_operation_at(plans: Seq<AlbumPlan>, i: int, j: int)
    requires
        0 <= i < plans.len(),
        0 <= j < plans[i].operations@.len(),
    ensures
        all_operations(plans.take(i)).len() + j < all_operations(plans).len(),
        all_operations(plans)[all_operations(plans.take(i)).len() + j] == plans[i].operations@[j]@,
    decreases plans.len(),
{
    let front = plans.drop_last();
    if i == plans.len() - 1 {
        assert(plans.take(i) =~= front);
    } else {
        assert(front.take(i) =~= plans.take(i));
        lemma_operation_at(front, i, j);
    }
}

/// The operations of the plans up to and with a plan are those of the plans
/// before it and its own.
proof fn lemma_operations_with(plans: Seq<AlbumPlan>, i: int)
    requires
        0 <= i < plans.len(),
    ensures
        all_operations(plans.take(i + 1)) == all_operations(plans.take(i)) + operations_view(
            plans[i].operations@,
        ),
{
    assert(plans.take(i + 1).drop_last() =~= plans.take(i));
}

/// How many files the albums of the keys have between them.
pub open spec fn files_under(files: Seq<FileEntryView>, keys: Seq<(Seq<char>, Seq<char>)>) -> nat
    decreases keys.len(),
{
    if keys.len() == 0 {
        0
    } else {
        files_under(files, keys.drop_last()) + album_files(files, keys.last()).len()
    }
}

/// One more file is one more under keys that hold its album, and none more
/// under keys that do not.
proof fn lemma_files_under_push(
    files: Seq<FileEntryView>,
    f: FileEntryView,
    keys: Seq<(Seq<char>, Seq<char>)>,
)
    requires
        keys.no_duplicates(),
    ensures
        files_under(files.push(f), keys) == files_under(files, keys) + if keys.contains(f.key()) {
            1nat
        } else {
            0nat
        },
    decreases keys.len(),
{
    if keys.len() > 0 {
        let front = keys.drop_last();
        let last = keys.last();
        lemma_files_under_push(files, f, front);
        lemma_album_files_push(files, f, last);
        if last == f.key() {
            assert(keys[keys.len() - 1] == f.key());
            if front.contains(f.key()) {
                let at = choose|at: int| 0 <= at < front.len() && front[at] == f.key();
                assert(keys[at] == keys[keys.len() - 1]);
            }
        } else {
            if keys.contains(f.key()) {
                let at = choose|at: int| 0 <= at < keys.len() && keys[at] == f.key();
                assert(front[at] == f.key());
            }
            if front.contains(f.key()) {
                let at = choose|at: int| 0 <= at < front.len() && front[at] == f.key();
                assert(keys[at] == f.key());
            }
        }
    }
}

/// The albums of files have all the files between them, each once.
pub proof fn law_albums_hold_every_file(files: Seq<FileEntryView>)
    ensures
        files_under(files, album_keys(files)) == files.len(),
    decreases files.len(),
{
    if files.len() > 0 {
        let front = files.drop_last();
        let f = files.last();
        let before = album_keys(front);
        law_albums_hold_every_file(front);
        lemma_album_keys_distinct(front);
        assert(files =~= front.push(f));
        lemma_files_under_push(front, f, before);
        if !before.contains(f.key()) {
            assert(before.push(f.key()).drop_last() =~= before);
            lemma_unseen_album_is_empty(front, f.key());
            lemma_album_files_push(front, f, f.key());
        }
    }
}

proof fn lemma_plans_up_to(
    plans: Seq<AlbumPlan>,
    files: Seq<FileEntryView>,
    music_dir: Seq<char>,
    dry_run: bool,
    kind: TransferKind,
    counted: bool,
    upto: int,
)
    requires
        is_plan(plans, files, music_dir, dry_run, kind, counted),
        0 <= upto <= plans.len(),
    ensures
        all_operations(plans.take(upto)).len() == files_under(files, album_keys(files).take(upto)),
    decreases upto,
{
    if upto > 0 {
        lemma_plans_up_to(plans, files, music_dir, dry_run, kind, counted, upto - 1);
        lemma_operations_with(plans, upto - 1);
        assert(album_keys(files).take(upto).drop_last() =~= album_keys(files).take(upto - 1));
        assert(operations_view(plans[upto - 1].operations@).len() == album_files(
            files,
            album_keys(files)[upto - 1],
        ).len());
    } else {
        assert(plans.take(0) =~= Seq::<AlbumPlan>::empty());
    }
}

/// Plans hold one operation for each file: as many operations as there
/// were files to plan for.
pub proof fn law_plans_hold_every_file(
    plans: Seq<AlbumPlan>,
    files: Seq<FileEntryView>,
    music_dir: Seq<char>,
    dry_run: bool,
    kind: TransferKind,
    counted: bool,
)
    requires
        is_plan(plans, files, music_dir, dry_run, kind, counted),
    ensures
        all_operations(plans).len() == files.len(),
{
    lemma_plans_up_to(plans, files, music_dir, dry_run, kind, counted, plans.len() as int);
    assert(plans.take(plans.len() as int) =~= plans);
    assert(album_keys(files).take(plans.len() as int) =~= album_keys(files));
    law_albums_hold_every_file(files);
}

/// How many files groups have between them.
pub open spec fn grouped_count(groups: Seq<AlbumGroup>) -> nat
    decreases groups.len(),
{
    if groups.len() == 0 {
        0
    } else {
        grouped_count(groups.drop_last()) + groups.last().files@.len()
    }
}

/// A pair is among the album keys exactly when a file goes under it.
proof fn lemma_album_keys_hold(files: Seq<FileEntryView>, key: (Seq<char>, Seq<char>))
    ensures
        album_keys(files).contains(key) <==> exists|i: int|
            0 <= i < files.len() && (#[trigger] files[i]).key() == key,
    decreases files.len(),
{
    if files.len() > 0 {
        let front = files.drop_last();
        let before = album_keys(front);
        let last = files.last().key();
        lemma_album_keys_hold(front, key);
        lemma_album_keys_hold(front, last);
        if album_keys(files).contains(key) {
            let at = choose|at: int| 0 <= at < album_keys(files).len() && album_keys(files)[at] == key;
            if at < before.len() {
                assert(before[at] == key);
                let i = choose|i: int| 0 <= i < front.len() && (#[trigger] front[i]).key() == key;
                assert(files[i].key() == key);
            } else {
                assert(files[files.len() - 1].key() == key);
            }
        }
        if exists|i: int| 0 <= i < files.len() && (#[trigger] files[i]).key() == key {
            let i = choose|i: int| 0 <= i < files.len() && (#[trigger] files[i]).key() == key;
            if i < front.len() {
                assert(front[i].key() == key);
                let at = choose|at: int| 0 <= at < before.len() && before[at] == key;
                assert(album_keys(files)[at] == key);
            } else if before.contains(last) {
                assert(album_keys(files) == before);
            } else {
                assert(album_keys(files)[before.len() as int] == key);
            }
        }
    }
}

/// The files under keys are those under the keys without one of them, and
/// those of that one.
proof fn lemma_files_under_remove(
    files: Seq<FileEntryView>,
    keys: Seq<(Seq<char>, Seq<char>)>,
    at: int,
)
    requires
        0 <= at < keys.len(),
    ensures
        files_under(files, keys) == files_under(files, keys.remove(at)) + album_files(
            files,
            keys[at],
        ).len(),
    decreases keys.len(),
{
    if at == keys.len() - 1 {
        assert(keys.remove(at) =~= keys.drop_last());
    } else {
        lemma_files_under_remove(files, keys.drop_last(), at);
        assert(keys.remove(at).drop_last() =~= keys.drop_last().remove(at));
        assert(keys.remove(at).last() == keys.last());
    }
}

/// Whether there is a group for the pair.
pub open spec fn has_group(groups: Seq<AlbumGroup>, key: (Seq<char>, Seq<char>)) -> bool {
    exists|i: int| 0 <= i < groups.len() && (#[trigger] groups[i]).key() == key
}

/// Groups and keys that name the same albums, each once, have the same
/// files between them, in whatever order the groups come.
proof fn lemma_groups_under_keys(
    groups: Seq<AlbumGroup>,
    files: Seq<FileEntryView>,
    keys: Seq<(Seq<char>, Seq<char>)>,
)
    requires
        keys.no_duplicates(),
        forall|i: int, j: int|
            0 <= i < j < groups.len() ==> (#[trigger] groups[i]).key() != (#[trigger] groups[j]).key(),
        forall|i: int| 0 <= i < groups.len() ==> keys.contains((#[trigger] groups[i]).key()),
        forall|j: int| 0 <= j < keys.len() ==> has_group(groups, #[trigger] keys[j]),
        forall|i: int|
            0 <= i < groups.len() ==> (#[trigger] groups[i]).files@.len() == album_files(
                files,
                groups[i].key(),
            ).len(),
    ensures
        grouped_count(groups) == files_under(files, keys),
    decreases groups.len(),
{
    if groups.len() == 0 {
        if keys.len() > 0 {
            assert(has_group(groups, keys[0]));
        }
    } else {
        let front = groups.drop_last();
        let last = groups.last();
        assert(keys.contains(groups[groups.len() - 1].key()));
        let at = choose|at: int| 0 <= at < keys.len() && keys[at] == last.key();
        let rest = keys.remove(at);
        assert forall|i: int| 0 <= i < front.len() implies rest.contains(
            (#[trigger] front[i]).key(),
        ) by {
            assert(front[i] == groups[i]);
            assert(keys.contains(groups[i].key()));
            let q = choose|q: int| 0 <= q < keys.len() && keys[q] == groups[i].key();
            assert(groups[i].key() != groups[groups.len() - 1].key());
            if q < at {
                assert(rest[q] == keys[q]);
            } else {
                assert(rest[q - 1] == keys[q]);
            }
        }
        assert forall|j: int| 0 <= j < rest.len() implies has_group(front, #[trigger] rest[j]) by {
            let q = if j < at {
                j
            } else {
                j + 1
            };
            assert(rest[j] == keys[q]);
            assert(has_group(groups, keys[q]));
            let i = choose|i: int| 0 <= i < groups.len() && (#[trigger] groups[i]).key() == keys[q];
            assert(keys[q] != keys[at]);
            assert(front[i].key() == rest[j]);
        }
        assert(rest.no_duplicates()) by {
            assert forall|a: int, b: int| 0 <= a < rest.len() && 0 <= b < rest.len() && a != b implies rest[a]
                != rest[b] by {
                let qa = if a < at {
                    a
                } else {
                    a + 1
                };
                let qb = if b < at {
                    b
                } else {
                    b + 1
                };
                assert(rest[a] == keys[qa] && rest[b] == keys[qb]);
            }
        }
        assert forall|i: int| 0 <= i < front.len() implies (#[trigger] front[i]).files@.len()
            == album_files(files, front[i].key()).len() by {
            assert(front[i] == groups[i]);
        }
        assert forall|i: int, j: int| 0 <= i < j < front.len() implies (#[trigger] front[i]).key()
            != (#[trigger] front[j]).key() by {
            assert(front[i] == groups[i] && front[j] == groups[j]);
        }
        lemma_groups_under_keys(front, files, rest);
        lemma_files_under_remove(files, keys, at);
        assert(groups[groups.len() - 1].files@.len() == album_files(files, last.key()).len());
    }
}

/// Groups that list the albums of files have all the files between them,
/// each once, in whatever order the groups come.
pub proof fn law_groups_hold_every_file(groups: Seq<AlbumGroup>, files: Seq<FileEntryView>)
    requires
        lists_contents(groups, album_map(files)),
    ensures
        grouped_count(groups) == files.len(),
{
    let keys = album_keys(files);
    lemma_album_keys_distinct(files);
    assert forall|i: int| 0 <= i < groups.len() implies keys.contains((#[trigger] groups[i]).key())
        && groups[i].files@.len() == album_files(files, groups[i].key()).len() by {
        law_index_holds_every_file(files, groups[i].key());
        lemma_album_keys_hold(files, groups[i].key());
        assert(lines_view(groups[i].files@).len() == groups[i].files@.len());
    }
    assert forall|j: int| 0 <= j < keys.len() implies has_group(groups, #[trigger] keys[j]) by {
        assert(keys.contains(keys[j]));
        lemma_album_keys_hold(files, keys[j]);
        law_index_holds_every_file(files, keys[j]);
    }
    lemma_groups_under_keys(groups, files, keys);
    law_albums_hold_every_file(files);
}

proof fn lemma_group_plans_up_to(
    plans: Seq<AlbumPlan>,
    groups: Seq<AlbumGroup>,
    music_dir: Seq<char>,
    dry_run: bool,
    kind: TransferKind,
    counted: bool,
    upto: int,
)
    requires
        is_plan_of_groups(plans, groups, music_dir, dry_run, kind, counted),
        0 <= upto <= plans.len(),
    ensures
        all_operations(plans.take(upto)).len() == grouped_count(groups.take(upto)),
    decreases upto,
{
    if upto > 0 {
        lemma_group_plans_up_to(plans, groups, music_dir, dry_run, kind, counted, upto - 1);
        lemma_operations_with(plans, upto - 1);
        assert(groups.take(upto).drop_last() =~= groups.take(upto - 1));
        assert(operations_view(plans[upto - 1].operations@).len() == lines_view(
            groups[upto - 1].files@,
        ).len());
    } else {
        assert(plans.take(0) =~= Seq::<AlbumPlan>::empty());
    }
}

/// Plans for groups hold one operation for each file of the groups.
pub proof fn law_group_plans_hold_every_file(
    plans: Seq<AlbumPlan>,
    groups: Seq<AlbumGroup>,
    music_dir: Seq<char>,
    dry_run: bool,
    kind: TransferKind,
    counted: bool,
)
    requires
        is_plan_of_groups(plans, groups, music_dir, dry_run, kind, counted),
    ensures
        all_operations(plans).len() == grouped_count(groups),
{
    lemma_group_plans_up_to(plans, groups, music_dir, dry_run, kind, counted, plans.len() as int);
    assert(plans.take(plans.len() as int) =~= plans);
    assert(groups.take(plans.len() as int) =~= groups);
}

/// The tally of plans under what came of each of their operations, in the
/// order of the plans: the directories that count as created, the files that
/// went through as processed, and the others as skipped.
pub open spec fn tallied(plans: Seq<AlbumPlan>, outcomes: Seq<TransferOutcome>) -> FileOrganizationResult {
    let marks = verdicts(all_operations(plans), outcomes);
    FileOrganizationResult {
        files_processed: processed_count(marks) as usize,
        directories_created: plans.filter(|p: AlbumPlan| p.counted).len() as usize,
        files_skipped: skipped_count(marks) as usize,
    }
}

/// The tally of a run over plans, from what came of each operation in the
/// order of the plans. There is none unless there is one outcome for each
/// operation. Every operation is counted once, so where the plans are those
/// for some files, processed and skipped files together are all of them.
pub fn tally(plans: &Vec<AlbumPlan>, outcomes: &Vec<TransferOutcome>) -> (r: Option<
    FileOrganizationResult,
>)
    ensures
        outcomes@.len() != all_operations(plans@).len() ==> r is None,
        outcomes@.len() == all_operations(plans@).len() ==> r == Some(tallied(plans@, outcomes@)),
        r matches Some(counts) ==> counts.files_processed + counts.files_skipped
            == all_operations(plans@).len() && counts.directories_created <= plans@.len(),
{
    let mut result = begin_tally(plans);
    let total = outcomes.len();
    proof {
        plans@.lemma_filter_len(|p: AlbumPlan| p.counted);
    }
    let ghost all = all_operations(plans@);
    let ghost marks = verdicts(all, outcomes@);
    let ghost yes = |v: bool| v;
    let ghost no = |v: bool| !v;
    let mut at: usize = 0;
    let mut i: usize = 0;
    proof {
        reveal(Seq::filter);
        assert(plans@.take(0) =~= Seq::<AlbumPlan>::empty());
        assert(marks.take(0).filter(yes) =~= Seq::<bool>::empty());
        assert(marks.take(0).filter(no) =~= Seq::<bool>::empty());
    }
    while i < plans.len()
        invariant
            i <= plans.len(),
            all == all_operations(plans@),
            marks == verdicts(all, outcomes@),
            total == outcomes@.len(),
            yes == (|v: bool| v),
            no == (|v: bool| !v),
            at == all_operations(plans@.take(i as int)).len(),
            at <= all.len(),
            at <= total,
            result.directories_created == plans@.filter(|p: AlbumPlan| p.counted).len(),
            result.files_processed == marks.take(at as int).filter(yes).len(),
            result.files_skipped == marks.take(at as int).filter(no).len(),
            result.files_processed + result.files_skipped == at,
        decreases plans.len() - i,
    {
        let operations = &plans[i].operations;
        let ghost base = at;
        let mut j: usize = 0;
        proof {
            lemma_operations_with(plans@, i as int);
        }
        while j < operations.len()
            invariant
                i < plans.len(),
                operations == &plans@[i as int].operations,
                j <= operations.len(),
                all == all_operations(plans@),
                marks == verdicts(all, outcomes@),
                total == outcomes@.len(),
                yes == (|v: bool| v),
                no == (|v: bool| !v),
                base == all_operations(plans@.take(i as int)).len(),
                at == base + j,
                at <= all.len(),
                at <= total,
                result.directories_created == plans@.filter(|p: AlbumPlan| p.counted).len(),
                result.files_processed == marks.take(at as int).filter(yes).len(),
                result.files_skipped == marks.take(at as int).filter(no).len(),
                result.files_processed + result.files_skipped == at,
            decreases operations.len() - j,
        {
            proof {
                lemma_operation_at(plans@, i as int, j as int);
            }
            if at >= total {
                return None;
            }
            proof {
                assert(marks.take(at + 1) =~= marks.take(at as int).push(marks[at as int]));
                marks.take(at as int).lemma_filter_push(marks[at as int], yes);
                marks.take(at as int).lemma_filter_push(marks[at as int], no);
            }
            result.record_operation(&operations[j], outcomes[at]);
            at += 1;
            j += 1;
        }
        i += 1;
    }
    proof {
        assert(plans@.take(plans@.len() as int) =~= plans@);
        assert(marks.take(marks.len() as int) =~= marks);
    }
    if at == total {
        Some(result)
    } else {
        None
    }
}

} // verus!
