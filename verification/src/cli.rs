//! The steps of a full run and which of them a list of names leaves out.

use vstd::prelude::*;
use vstd::string::*;
use crate::text::{lines_view, unicode_lowercase};

verus! {

/// The steps of a full run, in the order they are taken.
#[derive(Clone, Copy, Debug, PartialEq, Eq, Structural)]
pub enum Step {
    SyncTags,
    ArtistArt,
    FolderIcons,
    AlbumArt,
    AlbumSymlinks,
    TrackSymlinks,
    Organize,
}

/// Whether a name, whatever its case, is among those to leave out.
pub open spec fn is_skipped(skip: Seq<Seq<char>>, name: Seq<char>) -> bool {
    exists|i: int| 0 <= i < skip.len() && unicode_lowercase(#[trigger] skip[i]) == name
}

/// Whether a step is taken. Each step is left out by its own name: `sync`,
/// `art`, `icons`, `albums`, `tracks`, `organize`. The name `art` leaves out
/// the artist images, the folder icons and the album art together.
pub open spec fn is_taken(step: Step, skip: Seq<Seq<char>>) -> bool {
    match step {
        Step::SyncTags => !is_skipped(skip, "sync"@),
        Step::ArtistArt => !is_skipped(skip, "art"@),
        Step::FolderIcons => !is_skipped(skip, "icons"@) && !is_skipped(skip, "art"@),
        Step::AlbumArt => !is_skipped(skip, "art"@),
        Step::AlbumSymlinks => !is_skipped(skip, "albums"@),
        Step::TrackSymlinks => !is_skipped(skip, "tracks"@),
        Step::Organize => !is_skipped(skip, "organize"@),
    }
}

/// All steps, in order.
pub open spec fn all_steps() -> Seq<Step> {
    seq![
        Step::SyncTags,
        Step::ArtistArt,
        Step::FolderIcons,
        Step::AlbumArt,
        Step::AlbumSymlinks,
        Step::TrackSymlinks,
        Step::Organize,
    ]
}

/// Whether a name is among names that are in lower case already.
pub fn skipped(lowered: &Vec<String>, name: &str) -> (r: bool)
    ensures
        r == exists|i: int| 0 <= i < lowered.len() && (#[trigger] lowered@[i])@ == name@,
{
    let mut i: usize = 0;
    while i < lowered.len()
        invariant
            i <= lowered.len(),
            forall|k: int| 0 <= k < i ==> (#[trigger] lowered@[k])@ != name@,
        decreases lowered.len() - i,
    {
        if lowered[i].as_str().eq(name) {
            return true;
        }
        i += 1;
    }
    false
}

/// The steps of a full run that are taken, in order.
pub fn steps_to_run(skip: &Vec<String>) -> (steps: Vec<Step>)
    ensures
        steps@ == all_steps().filter(|step: Step| is_taken(step, lines_view(skip@))),
{
    let mut lowered: Vec<String> = Vec::new();
    let mut i: usize = 0;
    while i < skip.len()
        invariant
            i <= skip.len(),
            lowered@.len() == i,
            forall|k: int| 0 <= k < i ==> (#[trigger] lowered@[k])@ == unicode_lowercase(skip@[k]@),
        decreases skip.len() - i,
    {
        lowered.push(skip[i].as_str().to_lowercase());
        i += 1;
    }
    let ghost names = lines_view(skip@);
    proof {
        assert forall|name: Seq<char>| is_skipped(names, name) <==> (exists|i: int|
            0 <= i < lowered.len() && (#[trigger] lowered@[i])@ == name) by {
            if is_skipped(names, name) {
                let i = choose|i: int| 0 <= i < names.len() && unicode_lowercase(#[trigger] names[i]) == name;
                assert(lowered@[i]@ == name);
            }
            if exists|i: int| 0 <= i < lowered.len() && (#[trigger] lowered@[i])@ == name {
                let i = choose|i: int| 0 <= i < lowered.len() && (#[trigger] lowered@[i])@ == name;
                assert(unicode_lowercase(names[i]) == name);
            }
        }
    }
    let no_sync = skipped(&lowered, "sync");
    let no_art = skipped(&lowered, "art");
    let no_icons = skipped(&lowered, "icons");
    let no_albums = skipped(&lowered, "albums");
    let no_tracks = skipped(&lowered, "tracks");
    let no_organize = skipped(&lowered, "organize");
    let mut steps: Vec<Step> = Vec::new();
    if !no_sync {
        steps.push(Step::SyncTags);
    }
    if !no_art {
        steps.push(Step::ArtistArt);
    }
    if !no_icons && !no_art {
        steps.push(Step::FolderIcons);
    }
    if !no_art {
        steps.push(Step::AlbumArt);
    }
    if !no_albums {
        steps.push(Step::AlbumSymlinks);
    }
    if !no_tracks {
        steps.push(Step::TrackSymlinks);
    }
    if !no_organize {
        steps.push(Step::Organize);
    }
    proof {
        let taken = |step: Step| is_taken(step, names);
        let all = all_steps();
        reveal(Seq::filter);
        assert(all.take(0).filter(taken) =~= Seq::<Step>::empty());
        assert(all.take(1) =~= all.take(0).push(all[0]));
        all.take(0).lemma_filter_push(all[0], taken);
        assert(all.take(2) =~= all.take(1).push(all[1]));
        all.take(1).lemma_filter_push(all[1], taken);
        assert(all.take(3) =~= all.take(2).push(all[2]));
        all.take(2).lemma_filter_push(all[2], taken);
        assert(all.take(4) =~= all.take(3).push(all[3]));
        all.take(3).lemma_filter_push(all[3], taken);
        assert(all.take(5) =~= all.take(4).push(all[4]));
        all.take(4).lemma_filter_push(all[4], taken);
        assert(all.take(6) =~= all.take(5).push(all[5]));
        all.take(5).lemma_filter_push(all[5], taken);
        assert(all.take(7) =~= all.take(6).push(all[6]));
        all.take(6).lemma_filter_push(all[6], taken);
        assert(all.take(7) =~= all);
        assert(steps@ =~= all.filter(taken));
    }
    steps
}

} // verus!
