//! The search of a folder tree for a file of a given name: depth first, each
//! folder as soon as it is met, the first match ending the search. The
//! caller lists each folder the search asks for.
use vstd::prelude::*;
use crate::text::{eq_ignore_ascii_case, equal_ignoring_ascii_case};

verus! {

/// What to do with one entry of a folder searched for a file.
#[derive(Clone, Copy, Debug, PartialEq, Eq, Structural)]
pub enum EntryVerdict {
    /// This is the file sought.
    Found,
    /// Search this folder too.
    Descend,
    /// Go on with the next entry.
    Skip,
}

/// The verdict on an entry: a file whose name equals the name sought, ASCII
/// case aside, is it; any other folder is searched; anything else is passed over.
pub open spec fn entry_verdict_of(
    is_file: bool,
    is_dir: bool,
    name: Option<Seq<char>>,
    sought: Seq<char>,
) -> EntryVerdict {
    if is_file && name is Some && equal_ignoring_ascii_case(name.unwrap(), sought) {
        EntryVerdict::Found
    } else if is_dir {
        EntryVerdict::Descend
    } else {
        EntryVerdict::Skip
    }
}

/// What to do with one entry of a folder searched for the file named `sought`.
pub fn entry_verdict(is_file: bool, is_dir: bool, name: Option<&str>, sought: &str) -> (verdict:
    EntryVerdict)
    ensures
        verdict == entry_verdict_of(
            is_file,
            is_dir,
            match name {
                Some(n) => Some(n@),
                None => None,
            },
            sought@,
        ),
{
    if is_file {
        if let Some(n) = name {
            if eq_ignore_ascii_case(n, sought) {
                return EntryVerdict::Found;
            }
        }
    }
    if is_dir {
        EntryVerdict::Descend
    } else {
        EntryVerdict::Skip
    }
}


/// One entry of a folder listing.
pub struct DirEntryInfo {
    pub path: String,
    pub is_file: bool,
    pub is_dir: bool,
    /// The entry's file name, where it has one.
    pub name: Option<String>,
}

/// The view of a [`DirEntryInfo`].
pub struct DirEntryView {
    pub path: Seq<char>,
    pub is_file: bool,
    pub is_dir: bool,
    pub name: Option<Seq<char>>,
}

impl View for DirEntryInfo {
    type V = DirEntryView;

    open spec fn view(&self) -> DirEntryView {
        DirEntryView {
            path: self.path@,
            is_file: self.is_file,
            is_dir: self.is_dir,
            name: match self.name {
                Some(n) => Some(n@),
                None => None,
            },
        }
    }
}

/// What the caller does next.
pub enum SearchAction {
    /// List this folder and report its entries (none where it cannot be read).
    ReadDir(String),
    /// The file sought is at this path.
    Found(String),
    /// The file is nowhere in the tree.
    NotFound,
}

/// The view of a [`SearchAction`].
pub enum SearchActionView {
    ReadDir(Seq<char>),
    Found(Seq<char>),
    NotFound,
}

impl View for SearchAction {
    type V = SearchActionView;

    open spec fn view(&self) -> SearchActionView {
        match self {
            SearchAction::ReadDir(p) => SearchActionView::ReadDir(p@),
            SearchAction::Found(p) => SearchActionView::Found(p@),
            SearchAction::NotFound => SearchActionView::NotFound,
        }
    }
}

/// A folder being searched: its entries, and how many have been looked at.
pub type Frame = (Seq<DirEntryView>, int);

/// The folders being searched, the innermost last.
pub open spec fn frame_views(frames: Seq<(Vec<DirEntryInfo>, usize)>) -> Seq<Frame> {
    frames.map_values(
        |f: (Vec<DirEntryInfo>, usize)| (f.0@.map_values(|e: DirEntryInfo| e@), f.1 as int),
    )
}

/// Goes on with the search from `frames`: looks at the next entry of the
/// innermost folder; a match ends the search, a folder is listed at once, and
/// anything else is passed over; a folder whose entries are used up is left
/// for the one around it; when none is left, the file is nowhere.
pub open spec fn scan(frames: Seq<Frame>, sought: Seq<char>) -> (Seq<Frame>, SearchActionView)
    decreases frames.len(), (if frames.len() > 0 {
        frames.last().0.len() - frames.last().1
    } else {
        0
    }),
    when forall|i: int| 0 <= i < frames.len() ==> 0 <= #[trigger] frames[i].1 <= frames[i].0.len()
{
    if frames.len() == 0 {
        (frames, SearchActionView::NotFound)
    } else {
        let (entries, looked) = frames.last();
        if looked >= entries.len() {
            scan(frames.drop_last(), sought)
        } else {
            let e = entries[looked];
            let rest = frames.drop_last().push((entries, looked + 1));
            match entry_verdict_of(e.is_file, e.is_dir, e.name, sought) {
                EntryVerdict::Found => (rest, SearchActionView::Found(e.path)),
                EntryVerdict::Descend => (rest, SearchActionView::ReadDir(e.path)),
                EntryVerdict::Skip => scan(rest, sought),
            }
        }
    }
}

/// Whether every folder's count of looked-at entries is within its entries.
pub open spec fn frames_wf(frames: Seq<Frame>) -> bool {
    forall|i: int| 0 <= i < frames.len() ==> 0 <= #[trigger] frames[i].1 <= frames[i].0.len()
}

/// A search for a file of a given name.
pub struct FileSearch {
    sought: String,
    frames: Vec<(Vec<DirEntryInfo>, usize)>,
    over: bool,
}

impl FileSearch {
    /// The name sought.
    pub closed spec fn sought(&self) -> Seq<char> {
        self.sought@
    }

    /// The folders being searched, the innermost last.
    pub closed spec fn frames(&self) -> Seq<Frame> {
        frame_views(self.frames@)
    }

    /// Whether the search has ended.
    pub closed spec fn is_over(&self) -> bool {
        self.over
    }

    /// The search's invariant.
    pub closed spec fn wf(&self) -> bool {
        frames_wf(self.frames())
    }

    /// A search for `sought`; the caller lists the top folder first.
    pub fn new(sought: &str) -> (search: Self)
        ensures
            search.wf(),
            !search.is_over(),
            search.sought() == sought@,
            search.frames() == Seq::<Frame>::empty(),
    {
        let search = FileSearch { sought: String::from_str(sought), frames: Vec::new(), over: false };
        assert(frame_views(search.frames@) =~= Seq::<Frame>::empty());
        search
    }

    /// Takes the listing of the folder last asked for (`None` where it could
    /// not be read) and says what to do next.
    pub fn step(&mut self, listing: Option<Vec<DirEntryInfo>>) -> (action: SearchAction)
        requires
            old(self).wf(),
            !old(self).is_over(),
        ensures
            final(self).wf(),
            final(self).sought() == old(self).sought(),
            final(self).is_over() == !(action is ReadDir),
            (final(self).frames(), action@) == scan(
                match listing {
                    Some(entries) => old(self).frames().push(
                        (entries@.map_values(|e: DirEntryInfo| e@), 0int),
                    ),
                    None => old(self).frames(),
                },
                old(self).sought(),
            ),
    {
        let ghost start = match &listing {
            Some(entries) => self.frames().push((entries@.map_values(|e: DirEntryInfo| e@), 0int)),
            None => self.frames(),
        };
        if let Some(entries) = listing {
            let ghost before = self.frames@;
            self.frames.push((entries, 0));
            assert(frame_views(self.frames@) =~= start);
        }
        loop
            invariant
                frames_wf(frame_views(self.frames@)),
                scan(frame_views(self.frames@), self.sought@) == scan(start, old(self).sought()),
                self.sought@ == old(self).sought(),
                !self.over,
                start == match listing {
                    Some(entries) => old(self).frames().push(
                        (entries@.map_values(|e: DirEntryInfo| e@), 0int),
                    ),
                    None => old(self).frames(),
                },
            decreases self.frames@.len(), (if self.frames@.len() > 0 {
                self.frames@.last().0@.len() - self.frames@.last().1
            } else {
                0
            }),
        {
            let ghost fv = frame_views(self.frames@);
            match self.frames.pop() {
                None => {
                    assert(fv.len() == 0);
                    assert(scan(fv, self.sought@) == (fv, SearchActionView::NotFound));
                    self.over = true;
                    return SearchAction::NotFound;
                },
                Some((entries, looked)) => {
                    assert(fv.drop_last() =~= frame_views(self.frames@));
                    assert(fv.last() == (entries@.map_values(|e: DirEntryInfo| e@), looked as int));
                    if looked >= entries.len() {
                        assert(scan(fv, self.sought@) == scan(fv.drop_last(), self.sought@));
                        continue;
                    }
                    let ghost ev = fv.last().0[looked as int];
                    assert(ev == entries@[looked as int]@);
                    let e = &entries[looked];
                    let name = match &e.name {
                        Some(n) => Some(n.as_str()),
                        None => None,
                    };
                    let verdict = entry_verdict(e.is_file, e.is_dir, name, self.sought.as_str());
                    let path = e.path.clone();
                    self.frames.push((entries, looked + 1));
                    assert(frame_views(self.frames@) =~= fv.drop_last().push(
                        (fv.last().0, fv.last().1 + 1),
                    ));
                    let ghost next = frame_views(self.frames@);
                    assert(verdict == entry_verdict_of(ev.is_file, ev.is_dir, ev.name, self.sought@));
                    assert(path@ == ev.path);
                    assert(frames_wf(next));
                    match verdict {
                        EntryVerdict::Found => {
                            assert(scan(fv, self.sought@) == (next, SearchActionView::Found(ev.path)));
                            self.over = true;
                            return SearchAction::Found(path);
                        },
                        EntryVerdict::Descend => {
                            assert(scan(fv, self.sought@) == (next, SearchActionView::ReadDir(ev.path)));
                            return SearchAction::ReadDir(path);
                        },
                        EntryVerdict::Skip => {
                            assert(scan(fv, self.sought@) == scan(next, self.sought@));
                        },
                    }
                },
            }
        }
    }
}

/// Whether some listed entry has path `p` and gets the verdict `v`.
pub open spec fn lists_entry(frames: Seq<Frame>, p: Seq<char>, v: EntryVerdict, sought: Seq<char>) -> bool {
    exists|i: int, j: int|
        0 <= i < frames.len() && 0 <= j < frames[i].0.len() && (#[trigger] frames[i].0[j]).path == p
            && entry_verdict_of(frames[i].0[j].is_file, frames[i].0[j].is_dir, frames[i].0[j].name, sought)
            == v
}

/// The search reports only what was listed: a file found is a listed file
/// whose name matches the name sought; a folder to list next is a listed
/// folder that is not the match; and the file is reported missing only once
/// every listed entry has been looked at.
pub proof fn law_search_reports_listed_entries(frames: Seq<Frame>, sought: Seq<char>)
    requires
        frames_wf(frames),
    ensures
        frames_wf(scan(frames, sought).0),
        scan(frames, sought).1 matches SearchActionView::Found(p) ==> lists_entry(
            frames,
            p,
            EntryVerdict::Found,
            sought,
        ),
        scan(frames, sought).1 matches SearchActionView::ReadDir(p) ==> lists_entry(
            frames,
            p,
            EntryVerdict::Descend,
            sought,
        ),
        scan(frames, sought).1 is NotFound ==> scan(frames, sought).0.len() == 0,
    decreases frames.len(), (if frames.len() > 0 {
        frames.last().0.len() - frames.last().1
    } else {
        0
    }),
{
    if frames.len() > 0 {
        let (entries, looked) = frames.last();
        let n = frames.len() - 1;
        if looked >= entries.len() {
            let shorter = frames.drop_last();
            assert(frames_wf(shorter));
            law_search_reports_listed_entries(shorter, sought);
            let r = scan(shorter, sought);
            if let SearchActionView::Found(p) = r.1 {
                let (i, j) = choose|i: int, j: int|
                    0 <= i < shorter.len() && 0 <= j < shorter[i].0.len() && (#[trigger] shorter[i].0[j]).path == p
                        && entry_verdict_of(shorter[i].0[j].is_file, shorter[i].0[j].is_dir, shorter[i].0[j].name, sought)
                        == EntryVerdict::Found;
                assert(frames[i] == shorter[i]);
                assert(frames[i].0[j].path == p);
            }
            if let SearchActionView::ReadDir(p) = r.1 {
                let (i, j) = choose|i: int, j: int|
                    0 <= i < shorter.len() && 0 <= j < shorter[i].0.len() && (#[trigger] shorter[i].0[j]).path == p
                        && entry_verdict_of(shorter[i].0[j].is_file, shorter[i].0[j].is_dir, shorter[i].0[j].name, sought)
                        == EntryVerdict::Descend;
                assert(frames[i] == shorter[i]);
                assert(frames[i].0[j].path == p);
            }
        } else {
            let e = entries[looked];
            let rest = frames.drop_last().push((entries, looked + 1));
            assert(frames_wf(rest)) by {
                assert forall|i: int| 0 <= i < rest.len() implies 0 <= #[trigger] rest[i].1 <= rest[i].0.len() by {
                    if i < n {
                        assert(rest[i] == frames[i]);
                    }
                }
            }
            assert(frames[n].0[looked] == e);
            match entry_verdict_of(e.is_file, e.is_dir, e.name, sought) {
                EntryVerdict::Skip => {
                    law_search_reports_listed_entries(rest, sought);
                    let r = scan(rest, sought);
                    if let SearchActionView::Found(p) = r.1 {
                        let (i, j) = choose|i: int, j: int|
                            0 <= i < rest.len() && 0 <= j < rest[i].0.len() && (#[trigger] rest[i].0[j]).path == p
                                && entry_verdict_of(rest[i].0[j].is_file, rest[i].0[j].is_dir, rest[i].0[j].name, sought)
                                == EntryVerdict::Found;
                        assert(rest[i].0 == frames[i].0);
                        assert(frames[i].0[j].path == p);
                    }
                    if let SearchActionView::ReadDir(p) = r.1 {
                        let (i, j) = choose|i: int, j: int|
                            0 <= i < rest.len() && 0 <= j < rest[i].0.len() && (#[trigger] rest[i].0[j]).path == p
                                && entry_verdict_of(rest[i].0[j].is_file, rest[i].0[j].is_dir, rest[i].0[j].name, sought)
                                == EntryVerdict::Descend;
                        assert(rest[i].0 == frames[i].0);
                        assert(frames[i].0[j].path == p);
                    }
                },
                _ => {},
            }
        }
    }
}

/// The entries not looked at yet, in the order a depth-first search meets
/// them: the rest of the innermost folder first, then the rest of the folder
/// around it, and so on out.
pub open spec fn pending(frames: Seq<Frame>) -> Seq<DirEntryView>
    decreases frames.len(),
{
    if frames.len() == 0 {
        seq![]
    } else {
        frames.last().0.skip(frames.last().1) + pending(frames.drop_last())
    }
}

/// The verdict on a listed entry.
pub open spec fn verdict_on(e: DirEntryView, sought: Seq<char>) -> EntryVerdict {
    entry_verdict_of(e.is_file, e.is_dir, e.name, sought)
}

/// Whether every entry of `entries` before position `n` is neither the file
/// nor a folder.
pub open spec fn only_skips_before(entries: Seq<DirEntryView>, n: int, sought: Seq<char>) -> bool {
    forall|k: int| 0 <= k < n ==> verdict_on(#[trigger] entries[k], sought) == EntryVerdict::Skip
}

/// Whether `action`, with `left` as the folders still open, is the right
/// answer to the pending entries `before`: the first entry that is a match
/// ends the search with its path, the first that is a folder is listed next,
/// the entries after it stay pending; and the file is missing only when no
/// pending entry is either.
pub open spec fn answers(
    before: Seq<DirEntryView>,
    left: Seq<Frame>,
    action: SearchActionView,
    sought: Seq<char>,
) -> bool {
    match action {
        SearchActionView::NotFound => left.len() == 0 && only_skips_before(
            before,
            before.len() as int,
            sought,
        ),
        SearchActionView::Found(p) => exists|n: int|
            0 <= n < before.len() && only_skips_before(before, n, sought) && (#[trigger] before[n]).path
                == p && verdict_on(before[n], sought) == EntryVerdict::Found && pending(left)
                == before.skip(n + 1),
        SearchActionView::ReadDir(p) => exists|n: int|
            0 <= n < before.len() && only_skips_before(before, n, sought) && (#[trigger] before[n]).path
                == p && verdict_on(before[n], sought) == EntryVerdict::Descend && pending(left)
                == before.skip(n + 1),
    }
}

proof fn lemma_answers_after_skip(
    e: DirEntryView,
    after: Seq<DirEntryView>,
    left: Seq<Frame>,
    action: SearchActionView,
    sought: Seq<char>,
)
    requires
        verdict_on(e, sought) == EntryVerdict::Skip,
        answers(after, left, action, sought),
    ensures
        answers(seq![e] + after, left, action, sought),
{
    let before = seq![e] + after;
    assert forall|k: int| 1 <= k < before.len() implies #[trigger] before[k] == after[k - 1] by {}
    assert(before[0] == e);
    match action {
        SearchActionView::NotFound => {
            assert forall|k: int| 0 <= k < before.len() implies verdict_on(
                #[trigger] before[k],
                sought,
            ) == EntryVerdict::Skip by {
                if k > 0 {
                    assert(before[k] == after[k - 1]);
                }
            }
        },
        SearchActionView::Found(p) => {
            let n = choose|n: int|
                0 <= n < after.len() && only_skips_before(after, n, sought) && (#[trigger] after[n]).path
                    == p && verdict_on(after[n], sought) == EntryVerdict::Found && pending(left)
                    == after.skip(n + 1);
            assert(before[n + 1] == after[n]);
            assert forall|k: int| 0 <= k < n + 1 implies verdict_on(#[trigger] before[k], sought)
                == EntryVerdict::Skip by {
                if k > 0 {
                    assert(before[k] == after[k - 1]);
                }
            }
            assert(after.skip(n + 1) =~= before.skip(n + 2));
        },
        SearchActionView::ReadDir(p) => {
            let n = choose|n: int|
                0 <= n < after.len() && only_skips_before(after, n, sought) && (#[trigger] after[n]).path
                    == p && verdict_on(after[n], sought) == EntryVerdict::Descend && pending(left)
                    == after.skip(n + 1);
            assert(before[n + 1] == after[n]);
            assert forall|k: int| 0 <= k < n + 1 implies verdict_on(#[trigger] before[k], sought)
                == EntryVerdict::Skip by {
                if k > 0 {
                    assert(before[k] == after[k - 1]);
                }
            }
            assert(after.skip(n + 1) =~= before.skip(n + 2));
        },
    }
}

proof fn lemma_pending_next(frames: Seq<Frame>)
    requires
        frames_wf(frames),
        frames.len() > 0,
    ensures
        frames_wf(frames.drop_last()),
        frames.last().1 >= frames.last().0.len() ==> pending(frames) == pending(frames.drop_last()),
        frames.last().1 < frames.last().0.len() ==> {
            let rest = frames.drop_last().push((frames.last().0, frames.last().1 + 1));
            &&& frames_wf(rest)
            &&& pending(frames) == seq![frames.last().0[frames.last().1]] + pending(rest)
        },
{
    let (entries, looked) = frames.last();
    let outer = frames.drop_last();
    assert(frames_wf(outer)) by {
        assert forall|i: int| 0 <= i < outer.len() implies 0 <= #[trigger] outer[i].1
            <= outer[i].0.len() by {
            assert(outer[i] == frames[i]);
        }
    }
    if looked >= entries.len() {
        assert(entries.skip(looked) =~= Seq::<DirEntryView>::empty());
        assert(pending(frames) =~= pending(outer));
    } else {
        let rest = outer.push((entries, looked + 1));
        assert(frames_wf(rest)) by {
            assert forall|i: int| 0 <= i < rest.len() implies 0 <= #[trigger] rest[i].1
                <= rest[i].0.len() by {
                if i < outer.len() {
                    assert(rest[i] == frames[i]);
                }
            }
        }
        assert(rest.drop_last() =~= outer);
        assert(entries.skip(looked) =~= seq![entries[looked]] + entries.skip(looked + 1));
        assert(pending(frames) =~= seq![entries[looked]] + pending(rest));
    }
}

/// The search is complete and ordered: whatever it answers is the right
/// answer to the entries still pending. No folder is ever left unsearched
/// and no match unreported, at any depth: a match or a folder is never
/// passed over, and the file is reported missing only when no pending entry
/// is either.
pub proof fn law_search_is_complete(frames: Seq<Frame>, sought: Seq<char>)
    requires
        frames_wf(frames),
    ensures
        answers(pending(frames), scan(frames, sought).0, scan(frames, sought).1, sought),
    decreases frames.len(), (if frames.len() > 0 {
        frames.last().0.len() - frames.last().1
    } else {
        0
    }),
{
    if frames.len() == 0 {
        assert(pending(frames) =~= Seq::<DirEntryView>::empty());
    } else {
        lemma_pending_next(frames);
        let (entries, looked) = frames.last();
        let outer = frames.drop_last();
        if looked >= entries.len() {
            law_search_is_complete(outer, sought);
        } else {
            let e = entries[looked];
            let rest = outer.push((entries, looked + 1));
            let before = pending(frames);
            assert(before[0] == e);
            assert(pending(rest) =~= before.skip(1));
            match verdict_on(e, sought) {
                EntryVerdict::Skip => {
                    law_search_is_complete(rest, sought);
                    lemma_answers_after_skip(
                        e,
                        pending(rest),
                        scan(rest, sought).0,
                        scan(rest, sought).1,
                        sought,
                    );
                },
                _ => {
                    assert(only_skips_before(before, 0, sought));
                },
            }
        }
    }
}

/// A folder's listing is searched before anything that was pending when
/// it was asked for: the step that takes the listing answers the listed
/// entries first, then the entries still pending from before, so every
/// subfolder's own contents are searched, however deep it lies.
pub proof fn law_listing_is_searched_first(
    frames: Seq<Frame>,
    listing: Seq<DirEntryView>,
    sought: Seq<char>,
)
    requires
        frames_wf(frames),
    ensures
        answers(
            listing + pending(frames),
            scan(frames.push((listing, 0int)), sought).0,
            scan(frames.push((listing, 0int)), sought).1,
            sought,
        ),
{
    let pushed = frames.push((listing, 0int));
    assert(frames_wf(pushed)) by {
        assert forall|i: int| 0 <= i < pushed.len() implies 0 <= #[trigger] pushed[i].1
            <= pushed[i].0.len() by {
            if i < frames.len() {
                assert(pushed[i] == frames[i]);
            }
        }
    }
    assert(pushed.drop_last() =~= frames);
    assert(listing.skip(0) =~= listing);
    assert(pending(pushed) == listing + pending(frames));
    law_search_is_complete(pushed, sought);
}

} // verus!
