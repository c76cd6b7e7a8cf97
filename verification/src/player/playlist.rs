//! Playlist: a queue of files and navigation within it.

use std::path::PathBuf;
use vstd::prelude::*;

verus! {

/// `std::path::PathBuf`, carried through the playlist as an opaque value.
#[verifier::external_type_specification]
#[verifier::external_body]
pub struct ExPathBuf(PathBuf);

/// `PathBuf::clone`: an equal path.
#[verifier::external_body]
pub(crate) fn copy_path(p: &PathBuf) -> (r: PathBuf)
    ensures
        r == *p,
{
    p.clone()
}

/// Abstract state of a playlist: its files in order and the selected one.
pub ghost struct PlaylistModel {
    pub items: Seq<PathBuf>,
    pub index: Option<nat>,
}

/// The selection, if any, names an existing entry.
pub open spec fn model_wf(m: PlaylistModel) -> bool {
    m.index matches Some(i) ==> i < m.items.len()
}

/// The selected file.
pub open spec fn model_current(m: PlaylistModel) -> Option<PathBuf> {
    match m.index {
        Some(i) => Some(m.items[i as int]),
        None => None,
    }
}

/// Position `next` moves to: the first entry when nothing is selected yet,
/// otherwise the entry after the selected one.
pub open spec fn next_position(m: PlaylistModel) -> nat {
    match m.index {
        Some(i) => i + 1,
        None => 0,
    }
}

/// State after `next`: it advances when there is a following entry and
/// stays put at the end of the list (no wrap-around).
pub open spec fn model_next(m: PlaylistModel) -> PlaylistModel {
    if next_position(m) < m.items.len() {
        PlaylistModel { index: Some(next_position(m)), ..m }
    } else {
        m
    }
}

/// What `next` returns: the newly selected file, or nothing at the end.
pub open spec fn model_next_pick(m: PlaylistModel) -> Option<PathBuf> {
    if next_position(m) < m.items.len() {
        Some(m.items[next_position(m) as int])
    } else {
        None
    }
}

/// State after `prev`: it steps back unless at the start or unselected.
pub open spec fn model_prev(m: PlaylistModel) -> PlaylistModel {
    match m.index {
        Some(i) => if i > 0 {
            PlaylistModel { index: Some((i - 1) as nat), ..m }
        } else {
            m
        },
        None => m,
    }
}

/// What `prev` returns: the newly selected file, or nothing.
pub open spec fn model_prev_pick(m: PlaylistModel) -> Option<PathBuf> {
    match m.index {
        Some(i) => if i > 0 {
            Some(m.items[i - 1])
        } else {
            None
        },
        None => None,
    }
}

/// State after `select(index)`: only an existing entry can be selected.
pub open spec fn model_select(m: PlaylistModel, index: nat) -> PlaylistModel {
    if index < m.items.len() {
        PlaylistModel { index: Some(index), ..m }
    } else {
        m
    }
}

/// What `select(index)` returns.
pub open spec fn model_select_pick(m: PlaylistModel, index: nat) -> Option<PathBuf> {
    if index < m.items.len() {
        Some(m.items[index as int])
    } else {
        None
    }
}

/// Linear playlist (no shuffle or repeat modes).
#[derive(Debug)]
pub struct Playlist {
    items: Vec<PathBuf>,
    index: Option<usize>,
}

impl View for Playlist {
    type V = PlaylistModel;

    open spec fn view(&self) -> PlaylistModel {
        self.model()
    }
}

/// Picks out the file a navigation call returned.
pub open spec fn picked(r: Option<&PathBuf>) -> Option<PathBuf> {
    match r {
        Some(p) => Some(*p),
        None => None,
    }
}

impl Playlist {
    /// The selection, if any, names an existing entry.
    #[verifier::type_invariant]
    spec fn selection_in_range(self) -> bool {
        match self.index {
            Some(i) => i < self.items.len(),
            None => true,
        }
    }

    /// Abstract state.
    pub closed spec fn model(&self) -> PlaylistModel {
        PlaylistModel {
            items: self.items@,
            index: match self.index {
                Some(i) => Some(i as nat),
                None => None,
            },
        }
    }

    /// Appends a file (a path already present is appended again) and
    /// returns its position.
    pub fn add(&mut self, path: PathBuf) -> (pos: usize)
        ensures
            model_wf(final(self)@),
            final(self)@.items == old(self)@.items.push(path),
            final(self)@.index == old(self)@.index,
            pos == old(self)@.items.len(),
    {
        let mut taken = Playlist { items: Vec::new(), index: None };
        std::mem::swap(&mut taken, self);
        proof {
            use_type_invariant(&taken);
        }
        let Playlist { mut items, index } = taken;
        items.push(path);
        let pos = items.len() - 1;
        *self = Playlist { items, index };
        pos
    }

    /// Appends several files in order.
    pub fn add_many(&mut self, paths: Vec<PathBuf>)
        ensures
            model_wf(final(self)@),
            final(self)@.items == old(self)@.items + paths@,
            final(self)@.index == old(self)@.index,
    {
        proof {
            use_type_invariant(&*self);
        }
        let ghost start = self@.items;
        for p in it: paths
            invariant
                model_wf(self@),
                self@.items == start + it.seq().take(it.index() as int),
                self@.index == old(self)@.index,
                start == old(self)@.items,
                it.seq() == paths@,
        {
            assert(it.seq().take(it.index() + 1) =~= it.seq().take(it.index() as int).push(p));
            self.add(p);
        }
        assert(paths@.take(paths@.len() as int) =~= paths@);
    }

    /// Number of files.
    pub fn len(&self) -> (n: usize)
        ensures
            n == self@.items.len(),
            model_wf(self@),
    {
        proof {
            use_type_invariant(self);
        }
        self.items.len()
    }

    /// Whether the playlist is empty.
    pub fn is_empty(&self) -> (b: bool)
        ensures
            b == (self@.items.len() == 0),
            model_wf(self@),
    {
        proof {
            use_type_invariant(self);
        }
        self.items.len() == 0
    }

    /// The selected file, if any.
    pub fn current(&self) -> (r: Option<&PathBuf>)
        ensures
            model_wf(self@),
            picked(r) == model_current(self@),
    {
        proof {
            use_type_invariant(self);
        }
        match self.index {
            Some(i) => Some(&self.items[i]),
            None => None,
        }
    }

    /// Selects entry `index`; out-of-range requests change nothing.
    pub fn select(&mut self, index: usize) -> (r: Option<&PathBuf>)
        ensures
            model_wf(final(self)@),
            final(self)@ == model_select(old(self)@, index as nat),
            picked(r) == model_select_pick(old(self)@, index as nat),
    {
        proof {
            use_type_invariant(&*self);
        }
        if index < self.items.len() {
            self.index = Some(index);
            Some(&self.items[index])
        } else {
            None
        }
    }

    /// Moves to the next file; at the end of the list returns `None` and
    /// stays put (no wrap-around).
    pub fn next(&mut self) -> (r: Option<&PathBuf>)
        ensures
            model_wf(final(self)@),
            final(self)@ == model_next(old(self)@),
            picked(r) == model_next_pick(old(self)@),
    {
        proof {
            use_type_invariant(&*self);
        }
        let len = self.items.len();
        let next: usize = match self.index {
            Some(i) => i + 1,
            None => 0,
        };
        if next < len {
            self.index = Some(next);
            Some(&self.items[next])
        } else {
            None
        }
    }

    /// Moves to the previous file; at the start of the list (or with no
    /// selection) returns `None` and stays put.
    pub fn prev(&mut self) -> (r: Option<&PathBuf>)
        ensures
            model_wf(final(self)@),
            final(self)@ == model_prev(old(self)@),
            picked(r) == model_prev_pick(old(self)@),
    {
        proof {
            use_type_invariant(&*self);
        }
        match self.index {
            Some(i) => {
                if i > 0 {
                    self.index = Some(i - 1);
                    Some(&self.items[i - 1])
                } else {
                    None
                }
            },
            None => None,
        }
    }

    /// Empties the list and drops the selection.
    pub fn clear(&mut self)
        ensures
            model_wf(final(self)@),
            final(self)@.items == Seq::<PathBuf>::empty(),
            final(self)@.index == None::<nat>,
    {
        *self = Playlist { items: Vec::new(), index: None };
    }
}

impl Clone for Playlist {
    /// An equal playlist: the same files and the same selection.
    fn clone(&self) -> (copy: Self)
        ensures
            copy@ == self@,
    {
        proof {
            use_type_invariant(self);
        }
        let mut items: Vec<PathBuf> = Vec::new();
        let mut k: usize = 0;
        while k < self.items.len()
            invariant
                k <= self.items@.len(),
                items@ == self.items@.take(k as int),
            decreases self.items@.len() - k,
        {
            items.push(copy_path(&self.items[k]));
            k = k + 1;
            assert(items@ =~= self.items@.take(k as int));
        }
        assert(self.items@.take(self.items@.len() as int) =~= self.items@);
        Playlist { items, index: self.index }
    }
}

impl Default for Playlist {
    fn default() -> (list: Self)
        ensures
            model_wf(list@),
            list@.items == Seq::<PathBuf>::empty(),
            list@.index == None::<nat>,
    {
        Playlist { items: Vec::new(), index: None }
    }
}

/// State after `k` calls of `next`.
pub open spec fn model_next_times(m: PlaylistModel, k: nat) -> PlaylistModel
    decreases k,
{
    if k == 0 {
        m
    } else {
        model_next(model_next_times(m, (k - 1) as nat))
    }
}

/// Navigation (`next`, `prev`, `select`) never changes the files.
pub proof fn law_navigation_keeps_files(m: PlaylistModel, index: nat)
    ensures
        model_next(m).items == m.items,
        model_prev(m).items == m.items,
        model_select(m, index).items == m.items,
{
}

/// Every reachable state keeps its selection on an existing entry.
pub proof fn law_navigation_keeps_selection_valid(m: PlaylistModel, index: nat)
    requires
        model_wf(m),
    ensures
        model_wf(model_next(m)),
        model_wf(model_prev(m)),
        model_wf(model_select(m, index)),
{
}

/// `prev` undoes a `next` that moved.
pub proof fn law_prev_undoes_next(m: PlaylistModel)
    requires
        model_wf(m),
        m.index is Some,
        next_position(m) < m.items.len(),
    ensures
        model_prev(model_next(m)) == m,
        model_prev_pick(model_next(m)) == model_current(m),
{
}

/// `next` undoes a `prev` that moved.
pub proof fn law_next_undoes_prev(m: PlaylistModel)
    requires
        model_wf(m),
        m.index matches Some(i) && i > 0,
    ensures
        model_next(model_prev(m)) == m,
        model_next_pick(model_prev(m)) == model_current(m),
{
}

/// After a successful `select`, `current` is the selected entry.
pub proof fn law_select_then_current(m: PlaylistModel, index: nat)
    requires
        index < m.items.len(),
    ensures
        model_current(model_select(m, index)) == Some(m.items[index as int]),
        model_select_pick(m, index) == model_current(model_select(m, index)),
{
}

/// What `next` returns is what `current` reports afterwards.
pub proof fn law_next_pick_is_current(m: PlaylistModel)
    requires
        model_wf(m),
        next_position(m) < m.items.len(),
    ensures
        model_next_pick(m) == model_current(model_next(m)),
{
}

/// Starting with nothing selected, `k + 1` calls of `next` select entry
/// `k`, so stepping forward visits the files in order; once past the end the
/// selection stays on the last file.
pub proof fn law_next_walks_in_order(m: PlaylistModel, k: nat)
    requires
        m.index is None,
        m.items.len() > 0,
    ensures
        k < m.items.len() ==> model_next_times(m, k + 1).index == Some(k),
        k >= m.items.len() ==> model_next_times(m, k + 1).index == Some(
            (m.items.len() - 1) as nat,
        ),
        model_next_times(m, k + 1).items == m.items,
    decreases k,
{
    assert(model_next_times(m, k + 1) == model_next(model_next_times(m, k)));
    if k > 0 {
        law_next_walks_in_order(m, (k - 1) as nat);
        assert(((k - 1) as nat + 1) as nat == k);
    } else {
        assert(model_next_times(m, 0) == m);
    }
}

} // verus!
verus! {

/// Stepping back needs a selection to step back from: with nothing selected,
/// `prev` returns nothing and selects nothing, and from the first entry it
/// returns nothing and stays. It never changes the files.
pub proof fn law_prev_steps_back_from_the_selection(m: PlaylistModel)
    requires
        model_wf(m),
    ensures
        m.index is None ==> model_prev(m) == m && model_prev_pick(m) is None
            && model_current(model_prev(m)) is None,
        m.index == Some(0nat) ==> model_prev(m) == m && model_prev_pick(m) is None,
        model_prev(m).items == m.items,
{
}

/// With entry `i` (not the first) selected, `prev` selects entry `i - 1`
/// and returns that file, which `current` then reports.
pub proof fn law_prev_selects_the_entry_before(m: PlaylistModel, i: nat)
    requires
        model_wf(m),
        m.index == Some(i),
        i > 0,
    ensures
        model_prev(m).index == Some((i - 1) as nat),
        model_prev_pick(m) == Some(m.items[i - 1]),
        model_current(model_prev(m)) == model_prev_pick(m),
{
}

} // verus!
