//! Moving entries to a destination, with undo.

use vstd::prelude::*;
use crate::app::{App, AppView};
use crate::clipboard::paths_view;
use crate::commands::{FsOp, OpView, finish_batch, finish_batch_spec, listing_view, outcomes_view, result_view, push_quoted, quoted, resolve_spec, destination_for};
use crate::entry::FileItem;
use crate::path::{FsPath, PathView, path_text};
use crate::text::{decimal, push_decimal, push_text, string_of};

verus! {

/// Moves each source by renaming it, and remembers what moved.
pub struct MoveCommand {
    pub sources: Vec<FsPath>,
    pub destination: FsPath,
    /// Each move that happened: where the item was, where it went.
    pub moved_items: Vec<(FsPath, FsPath)>,
}

pub ghost struct MoveView {
    pub sources: Seq<PathView>,
    pub destination: PathView,
    pub moved_items: Seq<(PathView, PathView)>,
}

pub open spec fn pairs_view(s: Seq<(FsPath, FsPath)>) -> Seq<(PathView, PathView)> {
    s.map_values(|p: (FsPath, FsPath)| (p.0@, p.1@))
}

impl View for MoveCommand {
    type V = MoveView;

    open spec fn view(&self) -> MoveView {
        MoveView {
            sources: paths_view(self.sources@),
            destination: self.destination@,
            moved_items: pairs_view(self.moved_items@),
        }
    }
}

pub open spec fn move_description(c: MoveView) -> Seq<char> {
    if c.sources.len() == 1 {
        "Move "@ + quoted(path_text(c.sources[0])) + " to "@ + quoted(path_text(c.destination))
    } else {
        "Move "@ + decimal(c.sources.len()) + " items to "@ + quoted(path_text(c.destination))
    }
}

/// The moves that succeeded, in order: each source with where it landed.
pub open spec fn new_moves(
    sources: Seq<PathView>,
    dest: PathView,
    dest_is_dir: Seq<bool>,
    o: Seq<Option<Seq<char>>>,
) -> Seq<(PathView, PathView)>
    decreases o.len(),
{
    if o.len() == 0 {
        Seq::empty()
    } else {
        let before = new_moves(sources, dest, dest_is_dir, o.drop_last());
        let i = o.len() - 1;
        if o.last() is None {
            before.push((sources[i], resolve_spec(sources[i], dest, dest_is_dir[i])))
        } else {
            before
        }
    }
}

/// The operation that undoes move `i`: rename it back.
pub open spec fn move_undo_op(c: MoveView, i: int) -> OpView {
    OpView::Rename(c.moved_items[i].1, c.moved_items[i].0)
}

impl MoveCommand {
    pub fn new(sources: Vec<FsPath>, destination: FsPath) -> (r: Self)
        ensures
            r@ == (MoveView {
                sources: paths_view(sources@),
                destination: destination@,
                moved_items: Seq::empty(),
            }),
    {
        let r = MoveCommand { sources, destination, moved_items: Vec::new() };
        assert(r@.moved_items =~= Seq::empty());
        r
    }

    pub fn description(&self) -> (r: String)
        ensures
            r@ == move_description(self@),
    {
        let n = self.sources.len();
        assert(self@.sources.len() == n);
        if n == 1 {
            assert(self@.sources[0] == self.sources@[0]@);
        }
        let mut s = string_of("Move ");
        if n == 1 {
            let p = self.sources[0].to_text();
            push_quoted(&mut s, p.as_str());
            push_text(&mut s, " to ");
        } else {
            push_decimal(&mut s, n as u64);
            push_text(&mut s, " items to ");
        }
        let d = self.destination.to_text();
        push_quoted(&mut s, d.as_str());
        assert(s@ =~= move_description(self@));
        s
    }

    /// The operation for source `i`, given whether the destination is a
    /// directory at that moment: rename it to where it lands.
    pub fn operation(&self, i: usize, dest_is_dir: bool) -> (r: FsOp)
        requires
            i < self@.sources.len(),
        ensures
            r@ == OpView::Rename(
                self@.sources[i as int],
                resolve_spec(self@.sources[i as int], self@.destination, dest_is_dir),
            ),
    {
        let to = destination_for(&self.sources[i], &self.destination, dest_is_dir);
        FsOp::Rename { from: self.sources[i].duplicate(), to }
    }

    /// Takes, for each source, whether the destination was a directory and
    /// the outcome of its rename, and a fresh listing: remembers the moves
    /// that succeeded, reports `Moved N item(s)` or the failures, then
    /// refreshes the listing.
    pub fn complete(
        &mut self,
        app: &mut App,
        dest_is_dir: &Vec<bool>,
        outcomes: &Vec<Option<String>>,
        listing: Result<Vec<FileItem>, String>,
    ) -> (r: Result<(), String>)
        requires
            old(app).wf(),
            outcomes@.len() == old(self)@.sources.len(),
            dest_is_dir@.len() == old(self)@.sources.len(),
        ensures
            final(app).wf(),
            final(self)@ == (MoveView {
                moved_items: old(self)@.moved_items + new_moves(
                    old(self)@.sources,
                    old(self)@.destination,
                    dest_is_dir@,
                    outcomes_view(outcomes@),
                ),
                ..old(self)@
            }),
            (final(app)@, result_view(r)) == finish_batch_spec(
                old(app)@,
                "Moved "@,
                "Moved "@,
                old(self)@.sources,
                outcomes_view(outcomes@),
                listing_view(listing),
            ),
    {
        let ghost ov = outcomes_view(outcomes@);
        let ghost s0 = self@;
        let mut i: usize = 0;
        while i < outcomes.len()
            invariant
                i <= outcomes@.len(),
                outcomes@.len() == s0.sources.len(),
                dest_is_dir@.len() == s0.sources.len(),
                ov == outcomes_view(outcomes@),
                self.sources@ == old(self).sources@,
                self.destination@ == old(self).destination@,
                self@.sources == s0.sources,
                self@.destination == s0.destination,
                self@.moved_items == s0.moved_items + new_moves(
                    s0.sources,
                    s0.destination,
                    dest_is_dir@,
                    ov.subrange(0, i as int),
                ),
            decreases outcomes@.len() - i,
        {
            let ghost sub = ov.subrange(0, i + 1);
            assert(sub.drop_last() == ov.subrange(0, i as int));
            assert(sub.last() == ov[i as int]);
            if outcomes[i].is_none() {
                let to = destination_for(&self.sources[i], &self.destination, dest_is_dir[i]);
                let from = self.sources[i].duplicate();
                let ghost m0 = self@.moved_items;
                self.moved_items.push((from, to));
                assert(self@.moved_items =~= m0.push((s0.sources[i as int], resolve_spec(s0.sources[i as int], s0.destination, dest_is_dir@[i as int]))));
            }
            i = i + 1;
        }
        assert(ov.subrange(0, ov.len() as int) == ov);
        finish_batch(app, "Moved ", "Moved ", &self.sources, outcomes, listing)
    }

    /// The operation that undoes move `i` (`move_undo_op`).
    pub fn undo_operation(&self, i: usize) -> (r: FsOp)
        requires
            i < self@.moved_items.len(),
        ensures
            r@ == move_undo_op(self@, i as int),
    {
        let (orig, moved) = &self.moved_items[i];
        FsOp::Rename { from: moved.duplicate(), to: orig.duplicate() }
    }

    /// Takes the outcome of each move back and a fresh listing: reports
    /// `Undid move: restored N item(s)`, or `Restored N item(s), M error(s):`
    /// with each failure, then refreshes the listing.
    pub fn complete_undo(
        &self,
        app: &mut App,
        outcomes: &Vec<Option<String>>,
        listing: Result<Vec<FileItem>, String>,
    ) -> (r: Result<(), String>)
        requires
            old(app).wf(),
            outcomes@.len() == self@.moved_items.len(),
        ensures
            final(app).wf(),
            (final(app)@, result_view(r)) == finish_batch_spec(
                old(app)@,
                "Undid move: restored "@,
                "Restored "@,
                self@.moved_items.map_values(|p: (PathView, PathView)| p.1),
                outcomes_view(outcomes@),
                listing_view(listing),
            ),
    {
        let mut moved: Vec<FsPath> = Vec::new();
        let mut i: usize = 0;
        while i < self.moved_items.len()
            invariant
                i <= self@.moved_items.len(),
                moved@.len() == i,
                forall|k: int| 0 <= k < i ==> (#[trigger] moved@[k])@ == self@.moved_items[k].1,
            decreases self@.moved_items.len() - i,
        {
            moved.push(self.moved_items[i].1.duplicate());
            i = i + 1;
        }
        assert(paths_view(moved@) =~= self@.moved_items.map_values(|p: (PathView, PathView)| p.1));
        finish_batch(app, "Undid move: restored ", "Restored ", &moved, outcomes, listing)
    }
}

} // verus!

verus! {

/// Moving an entry and then undoing the move puts it back: when the move of
/// `[A]` to a destination succeeds, it remembers where `A` landed, its undo
/// renames it from there back to `A`, and on a filesystem where `A` existed
/// the content it had is at `A` again.
pub proof fn lemma_move_then_undo_restores<C>(
    c: MoveView,
    a: AppView,
    dest_is_dir: bool,
    listing: Result<Seq<crate::entry::FileItemView>, Seq<char>>,
    fs: Map<PathView, C>,
)
    requires
        c.sources.len() == 1,
        c.moved_items.len() == 0,
        fs.contains_key(c.sources[0]),
    ensures
        ({
            let src = c.sources[0];
            let landed = resolve_spec(src, c.destination, dest_is_dir);
            let done = crate::commands::complete_spec(
                crate::commands::CommandView::Move(c),
                a,
                seq![dest_is_dir],
                seq![None],
                listing,
            ).0;
            let after = MoveView { moved_items: seq![(src, landed)], ..c };
            &&& crate::commands::op_spec(crate::commands::CommandView::Move(c), 0, dest_is_dir)
                == OpView::Rename(src, landed)
            &&& done == crate::commands::CommandView::Move(after)
            &&& crate::commands::undo_count_spec(done) == 1
            &&& crate::commands::undo_op_spec(done, 0) == OpView::Rename(landed, src)
            &&& crate::commands::apply_rename(
                crate::commands::apply_rename(fs, src, landed),
                landed,
                src,
            )[src] == fs[src]
        }),
{
    let src = c.sources[0];
    let landed = resolve_spec(src, c.destination, dest_is_dir);
    let o: Seq<Option<Seq<char>>> = seq![None];
    assert(o.drop_last() =~= Seq::<Option<Seq<char>>>::empty());
    assert(o.last() is None);
    assert(o.len() == 1);
    assert(new_moves(c.sources, c.destination, seq![dest_is_dir], o.drop_last()) =~= Seq::empty());
    assert(seq![dest_is_dir][0] == dest_is_dir);
    assert(new_moves(c.sources, c.destination, seq![dest_is_dir], o) =~= seq![(src, landed)]);
    assert(c.moved_items + seq![(src, landed)] =~= seq![(src, landed)]);
    crate::commands::lemma_rename_round_trip(fs, src, landed);
}

} // verus!
