//! The enumeration of a window tree as a machine: it names the window whose
//! children must be queried next, takes the answer, and ends with the list of
//! windows or with failure.

use crate::container::WindowContainer;
use crate::tree::{
    answer, below, descendants, ids, queried, replies, reported, row_replies, row_reported, Branch,
};
use vstd::prelude::*;

verus! {

/// How far below the root an enumeration reaches.
#[derive(Clone, Copy, Debug, PartialEq, Eq, Structural)]
pub enum Traversal {
    /// Only the direct children of the root.
    Shallow,
    /// Every descendant of the root.
    Deep,
}

/// One window whose children are known and whose branches are being walked.
struct Frame {
    /// The children, as reported.
    level: Vec<u64>,
    /// Index in `level` of the child whose branch is walked next.
    next: usize,
    /// What was gathered below the children before `next`.
    below: Vec<u64>,
}

/// A walk that waits for the answer to one query.
pub struct TreeWalk {
    root: u64,
    traversal: Traversal,
    frames: Vec<Frame>,
}

/// What a walk asks for after an answer, or how it ended.
pub enum WalkStep {
    /// The walk goes on: the children of `walk.pending()` are wanted.
    Query(TreeWalk),
    /// The walk is over; these are the windows, in order.
    Done(WindowContainer),
    /// The root could not be queried.
    Failed,
}

/// One window whose children are known, with the progress made through its
/// branches, as a mathematical value.
pub struct FrameView {
    pub level: Seq<u64>,
    pub next: int,
    pub below: Seq<u64>,
}

/// The mathematical content of a [`TreeWalk`]: the frames run from the root's
/// (first) to that of the window whose branches are walked now (last). With no
/// frame the query for the root itself is pending.
pub struct WalkView {
    pub root: u64,
    pub traversal: Traversal,
    pub frames: Seq<FrameView>,
}

/// The mathematical content of a [`WalkStep`].
pub enum StepView {
    Query(WalkView),
    Done(Seq<u64>),
    Failed,
}

impl View for Frame {
    type V = FrameView;

    closed spec fn view(&self) -> FrameView {
        FrameView { level: self.level@, next: self.next as int, below: self.below@ }
    }
}

/// The mathematical content of a stack of frames.
spec fn frame_views(frames: Seq<Frame>) -> Seq<FrameView> {
    Seq::new(frames.len(), |i: int| frames[i]@)
}

impl View for TreeWalk {
    type V = WalkView;

    closed spec fn view(&self) -> WalkView {
        WalkView { root: self.root, traversal: self.traversal, frames: frame_views(self.frames@) }
    }
}

impl View for WalkStep {
    type V = StepView;

    open spec fn view(&self) -> StepView {
        match self {
            WalkStep::Query(walk) => StepView::Query(walk@),
            WalkStep::Done(windows) => StepView::Done(windows@),
            WalkStep::Failed => StepView::Failed,
        }
    }
}

/// The answer to a query, as a mathematical value.
pub open spec fn reply_view(reply: Option<Vec<u64>>) -> Option<Seq<u64>> {
    match reply {
        None => None,
        Some(children) => Some(children@),
    }
}

impl FrameView {
    /// A frame for a window whose children were just reported.
    pub open spec fn fresh(level: Seq<u64>) -> FrameView {
        FrameView { level, next: 0, below: Seq::empty() }
    }

    /// The frame after the branch of the child at `next` gave `found`.
    pub open spec fn advance(self, found: Seq<u64>) -> FrameView {
        FrameView { level: self.level, next: self.next + 1, below: self.below + found }
    }

    /// All that the frame's window has below it, once every branch is walked.
    pub open spec fn total(self) -> Seq<u64> {
        self.level + self.below
    }
}

impl WalkView {
    /// The walk before the first answer.
    pub open spec fn start(root: u64, traversal: Traversal) -> WalkView {
        WalkView { root, traversal, frames: Seq::empty() }
    }

    /// Every frame still has a child whose branch has not been walked.
    pub open spec fn wf(self) -> bool {
        forall|i: int|
            0 <= i < self.frames.len() ==> 0 <= (#[trigger] self.frames[i]).next
                < self.frames[i].level.len()
    }

    /// The window whose children are wanted.
    pub open spec fn pending(self) -> u64 {
        if self.frames.len() == 0 {
            self.root
        } else {
            self.frames.last().level[self.frames.last().next]
        }
    }

    /// The walk with one more frame.
    pub open spec fn enter(self, level: Seq<u64>) -> WalkView {
        WalkView { frames: self.frames.push(FrameView::fresh(level)), ..self }
    }

    /// The walk after the branch of the pending window gave `found`.
    pub open spec fn advance(self, found: Seq<u64>) -> WalkView {
        WalkView {
            frames: self.frames.drop_last().push(self.frames.last().advance(found)),
            ..self
        }
    }

    /// Closes every frame that has no branch left, handing what it gathered to
    /// the frame before it, and says what comes next.
    pub open spec fn settle(self) -> StepView
        decreases self.frames.len(),
    {
        if self.frames.len() == 0 {
            StepView::Query(self)
        } else {
            let top = self.frames.last();
            if top.next < top.level.len() {
                StepView::Query(self)
            } else if self.frames.len() == 1 {
                StepView::Done(top.total())
            } else {
                WalkView { frames: self.frames.drop_last(), ..self }.advance(top.total()).settle()
            }
        }
    }

    /// The step that the walk takes on the answer to its pending query.
    pub open spec fn step(self, reply: Option<Seq<u64>>) -> StepView {
        match reply {
            None => if self.frames.len() == 0 {
                StepView::Failed
            } else {
                self.advance(Seq::empty()).settle()
            },
            Some(children) => if self.frames.len() == 0 && self.traversal == Traversal::Shallow {
                StepView::Done(children)
            } else {
                self.enter(children).settle()
            },
        }
    }
}

impl TreeWalk {
    /// Every frame of a waiting walk still has a branch that is not walked.
    #[verifier::type_invariant]
    spec fn inv(&self) -> bool {
        self@.wf()
    }

    /// Begins the enumeration below `root`. The first query is for `root`.
    pub fn start(root: u64, traversal: Traversal) -> (walk: TreeWalk)
        ensures
            walk@ == WalkView::start(root, traversal),
    {
        let walk = TreeWalk { root, traversal, frames: Vec::new() };
        assert(walk@.frames =~= Seq::empty());
        walk
    }

    /// The window whose children must be queried now.
    pub fn pending(&self) -> (window: u64)
        ensures
            window == self@.pending(),
            self@.wf(),
    {
        proof {
            use_type_invariant(self);
        }
        let n = self.frames.len();
        if n == 0 {
            self.root
        } else {
            assert(self@.frames[n - 1] == self.frames@[n - 1]@);
            let top = &self.frames[n - 1];
            top.level[top.next]
        }
    }

    /// Takes the answer to the pending query: `None` where the query failed,
    /// else the children in the order reported.
    pub fn feed(self, reply: Option<Vec<u64>>) -> (step: WalkStep)
        ensures
            step@ == self@.step(reply_view(reply)),
            self@.wf(),
            step matches WalkStep::Query(walk) ==> walk@.wf(),
    {
        proof {
            use_type_invariant(&self);
        }
        let ghost before = self@;
        let TreeWalk { root, traversal, mut frames } = self;
        match reply {
            None => {
                if frames.len() == 0 {
                    return WalkStep::Failed;
                }
                assert(before.frames.last() == frames@[frames@.len() - 1]@);
                let top = frames.pop();
                let mut top = top.unwrap();
                assert(top.next < top.level.len());
                top.next = top.next + 1;
                frames.push(top);
                assert(frame_views(frames@) =~= before.advance(Seq::empty()).frames);
            },
            Some(children) => {
                if frames.len() == 0 && traversal == Traversal::Shallow {
                    return WalkStep::Done(WindowContainer::new(children));
                }
                frames.push(Frame { level: children, next: 0, below: Vec::new() });
                assert(frame_views(frames@) =~= before.enter(children@).frames);
            },
        }
        assert forall|i: int| 0 <= i < frames@.len() - 1 implies 0 <= (#[trigger] frames@[i]@).next
            < frames@[i]@.level.len() by {
            assert(frames@[i]@ == before.frames[i]);
        }
        settle(root, traversal, frames)
    }
}

/// Closes the frames that have no branch left. Only the last frame may be such
/// a one when the work begins.
fn settle(root: u64, traversal: Traversal, stack: Vec<Frame>) -> (step: WalkStep)
    requires
        stack@.len() > 0,
        forall|i: int|
            0 <= i < stack@.len() - 1 ==> 0 <= (#[trigger] stack@[i]@).next
                < stack@[i]@.level.len(),
        0 <= stack@.last()@.next <= stack@.last()@.level.len(),
    ensures
        step@ == (WalkView { root, traversal, frames: frame_views(stack@) }).settle(),
        step matches WalkStep::Query(walk) ==> walk@.wf(),
{
    let ghost goal = (WalkView { root, traversal, frames: frame_views(stack@) }).settle();
    let mut frames = stack;
    loop
        invariant
            goal == (WalkView { root, traversal, frames: frame_views(stack@) }).settle(),
            frames@.len() > 0,
            forall|i: int|
                0 <= i < frames@.len() - 1 ==> 0 <= (#[trigger] frames@[i]@).next
                    < frames@[i]@.level.len(),
            0 <= frames@.last()@.next <= frames@.last()@.level.len(),
            (WalkView { root, traversal, frames: frame_views(frames@) }).settle() == goal,
        decreases frames@.len(),
    {
        let ghost before = WalkView { root, traversal, frames: frame_views(frames@) };
        let n = frames.len();
        assert(before.frames.last() == frames@[n - 1]@);
        if frames[n - 1].next < frames[n - 1].level.len() {
            assert(before.settle() == StepView::Query(before));
            assert forall|i: int| 0 <= i < before.frames.len() implies 0 <= (
            #[trigger] before.frames[i]).next < before.frames[i].level.len() by {
                assert(before.frames[i] == frames@[i]@);
            }
            return WalkStep::Query(TreeWalk { root, traversal, frames });
        }
        let top = frames.pop();
        let top = top.unwrap();
        let mut total = top.level;
        let mut gathered = top.below;
        total.append(&mut gathered);
        assert(total@ == before.frames.last().total());
        if n == 1 {
            return WalkStep::Done(WindowContainer::new(total));
        }
        assert(frame_views(frames@) =~= before.frames.drop_last());
        assert(before.frames[n - 2] == frames@[n - 2]@);
        let parent = frames.pop();
        let mut parent = parent.unwrap();
        assert(parent.next < parent.level.len());
        parent.below.append(&mut total);
        parent.next = parent.next + 1;
        frames.push(parent);
        assert(frame_views(frames@) =~= (WalkView {
            frames: before.frames.drop_last(),
            ..before
        }).advance(before.frames.last().total()).frames);
    }
}

impl StepView {
    /// Where a walk stands after the answers came in, one for each query it
    /// made. Answers that come after its end change nothing.
    pub open spec fn run(self, answers: Seq<Option<Seq<u64>>>) -> StepView
        decreases answers.len(),
    {
        if answers.len() == 0 {
            self
        } else {
            match self {
                StepView::Query(walk) => walk.step(answers[0]).run(answers.drop_first()),
                _ => self,
            }
        }
    }

    /// The windows whose children a walk asks for while the answers come in.
    pub open spec fn asked(self, answers: Seq<Option<Seq<u64>>>) -> Seq<u64>
        decreases answers.len(),
    {
        if answers.len() == 0 {
            Seq::empty()
        } else {
            match self {
                StepView::Query(walk) => seq![walk.pending()] + walk.step(answers[0]).asked(
                    answers.drop_first(),
                ),
                _ => Seq::empty(),
            }
        }
    }
}

/// The walk `w` with a frame for `row`, of which the first `n` branches are
/// walked.
spec fn amid(w: WalkView, row: Seq<Branch>, n: nat) -> WalkView {
    WalkView {
        frames: w.frames.push(FrameView { level: ids(row), next: n as int, below: below(row, n) }),
        ..w
    }
}

proof fn lemma_walk_row(w: WalkView, row: Seq<Branch>, n: nat, rest: Seq<Option<Seq<u64>>>)
    requires
        n <= row.len(),
    ensures
        amid(w, row, 0).settle().run(row_replies(row, n) + rest) == amid(w, row, n).settle().run(
            rest,
        ),
        amid(w, row, 0).settle().asked(row_replies(row, n) + rest) == row_reported(row, n) + amid(
            w,
            row,
            n,
        ).settle().asked(rest),
    decreases row, n,
{
    if n == 0 {
        assert(row_replies(row, 0) + rest =~= rest);
        assert(row_reported(row, 0) + amid(w, row, 0).settle().asked(rest) =~= amid(
            w,
            row,
            0,
        ).settle().asked(rest));
    } else {
        let m = (n - 1) as nat;
        let b = row[n - 1];
        let later = replies(b) + rest;
        assert(row_replies(row, n) + rest =~= row_replies(row, m) + later);
        lemma_walk_row(w, row, m, later);
        let here = amid(w, row, m);
        assert(here.settle() == StepView::Query(here));
        lemma_walk_branch(here, b, rest);
        assert(here.advance(descendants(b)).frames =~= amid(w, row, n).frames);
        assert(here.advance(descendants(b)) == amid(w, row, n));
        assert(row_reported(row, n) + amid(w, row, n).settle().asked(rest) =~= row_reported(row, m)
            + (queried(b) + amid(w, row, n).settle().asked(rest)));
    }
}

proof fn lemma_walk_branch(w: WalkView, b: Branch, rest: Seq<Option<Seq<u64>>>)
    requires
        w.frames.len() > 0,
        w.pending() == b.id,
    ensures
        StepView::Query(w).run(replies(b) + rest) == w.advance(descendants(b)).settle().run(rest),
        StepView::Query(w).asked(replies(b) + rest) == queried(b) + w.advance(
            descendants(b),
        ).settle().asked(rest),
    decreases b, 0nat,
{
    let answers = replies(b) + rest;
    assert(answers[0] == answer(b));
    match b.reply {
        None => {
            assert(answers.drop_first() =~= rest);
            assert(reported(b) =~= Seq::<u64>::empty());
        },
        Some(row) => {
            let n = row.len();
            assert(answers.drop_first() =~= row_replies(row, n) + rest);
            assert(w.enter(ids(row)) == amid(w, row, 0));
            lemma_walk_row(w, row, n, rest);
            let full = amid(w, row, n);
            assert(full.frames.drop_last() =~= w.frames);
            assert(WalkView { frames: full.frames.drop_last(), ..full } == w);
            assert(full.settle() == w.advance(descendants(b)).settle());
            assert(queried(b) + full.settle().asked(rest) =~= seq![b.id] + (row_reported(row, n)
                + full.settle().asked(rest)));
        },
    }
}

/// A deep walk that is given the answers of the tree `t`, in the order in
/// which it asks, queries `t` and then every window reported below it, and
/// ends with the descendants of `t`; where the query for `t` itself fails, the
/// walk fails at once.
pub proof fn lemma_deep_walk_lists_descendants(t: Branch)
    ensures
        StepView::Query(WalkView::start(t.id, Traversal::Deep)).run(replies(t)) == match t.reply {
            None => StepView::Failed,
            Some(_) => StepView::Done(descendants(t)),
        },
        StepView::Query(WalkView::start(t.id, Traversal::Deep)).asked(replies(t)) == queried(t),
{
    let w = WalkView::start(t.id, Traversal::Deep);
    let answers = replies(t);
    let none = Seq::<Option<Seq<u64>>>::empty();
    assert(answers[0] == answer(t));
    match t.reply {
        None => {
            assert(answers.drop_first() =~= none);
            assert(StepView::Failed.run(none) == StepView::Failed);
            assert(StepView::Failed.asked(none) == Seq::<u64>::empty());
            assert(queried(t) =~= seq![t.id] + Seq::<u64>::empty());
        },
        Some(row) => {
            let n = row.len();
            assert(answers.drop_first() =~= row_replies(row, n) + none);
            assert(w.enter(ids(row)) == amid(w, row, 0));
            lemma_walk_row(w, row, n, none);
            let full = amid(w, row, n);
            assert(full.settle() == StepView::Done(descendants(t)));
            assert(queried(t) =~= seq![t.id] + (row_reported(row, n) + full.settle().asked(none)));
        },
    }
}

/// Where the query for the root fails the walk fails at once, whatever its
/// reach: no window is handed out, so no request can follow.
pub proof fn lemma_failed_root_query_is_fatal(root: u64, traversal: Traversal)
    ensures
        WalkView::start(root, traversal).step(None) == StepView::Failed,
        WalkView::start(root, traversal).pending() == root,
{
}

/// A shallow walk makes one query, for the root, and ends with the children
/// that the answer names, or fails where that query fails.
pub proof fn lemma_shallow_walk_lists_children(t: Branch)
    ensures
        StepView::Query(WalkView::start(t.id, Traversal::Shallow)).run(seq![answer(t)])
            == match t.reply {
            None => StepView::Failed,
            Some(row) => StepView::Done(ids(row)),
        },
        StepView::Query(WalkView::start(t.id, Traversal::Shallow)).asked(seq![answer(t)])
            == seq![t.id],
{
    let w = WalkView::start(t.id, Traversal::Shallow);
    let answers = seq![answer(t)];
    let none = Seq::<Option<Seq<u64>>>::empty();
    assert(answers.drop_first() =~= none);
    assert(w.step(answers[0]).run(none) == w.step(answers[0]));
    assert(w.step(answers[0]).asked(none) == Seq::<u64>::empty());
    assert(seq![t.id] + Seq::<u64>::empty() =~= seq![t.id]);
}

} // verus!
