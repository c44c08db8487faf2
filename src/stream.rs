use std::collections::VecDeque;
use vstd::prelude::*;

verus! {

/// An event from one of two merged sources: `A` from the first, `B` from
/// the second.
pub enum EventType<A, B> {
    A(A),
    B(B),
}

/// The merge as a value: what waits from each source, and whose turn it is
/// when both have something.
pub struct MergeState<A, B> {
    pub a: Seq<A>,
    pub b: Seq<B>,
    pub b_turn: bool,
}

/// One operation on a merge: an arrival from either source, or taking the
/// next event.
pub enum MergeOp<A, B> {
    PushA(A),
    PushB(B),
    Next,
}

/// The items of the first source among `events`, in order.
pub open spec fn from_a<A, B>(events: Seq<EventType<A, B>>) -> Seq<A>
    decreases events.len(),
{
    if events.len() == 0 {
        Seq::empty()
    } else {
        let rest = from_a(events.drop_first());
        match events[0] {
            EventType::A(x) => seq![x] + rest,
            EventType::B(_) => rest,
        }
    }
}

/// The items of the second source among `events`, in order.
pub open spec fn from_b<A, B>(events: Seq<EventType<A, B>>) -> Seq<B>
    decreases events.len(),
{
    if events.len() == 0 {
        Seq::empty()
    } else {
        let rest = from_b(events.drop_first());
        match events[0] {
            EventType::A(_) => rest,
            EventType::B(y) => seq![y] + rest,
        }
    }
}

/// The items pushed to the first source by `ops`, in order.
pub open spec fn pushed_a<A, B>(ops: Seq<MergeOp<A, B>>) -> Seq<A>
    decreases ops.len(),
{
    if ops.len() == 0 {
        Seq::empty()
    } else {
        let rest = pushed_a(ops.drop_first());
        match ops[0] {
            MergeOp::PushA(x) => seq![x] + rest,
            _ => rest,
        }
    }
}

/// The items pushed to the second source by `ops`, in order.
pub open spec fn pushed_b<A, B>(ops: Seq<MergeOp<A, B>>) -> Seq<B>
    decreases ops.len(),
{
    if ops.len() == 0 {
        Seq::empty()
    } else {
        let rest = pushed_b(ops.drop_first());
        match ops[0] {
            MergeOp::PushB(y) => seq![y] + rest,
            _ => rest,
        }
    }
}

impl<A, B> MergeState<A, B> {
    /// Taking the next event: from the first source when only it has
    /// items or it is its turn, else from the second; the turn then passes
    /// to the other source.
    pub open spec fn next_spec(self) -> (MergeState<A, B>, Option<EventType<A, B>>) {
        if self.a.len() == 0 && self.b.len() == 0 {
            (self, None)
        } else if self.b.len() == 0 || (self.a.len() > 0 && !self.b_turn) {
            (MergeState { a: self.a.drop_first(), b: self.b, b_turn: true }, Some(EventType::A(self.a[0])))
        } else {
            (MergeState { a: self.a, b: self.b.drop_first(), b_turn: false }, Some(EventType::B(self.b[0])))
        }
    }

    pub open spec fn step(self, op: MergeOp<A, B>) -> (MergeState<A, B>, Seq<EventType<A, B>>) {
        match op {
            MergeOp::PushA(x) => (MergeState { a: self.a.push(x), ..self }, Seq::empty()),
            MergeOp::PushB(y) => (MergeState { b: self.b.push(y), ..self }, Seq::empty()),
            MergeOp::Next => match self.next_spec().1 {
                Some(e) => (self.next_spec().0, seq![e]),
                None => (self, Seq::empty()),
            },
        }
    }

    /// The state after a run of operations, and the events it delivered.
    pub open spec fn run(self, ops: Seq<MergeOp<A, B>>) -> (MergeState<A, B>, Seq<EventType<A, B>>)
        decreases ops.len(),
    {
        if ops.len() == 0 {
            (self, Seq::empty())
        } else {
            let (s1, out1) = self.step(ops[0]);
            let (s2, outs) = s1.run(ops.drop_first());
            (s2, out1 + outs)
        }
    }
}

proof fn lemma_from_prefix<A, B>(e: EventType<A, B>, rest: Seq<EventType<A, B>>)
    ensures
        from_a(seq![e] + rest) == from_a(seq![e]) + from_a(rest),
        from_b(seq![e] + rest) == from_b(seq![e]) + from_b(rest),
{
    let s = seq![e] + rest;
    assert(s.drop_first() =~= rest);
    assert(seq![e].drop_first() =~= Seq::<EventType<A, B>>::empty());
    assert(from_a(Seq::<EventType<A, B>>::empty()) == Seq::<A>::empty());
    assert(from_b(Seq::<EventType<A, B>>::empty()) == Seq::<B>::empty());
    match e {
        EventType::A(x) => {
            assert(from_a(seq![e]) =~= seq![x]);
            assert(from_b(seq![e]) =~= Seq::<B>::empty());
            assert(from_b(s) =~= from_b(seq![e]) + from_b(rest));
        },
        EventType::B(y) => {
            assert(from_b(seq![e]) =~= seq![y]);
            assert(from_a(seq![e]) =~= Seq::<A>::empty());
            assert(from_a(s) =~= from_a(seq![e]) + from_a(rest));
        },
    }
}

/// Merging loses, duplicates and reorders nothing: over any run of
/// arrivals and takes, the events delivered from each source, followed by
/// what still waits from it, are exactly what was waiting at the start
/// followed by what arrived, in arrival order.
pub proof fn lemma_merge_keeps_each_source<A, B>(s: MergeState<A, B>, ops: Seq<MergeOp<A, B>>)
    ensures
        from_a(s.run(ops).1) + s.run(ops).0.a == s.a + pushed_a(ops),
        from_b(s.run(ops).1) + s.run(ops).0.b == s.b + pushed_b(ops),
    decreases ops.len(),
{
    if ops.len() == 0 {
        assert(from_a(Seq::<EventType<A, B>>::empty()) == Seq::<A>::empty());
        assert(from_b(Seq::<EventType<A, B>>::empty()) == Seq::<B>::empty());
        assert(s.a + Seq::<A>::empty() =~= s.a);
        assert(s.b + Seq::<B>::empty() =~= s.b);
        assert(Seq::<A>::empty() + s.a =~= s.a);
        assert(Seq::<B>::empty() + s.b =~= s.b);
    } else {
        let op = ops[0];
        let rest = ops.drop_first();
        let (s1, out1) = s.step(op);
        let (s2, outs) = s1.run(rest);
        lemma_merge_keeps_each_source(s1, rest);
        assert(s.run(ops) == (s2, out1 + outs));
        match op {
            MergeOp::PushA(x) => {
                assert(out1 + outs =~= outs);
                assert(pushed_a(ops) == seq![x] + pushed_a(rest));
                assert(pushed_b(ops) == pushed_b(rest));
                assert(s1.a + pushed_a(rest) =~= s.a + (seq![x] + pushed_a(rest)));
                assert(s1.b == s.b);
            },
            MergeOp::PushB(y) => {
                assert(out1 + outs =~= outs);
                assert(pushed_b(ops) == seq![y] + pushed_b(rest));
                assert(pushed_a(ops) == pushed_a(rest));
                assert(s1.b + pushed_b(rest) =~= s.b + (seq![y] + pushed_b(rest)));
                assert(s1.a == s.a);
            },
            MergeOp::Next => {
                assert(pushed_a(ops) == pushed_a(rest));
                assert(pushed_b(ops) == pushed_b(rest));
                match s.next_spec().1 {
                    Some(e) => {
                        lemma_from_prefix(e, outs);
                        assert(seq![e].drop_first() =~= Seq::<EventType<A, B>>::empty());
                        assert(from_a(Seq::<EventType<A, B>>::empty()) == Seq::<A>::empty());
                        assert(from_b(Seq::<EventType<A, B>>::empty()) == Seq::<B>::empty());
                        match e {
                            EventType::A(x) => {
                                assert(from_a(seq![e]) =~= seq![x]);
                                assert(from_b(seq![e]) =~= Seq::<B>::empty());
                                assert(s.a =~= seq![x] + s1.a);
                                assert(from_a(out1 + outs) + s2.a =~= seq![x] + (from_a(outs) + s2.a));
                                assert(from_b(out1 + outs) + s2.b =~= from_b(outs) + s2.b);
                            },
                            EventType::B(y) => {
                                assert(from_b(seq![e]) =~= seq![y]);
                                assert(from_a(seq![e]) =~= Seq::<A>::empty());
                                assert(s.b =~= seq![y] + s1.b);
                                assert(from_b(out1 + outs) + s2.b =~= seq![y] + (from_b(outs) + s2.b));
                                assert(from_a(out1 + outs) + s2.a =~= from_a(outs) + s2.a);
                            },
                        }
                    },
                    None => {
                        assert(out1 + outs =~= outs);
                    },
                }
            },
        }
    }
}

/// A fair merge of two sources: items of each come out in arrival order,
/// and while both have items they alternate.
pub struct MergedQueue<A, B> {
    a: VecDeque<A>,
    b: VecDeque<B>,
    b_turn: bool,
}

impl<A, B> View for MergedQueue<A, B> {
    type V = MergeState<A, B>;

    closed spec fn view(&self) -> MergeState<A, B> {
        MergeState { a: self.a@, b: self.b@, b_turn: self.b_turn }
    }
}

impl<A, B> MergedQueue<A, B> {
    /// An empty merge; the first source goes first.
    pub fn new() -> (r: MergedQueue<A, B>)
        ensures
            r@.a.len() == 0,
            r@.b.len() == 0,
            !r@.b_turn,
    {
        MergedQueue { a: VecDeque::new(), b: VecDeque::new(), b_turn: false }
    }

    /// An item arrived from the first source.
    pub fn push_a(&mut self, x: A)
        ensures
            final(self)@ == old(self)@.step(MergeOp::PushA(x)).0,
    {
        self.a.push_back(x);
    }

    /// An item arrived from the second source.
    pub fn push_b(&mut self, y: B)
        ensures
            final(self)@ == old(self)@.step(MergeOp::PushB(y)).0,
    {
        self.b.push_back(y);
    }

    /// Takes the next event, if either source has one.
    pub fn next(&mut self) -> (r: Option<EventType<A, B>>)
        ensures
            (final(self)@, r) == old(self)@.next_spec(),
    {
        if self.a.len() == 0 && self.b.len() == 0 {
            return None;
        }
        if self.b.len() == 0 || (self.a.len() > 0 && !self.b_turn) {
            match self.a.pop_front() {
                Some(x) => {
                    self.b_turn = true;
                    proof {
                        assert(self.a@ =~= old(self)@.a.drop_first());
                    }
                    Some(EventType::A(x))
                },
                None => None,
            }
        } else {
            match self.b.pop_front() {
                Some(y) => {
                    self.b_turn = false;
                    proof {
                        assert(self.b@ =~= old(self)@.b.drop_first());
                    }
                    Some(EventType::B(y))
                },
                None => None,
            }
        }
    }

    /// How many events wait, from both sources together.
    pub fn len(&self) -> (r: usize)
        requires
            self@.a.len() + self@.b.len() <= usize::MAX,
        ensures
            r == self@.a.len() + self@.b.len(),
    {
        self.a.len() + self.b.len()
    }
}

} // verus!
