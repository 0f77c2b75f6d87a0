use vstd::prelude::*;

verus! {

/// What to do next while making the three duplicates of a connection handle
/// that a worker takes as its standard streams.
pub enum DupStep {
    /// Make one more duplicate and hand the call's result to `record`.
    Duplicate,
    /// All three are made: standard input, output and error, in that order.
    Ready(i32, i32, i32),
    /// A duplication failed: close each of these handles, which are all that
    /// were made for this connection, and report the failure.
    Abandon(Vec<i32>),
}

/// The handles that a step hands back to the caller.
pub open spec fn released(step: DupStep) -> Seq<i32> {
    match step {
        DupStep::Duplicate => seq![],
        DupStep::Ready(a, b, c) => seq![a, b, c],
        DupStep::Abandon(v) => v@,
    }
}

/// A duplication call's result: the new handle, or a negative value on failure.
pub open spec fn made_handle(ret: i32) -> Seq<i32> {
    if ret < 0 {
        seq![]
    } else {
        seq![ret]
    }
}

/// Progress in making three duplicates of one connection handle.
pub struct StdioDups {
    made: Vec<i32>,
}

impl View for StdioDups {
    type V = Seq<i32>;

    /// The duplicates made so far and not yet handed back.
    closed spec fn view(&self) -> Seq<i32> {
        self.made@
    }
}

impl StdioDups {
    /// Fewer than three duplicates are held between steps.
    pub open spec fn wf(&self) -> bool {
        self@.len() < 3
    }

    /// Starts with no duplicate made; the first step is to make one.
    pub fn new() -> (r: StdioDups)
        ensures
            r.wf(),
            r@ == Seq::<i32>::empty(),
    {
        StdioDups { made: Vec::new() }
    }

    /// Takes the result of one duplication call and says what to do next.
    /// Every handle made is either still held or handed back exactly once.
    pub fn record(&mut self, ret: i32) -> (step: DupStep)
        requires
            old(self).wf(),
        ensures
            final(self).wf(),
            ret < 0 ==> final(self)@ == Seq::<i32>::empty() && released(step) == old(self)@
                && step is Abandon,
            ret >= 0 && old(self)@.len() < 2 ==> step is Duplicate && final(self)@ == old(self)@.push(
                ret,
            ),
            ret >= 0 && old(self)@.len() == 2 ==> final(self)@ == Seq::<i32>::empty() && step
                == DupStep::Ready(old(self)@[0], old(self)@[1], ret),
            released(step) + final(self)@ == old(self)@ + made_handle(ret),
    {
        if ret < 0 {
            let mut made = Vec::new();
            std::mem::swap(&mut made, &mut self.made);
            assert(made@ + Seq::<i32>::empty() =~= made@ + made_handle(ret));
            DupStep::Abandon(made)
        } else if self.made.len() < 2 {
            self.made.push(ret);
            assert(Seq::<i32>::empty() + self.made@ =~= old(self)@ + made_handle(ret));
            DupStep::Duplicate
        } else {
            let a = self.made[0];
            let b = self.made[1];
            self.made = Vec::new();
            assert(seq![a, b, ret] + Seq::<i32>::empty() =~= old(self)@ + made_handle(ret));
            DupStep::Ready(a, b, ret)
        }
    }
}

} // verus!
