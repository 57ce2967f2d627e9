use vstd::prelude::*;

verus! {

/// Failure of the downstream step that hands a finished image to an outside
/// viewer process, with the cause in words.
pub struct SubprocessError {
    cause: String,
}

impl View for SubprocessError {
    type V = Seq<char>;

    closed spec fn view(&self) -> Seq<char> {
        self.cause@
    }
}

impl SubprocessError {
    /// An error with the given cause.
    pub fn new(cause: String) -> (e: SubprocessError)
        ensures
            e@ == cause@,
    {
        SubprocessError { cause }
    }

    /// The cause of the failure.
    pub fn cause(&self) -> (r: &str)
        ensures
            r@ == self@,
    {
        self.cause.as_str()
    }
}

/// The workers, by index, that did not finish their rows: `ok[w]` tells
/// whether worker `w` finished.
pub open spec fn failures_of(ok: Seq<bool>) -> Seq<usize>
    decreases ok.len(),
{
    if ok.len() == 0 {
        Seq::empty()
    } else {
        let earlier = failures_of(ok.drop_last());
        if ok.last() {
            earlier
        } else {
            earlier.push((ok.len() - 1) as usize)
        }
    }
}

/// A render in which some workers failed: the failures of all of them are
/// reported together.
pub struct RenderError {
    pub failed: Vec<usize>,
}

/// Turns the join results of the workers of one render into its result: the
/// render succeeds exactly when every worker finished, and otherwise names
/// every worker that did not, in order.
pub fn join_outcome(finished: &Vec<bool>) -> (r: Result<(), RenderError>)
    ensures
        r is Ok <==> (forall|w: int| 0 <= w < finished.len() ==> finished@[w]),
        r matches Err(e) ==> e.failed@ == failures_of(finished@),
{
    let mut failed: Vec<usize> = Vec::new();
    let mut w: usize = 0;
    while w < finished.len()
        invariant
            w <= finished.len(),
            failed@ == failures_of(finished@.subrange(0, w as int)),
            failed@.len() == 0 <==> (forall|j: int| 0 <= j < w ==> finished@[j]),
        decreases finished.len() - w,
    {
        proof {
            assert(finished@.subrange(0, w + 1).drop_last() =~= finished@.subrange(0, w as int));
        }
        if !finished[w] {
            failed.push(w);
        }
        w = w + 1;
    }
    proof {
        assert(finished@.subrange(0, finished.len() as int) =~= finished@);
    }
    if failed.len() == 0 {
        Ok(())
    } else {
        Err(RenderError { failed })
    }
}

} // verus!
