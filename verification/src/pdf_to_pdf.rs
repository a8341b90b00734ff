//! The progressive transformation pipeline: a step-once state machine that
//! walks the selected page range, accumulating transformed pages and reporting
//! percent-complete, and terminates in either a reassembled document or a
//! propagated error.
//!
//! Rendering a page and reassembling the accumulated pages are done outside
//! this crate; the pipeline is generic in the page payload `P` and takes each
//! outside outcome as an argument to [`Progress::next`].

use vstd::prelude::*;

use crate::TransformationError;
use crate::TransformationState;

verus! {

/// The result of one pipeline step: either an updated non-terminal state or
/// the terminal outcome.
pub enum Update<P> {
    Progress(Progress<P>),
    Complete(Result<Complete, TransformationError>),
}

/// A finished transformation: the reassembled document and the original title.
pub struct Complete {
    pub original_title: String,
    pub bytes: Vec<u8>,
}

impl Complete {
    pub fn new(original_title: String, bytes: Vec<u8>) -> (c: Complete)
        ensures
            c.original_title == original_title,
            c.bytes == bytes,
    {
        Complete { original_title, bytes }
    }

    pub fn into_bytes(self) -> (b: Vec<u8>)
        ensures
            b == self.bytes,
    {
        self.bytes
    }

    pub fn original_title(&self) -> (t: &str)
        ensures
            t@ == self.original_title@,
    {
        self.original_title.as_str()
    }
}

/// Whether the fraction `a_num / a_den` is strictly below `b_num / b_den`,
/// for positive denominators: compared by cross-multiplication.
pub open spec fn percent_lt(a_num: int, a_den: int, b_num: int, b_den: int) -> bool {
    a_num * b_den < b_num * a_den
}

/// A non-terminal pipeline state: the pages transformed so far and the offset,
/// from the start of the selected range, of the next page to transform.
pub struct Progress<P> {
    pub state: TransformationState,
    pub transformed_pages: Vec<P>,
    pub next_offset: usize,
}

impl<P> Progress<P> {
    /// The number of offsets the configured range selects in this document.
    pub open spec fn spec_included_count(&self) -> int {
        self.state.options.page_range.spec_included_count(self.state.page_count as int)
    }

    /// Well-formed progress: the document has pages, the next offset has not
    /// passed the end of the selected range, and one page has been accumulated
    /// per offset already stepped over.
    pub open spec fn wf(&self) -> bool {
        &&& self.state.wf()
        &&& self.next_offset <= self.spec_included_count()
        &&& self.transformed_pages@.len() == self.next_offset
    }

    /// Whether the next step needs a rendered page (true), or the range is
    /// exhausted and the next step needs the reassembled document (false).
    pub open spec fn spec_needs_page(&self) -> bool {
        self.state.options.page_range.spec_includes(
            self.next_offset as int,
            self.state.page_count as int,
        )
    }

    pub fn needs_page(&self) -> (r: bool)
        ensures
            r == self.spec_needs_page(),
    {
        self.state.includes_offset(self.next_offset)
    }

    /// The percent-complete value of this state, as the exact fraction
    /// `next_offset / (count + 1)`: numerator first, denominator second. The
    /// extra `+ 1` in the denominator reserves the final fraction of progress
    /// for the reassembly step.
    pub fn percent_done_ratio(&self) -> (r: (usize, usize))
        requires
            self.state.options.page_range.count < usize::MAX,
        ensures
            r.0 == self.next_offset,
            r.1 == self.state.options.page_range.count + 1,
    {
        (self.next_offset, self.state.options.page_range.count + 1)
    }

    /// One step of the pipeline. While the selected range still includes
    /// `next_offset` the caller renders that page and hands in the outcome; a
    /// success is appended and the pipeline advances, a failure completes the
    /// pipeline with that error. Once the range is exhausted the caller
    /// reassembles the accumulated pages and hands in that outcome, which
    /// completes the pipeline either way.
    pub fn next(self, input: StepInput<P>) -> (u: Update<P>)
        requires
            self.wf(),
            input is Page <==> self.spec_needs_page(),
        ensures
            input matches StepInput::Page(Ok(page)) ==> u matches Update::Progress(q) && q.wf()
                && q.state == self.state && q.next_offset == self.next_offset + 1
                && q.transformed_pages@ == self.transformed_pages@.push(page),
            input matches StepInput::Page(Err(e)) ==> u matches Update::Complete(r) && r
                matches Err(e2) && e2 == e,
            input matches StepInput::Assembled(Ok(bytes)) ==> u matches Update::Complete(r) && r
                matches Ok(c) && c.original_title@ == self.state.original_title@ && c.bytes
                == bytes,
            input matches StepInput::Assembled(Err(e)) ==> u matches Update::Complete(r) && r
                matches Err(e2) && e2 == e,
    {
        let Progress { next_offset, mut transformed_pages, state } = self;
        match input {
            StepInput::Page(Ok(page)) => {
                transformed_pages.push(page);
                proof {
                    state.options.page_range.lemma_includes_iff_below_count(
                        next_offset as int,
                        state.page_count as int,
                    );
                }
                Update::Progress(Progress { state, transformed_pages, next_offset: next_offset + 1 })
            },
            StepInput::Page(Err(e)) => Update::Complete(Err(e)),
            StepInput::Assembled(Ok(bytes)) => {
                let original_title = state.original_title();
                Update::Complete(Ok(Complete::new(original_title, bytes)))
            },
            StepInput::Assembled(Err(e)) => Update::Complete(Err(e)),
        }
    }
}

/// What the outside world hands the pipeline for one step: the outcome of
/// rendering the page at the current offset, or — once the range is exhausted
/// — the outcome of reassembling the accumulated pages into a document.
pub enum StepInput<P> {
    Page(Result<P, TransformationError>),
    Assembled(Result<Vec<u8>, TransformationError>),
}

/// Begins a transformation: the initial pipeline state, with no pages
/// accumulated and the next offset at zero.
pub fn transform<P>(state: TransformationState) -> (p: Progress<P>)
    requires
        state.wf(),
    ensures
        p.wf(),
        p.state == state,
        p.next_offset == 0,
        p.transformed_pages@ =~= Seq::<P>::empty(),
{
    Progress { state, transformed_pages: Vec::new(), next_offset: 0 }
}

/// Percent-complete is strictly increasing across successive non-terminal
/// states: each step raises the numerator by one while the denominator stays
/// fixed, and a larger numerator over the same positive denominator is the
/// strictly larger fraction.
pub proof fn lemma_percent_strictly_increasing(num1: int, num2: int, den: int)
    requires
        0 < den,
        0 <= num1 < num2,
    ensures
        percent_lt(num1, den, num2, den),
{
    assert(num1 * den < num2 * den) by (nonlinear_arith)
        requires
            0 < den,
            num1 < num2,
    ;
}

/// A non-terminal state's percent-complete stays strictly below one hundred
/// percent: the denominator's extra one reserves the last fraction for the
/// reassembly step.
pub proof fn lemma_percent_reserves_reassembly<P>(p: Progress<P>)
    requires
        p.wf(),
    ensures
        percent_lt(p.next_offset as int, p.state.options.page_range.count + 1, 1, 1),
{
    p.state.options.page_range.lemma_includes_iff_below_count(
        p.next_offset as int,
        p.state.page_count as int,
    );
}

/// Runs the pipeline over the rest of the selected range, handing it one
/// successfully rendered page per remaining offset, and returns the state in
/// which the range is exhausted together with how many non-terminal states the
/// run passed through: exactly one per page the range includes.
pub fn run_pages<P>(start: Progress<P>, pages: Vec<P>) -> (r: (Progress<P>, usize))
    requires
        start.wf(),
        start.next_offset + pages@.len() == start.spec_included_count(),
    ensures
        r.0.wf(),
        !r.0.spec_needs_page(),
        r.1 == pages@.len(),
        r.0.next_offset == start.next_offset + pages@.len(),
        r.0.transformed_pages@ == start.transformed_pages@ + pages@,
        r.0.state == start.state,
{
    let mut pages = pages;
    let ghost all_pages = pages@;
    let mut current = start;
    let mut steps: usize = 0;
    while current.needs_page()
        invariant
            current.wf(),
            current.state == start.state,
            steps == current.next_offset - start.next_offset,
            steps <= all_pages.len(),
            pages@ == all_pages.skip(steps as int),
            current.next_offset + pages@.len() == current.spec_included_count(),
            current.transformed_pages@ == start.transformed_pages@ + all_pages.take(steps as int),
            current.spec_needs_page() ==> pages@.len() > 0,
        decreases pages@.len(),
    {
        proof {
            current.state.options.page_range.lemma_includes_iff_below_count(
                current.next_offset as int,
                current.state.page_count as int,
            );
        }
        let page = pages.remove(0);
        let ghost before = current;
        let update = current.next(StepInput::Page(Ok(page)));
        current = match update {
            Update::Progress(q) => q,
            Update::Complete(_) => vstd::pervasive::unreached(),
        };
        steps = steps + 1;
        proof {
            assert(pages@ =~= all_pages.skip(steps as int));
            assert(current.transformed_pages@ =~= start.transformed_pages@ + all_pages.take(
                steps as int,
            ));
            current.state.options.page_range.lemma_includes_iff_below_count(
                current.next_offset as int,
                current.state.page_count as int,
            );
        }
    }
    proof {
        assert(all_pages.take(steps as int) =~= all_pages);
        assert(current.transformed_pages@ =~= start.transformed_pages@ + all_pages);
    }
    (current, steps)
}

} // verus!
