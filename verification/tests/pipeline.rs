use purpleifypdf::PageRange;
use purpleifypdf::Quality;
use purpleifypdf::TransformationError;
use purpleifypdf::TransformationState;
use purpleifypdf::pdf_to_pdf::Progress;
use purpleifypdf::pdf_to_pdf::StepInput;
use purpleifypdf::pdf_to_pdf::Update;
use purpleifypdf::pdf_to_pdf::run_pages;
use purpleifypdf::pdf_to_pdf::transform;

fn three_page_state(range: Option<PageRange>) -> TransformationState {
    TransformationState::try_new("t".to_string(), 3, range, Quality::ExtremeLow, None).unwrap()
}

#[test]
fn provides_updates() {
    let state = three_page_state(None);
    let max_iterations = state.page_count();
    let mut prev_percent: (usize, usize) = (0, 1);
    let mut iterations = 0;
    let mut state: Progress<Vec<u8>> = transform(state);
    loop {
        if iterations > max_iterations {
            panic!("Too many updates for document size");
        }

        let input = if state.needs_page() {
            StepInput::Page(Ok(vec![1u8, 2, 3]))
        } else {
            StepInput::Assembled(Ok(vec![9u8]))
        };
        match state.next(input) {
            Update::Progress(progress) => {
                let percent = progress.percent_done_ratio();
                if prev_percent.0 * percent.1 >= percent.0 * prev_percent.1 {
                    panic!(
                        "Progress must always increase in TransformationUpdate::Progress(progress)"
                    )
                } else {
                    prev_percent = percent;
                }
                state = progress;
            }
            Update::Complete(result) => {
                result.unwrap();
                break;
            }
        }

        iterations += 1;
    }

    if iterations < max_iterations {
        panic!("Too few updates for document size");
    }
}

#[test]
fn single_page_range_emits_one_progress_then_complete() {
    // A 3-page document restricted to its first page: exactly one progress
    // update, then completion with a non-empty output.
    let state = three_page_state(Some(PageRange { starting_index: 0, count: 1 }));
    let p: Progress<Vec<u8>> = transform(state);
    assert_eq!(p.percent_done_ratio(), (0, 2));
    assert!(p.needs_page());
    let p = match p.next(StepInput::Page(Ok(vec![0xAB]))) {
        Update::Progress(q) => q,
        Update::Complete(_) => panic!("expected a progress update"),
    };
    assert_eq!(p.percent_done_ratio(), (1, 2));
    assert_eq!(p.transformed_pages.len(), 1);
    assert!(!p.needs_page());
    match p.next(StepInput::Assembled(Ok(vec![1, 2, 3]))) {
        Update::Complete(Ok(complete)) => {
            assert_eq!(complete.original_title(), "t");
            assert!(!complete.into_bytes().is_empty());
        }
        _ => panic!("expected successful completion"),
    }
}

#[test]
fn out_of_range_start_completes_immediately() {
    // Range {100, 10} on a 3-page document: the first step goes straight to
    // completion, with zero pages accumulated.
    let state = three_page_state(Some(PageRange { starting_index: 100, count: 10 }));
    let p: Progress<Vec<u8>> = transform(state);
    assert!(!p.needs_page());
    assert_eq!(p.transformed_pages.len(), 0);
    match p.next(StepInput::Assembled(Ok(Vec::new()))) {
        Update::Complete(Ok(complete)) => assert!(complete.into_bytes().is_empty()),
        _ => panic!("expected successful completion"),
    }
}

#[test]
fn render_failure_completes_with_the_error() {
    let state = three_page_state(None);
    let p: Progress<Vec<u8>> = transform(state);
    match p.next(StepInput::Page(Err(TransformationError::Unknown))) {
        Update::Complete(Err(TransformationError::Unknown)) => {}
        _ => panic!("expected the render error to complete the pipeline"),
    }
}

#[test]
fn assembly_failure_completes_with_the_error() {
    let state = three_page_state(Some(PageRange { starting_index: 0, count: 0 }));
    let p: Progress<Vec<u8>> = transform(state);
    assert!(!p.needs_page());
    match p.next(StepInput::Assembled(Err(TransformationError::PdfWrite("boom".to_string())))) {
        Update::Complete(Err(TransformationError::PdfWrite(m))) => assert_eq!(m, "boom"),
        _ => panic!("expected the assembly error to complete the pipeline"),
    }
}

#[test]
fn run_pages_steps_once_per_included_page() {
    // A 5-page document with range {1, 3}: three pages are included, so the
    // run passes through exactly three non-terminal states.
    let state =
        TransformationState::try_new("t".to_string(), 5, Some(PageRange { starting_index: 1, count: 3 }), Quality::Low, None)
            .unwrap();
    let p: Progress<Vec<u8>> = transform(state);
    let (end, steps) = run_pages(p, vec![vec![1], vec![2], vec![3]]);
    assert_eq!(steps, 3);
    assert_eq!(end.transformed_pages.len(), 3);
    assert!(!end.needs_page());
    assert_eq!(end.percent_done_ratio(), (3, 4));
}

#[test]
fn clipped_range_includes_only_available_pages() {
    // Range {0, 100} on a 3-page document clips to the three available pages.
    let state = three_page_state(Some(PageRange { starting_index: 0, count: 100 }));
    let p: Progress<Vec<u8>> = transform(state);
    let (end, steps) = run_pages(p, vec![vec![1], vec![2], vec![3]]);
    assert_eq!(steps, 3);
    assert!(!end.needs_page());
}
