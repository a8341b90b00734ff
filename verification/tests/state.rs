use purpleifypdf::Color;
use purpleifypdf::PageRange;
use purpleifypdf::Quality;
use purpleifypdf::TransformationError;
use purpleifypdf::TransformationState;

#[test]
fn zero_page_document_is_rejected() {
    let r = TransformationState::try_new("t".to_string(), 0, None, Quality::Low, None);
    assert!(matches!(r, Err(TransformationError::ZeroPagePdf)));
}

#[test]
fn construction_applies_defaults() {
    let state = TransformationState::try_new("title".to_string(), 3, None, Quality::Low, None)
        .unwrap();
    assert_eq!(state.original_title(), "title");
    assert_eq!(state.page_count(), 3);
    // An unset range becomes all pages; an unset color the default purple.
    assert_eq!(state.options.page_range.starting_index, 0);
    assert_eq!(state.options.page_range.count, 3);
    let c = state.options.background_color;
    assert_eq!((c.r, c.g, c.b), (226, 97, 255));
}

#[test]
fn construction_keeps_given_options() {
    let range = PageRange { starting_index: 1, count: 2 };
    let state = TransformationState::try_new(
        "".to_string(),
        5,
        Some(range),
        Quality::High,
        Some(Color::new(9, 8, 7)),
    )
    .unwrap();
    assert_eq!(state.options.page_range.starting_index, 1);
    assert_eq!(state.options.page_range.count, 2);
    let c = state.options.background_color;
    assert_eq!((c.r, c.g, c.b), (9, 8, 7));
    assert!(matches!(state.options.quality, Quality::High));
}

#[test]
fn out_of_bounds_page_is_nonexistent() {
    let state = TransformationState::try_new("t".to_string(), 3, None, Quality::Low, None)
        .unwrap();
    // Offsets 0..3 resolve; offset 3 is at page_count and fails.
    assert_eq!(state.page_index_for_offset(0).unwrap(), 0);
    assert_eq!(state.page_index_for_offset(2).unwrap(), 2);
    assert!(matches!(
        state.page_index_for_offset(3),
        Err(TransformationError::NonexistentPage(3))
    ));
    assert!(matches!(
        state.page_index_for_offset(100),
        Err(TransformationError::NonexistentPage(100))
    ));
}

#[test]
fn offset_resolution_uses_starting_index() {
    let range = PageRange { starting_index: 2, count: 10 };
    let state = TransformationState::try_new("t".to_string(), 3, Some(range), Quality::Low, None)
        .unwrap();
    assert_eq!(state.page_index_for_offset(0).unwrap(), 2);
    assert!(matches!(
        state.page_index_for_offset(1),
        Err(TransformationError::NonexistentPage(3))
    ));
}

#[test]
fn includes_offset_respects_range_and_document() {
    let range = PageRange { starting_index: 1, count: 5 };
    let state = TransformationState::try_new("t".to_string(), 3, Some(range), Quality::Low, None)
        .unwrap();
    assert!(state.includes_offset(0));
    assert!(state.includes_offset(1));
    assert!(!state.includes_offset(2));
}
