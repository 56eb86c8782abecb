use windowing::context::{context_version, ContextSearch, ContextStep};
use windowing::creation::{CreationFailure, CreationStage};

/// The sample counts that are asked for when every attempt fails at `failing`.
fn levels_tried(multisampling: u16, failing: ContextStep) -> Vec<Option<u16>> {
    let mut search = ContextSearch::new(multisampling, true);
    let mut step = search.step;
    let mut levels = Vec::new();
    while step != ContextStep::Exhausted {
        if let ContextStep::BuildDisplay { multisampling } = step {
            levels.push(multisampling);
            step = search.advance(failing != ContextStep::BuildDisplay { multisampling: None });
        } else {
            step = search.advance(step != failing);
        }
    }
    assert_eq!(search.failed, 7);
    levels
}

#[test]
fn first_attempt_that_works_is_taken() {
    let mut search = ContextSearch::new(4, true);
    assert_eq!(
        search.step,
        ContextStep::BuildDisplay {
            multisampling: Some(4)
        }
    );
    assert_eq!(search.advance(true), ContextStep::CreateContext);
    assert_eq!(search.advance(true), ContextStep::FinalizeWindow);
    assert_eq!(search.advance(true), ContextStep::BuildSurfaceAttributes);
    assert_eq!(search.advance(true), ContextStep::CreateSurface);
    assert_eq!(search.advance(true), ContextStep::MakeCurrent);
    assert_eq!(search.advance(true), ContextStep::SetSwapInterval);
    assert_eq!(search.advance(true), ContextStep::Finished);
    assert_eq!(search.advance(false), ContextStep::Finished);
    assert_eq!(search.failed, 0);
}

#[test]
fn context_is_used_though_vsync_failed() {
    let mut search = ContextSearch::new(0, true);
    for _ in 0..6 {
        search.advance(true);
    }
    assert_eq!(search.step, ContextStep::SetSwapInterval);
    assert_eq!(search.advance(false), ContextStep::Finished);
    assert_eq!(search.failed, 0);
}

#[test]
fn no_vsync_unless_asked_for() {
    let mut search = ContextSearch::new(0, false);
    for _ in 0..5 {
        search.advance(true);
    }
    assert_eq!(search.step, ContextStep::MakeCurrent);
    assert_eq!(search.advance(true), ContextStep::Finished);
}

#[test]
fn samples_are_reduced_wherever_an_attempt_fails() {
    let expected = [Some(32), Some(16), Some(8), Some(4), Some(2), None, None];
    for failing in [
        ContextStep::BuildDisplay {
            multisampling: None,
        },
        ContextStep::CreateContext,
        ContextStep::FinalizeWindow,
        ContextStep::BuildSurfaceAttributes,
        ContextStep::CreateSurface,
        ContextStep::MakeCurrent,
    ] {
        assert_eq!(levels_tried(32, failing), expected);
    }
}

#[test]
fn fewer_than_two_samples_are_not_asked_for() {
    let step = ContextStep::MakeCurrent;
    assert_eq!(levels_tried(0, step)[0], None);
    assert_eq!(levels_tried(1, step)[0], None);
    assert_eq!(levels_tried(2, step)[0], Some(2));
    assert_eq!(levels_tried(255, step)[0], Some(255));
}

#[test]
fn third_attempt_works() {
    let mut search = ContextSearch::new(4, false);
    search.advance(false);
    search.advance(true);
    search.advance(false);
    assert_eq!(
        search.step,
        ContextStep::BuildDisplay {
            multisampling: Some(8)
        }
    );
    for _ in 0..6 {
        search.advance(true);
    }
    assert_eq!(search.step, ContextStep::Finished);
    assert_eq!(search.failed, 2);
}

#[test]
fn exhausted_search_stays_so() {
    let mut search = ContextSearch::new(4, false);
    for _ in 0..6 {
        assert!(matches!(
            search.advance(false),
            ContextStep::BuildDisplay { .. }
        ));
    }
    assert_eq!(search.advance(false), ContextStep::Exhausted);
    assert_eq!(search.advance(true), ContextStep::Exhausted);
    assert_eq!(search.failed, 7);
}

#[test]
fn window_is_created_stage_by_stage() {
    let mut stage = CreationStage::new();
    let mut stages = vec![stage];
    while stage != CreationStage::Finished {
        stage = stage.advance(true);
        stages.push(stage);
    }
    assert_eq!(
        stages,
        [
            CreationStage::FindContext,
            CreationStage::FindMonitor,
            CreationStage::BringIntoPlace,
            CreationStage::LoadGl,
            CreationStage::CreateRenderer,
            CreationStage::StartHandler,
            CreationStage::Finished
        ]
    );
    assert_eq!(stage.advance(true), CreationStage::Finished);
}

#[test]
fn window_cannot_be_created_where_something_is_missing() {
    let failures = [
        (
            CreationStage::FindContext,
            CreationFailure::NoContext,
            "Failed to create a suitable GL context",
        ),
        (
            CreationStage::FindMonitor,
            CreationFailure::NoMonitor,
            "Failed to find any monitor",
        ),
        (
            CreationStage::CreateRenderer,
            CreationFailure::NoRenderer,
            "Failed to create renderer",
        ),
    ];
    for (stage, failure, message) in failures {
        let failed = stage.advance(false);
        assert_eq!(failed, CreationStage::Failed(failure));
        assert_eq!(failed.advance(true), failed);
        assert_eq!(failure.message(), message);
    }
    for stage in [
        CreationStage::BringIntoPlace,
        CreationStage::LoadGl,
        CreationStage::StartHandler,
    ] {
        assert_eq!(stage.advance(false), stage.advance(true));
    }
}

#[test]
fn opengl_two_is_enough() {
    assert_eq!(context_version(), (2, 0));
}
