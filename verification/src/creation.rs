//! The stages in which a window comes to be.

use vstd::prelude::*;

verus! {

/// Why a window could not be created.
#[derive(Clone, Copy, Debug, PartialEq, Eq, Structural)]
pub enum CreationFailure {
    NoContext,
    NoMonitor,
    NoRenderer,
}

impl CreationFailure {
    /// What the log says of the failure.
    pub open spec fn spec_message(self) -> Seq<char> {
        match self {
            CreationFailure::NoContext => "Failed to create a suitable GL context"@,
            CreationFailure::NoMonitor => "Failed to find any monitor"@,
            CreationFailure::NoRenderer => "Failed to create renderer"@,
        }
    }

    pub fn message(self) -> (message: &'static str)
        ensures
            message@ == self.spec_message(),
    {
        match self {
            CreationFailure::NoContext => "Failed to create a suitable GL context",
            CreationFailure::NoMonitor => "Failed to find any monitor",
            CreationFailure::NoRenderer => "Failed to create renderer",
        }
    }
}

/// What is to be done next. Each stage works on what those before it have made.
#[derive(Clone, Copy, Debug, PartialEq, Eq, Structural)]
pub enum CreationStage {
    /// Open the window, hidden, with a GL context: see
    /// [`crate::context::ContextSearch`].
    FindContext,
    /// Choose the monitor that the window goes by: see
    /// [`crate::placement::choose_monitor`].
    FindMonitor,
    /// Size, place and show the window: see [`crate::options::window_setup`].
    BringIntoPlace,
    /// Look up the GL functions of the context.
    LoadGl,
    CreateRenderer,
    /// Tell the handler that its window is there.
    StartHandler,
    /// The window is one of those that the event loop serves.
    Finished,
    Failed(CreationFailure),
}

impl CreationStage {
    /// The stage after one that came to an end. Only three of them can fail.
    pub open spec fn following(self, succeeded: bool) -> CreationStage {
        match self {
            CreationStage::FindContext => if succeeded {
                CreationStage::FindMonitor
            } else {
                CreationStage::Failed(CreationFailure::NoContext)
            },
            CreationStage::FindMonitor => if succeeded {
                CreationStage::BringIntoPlace
            } else {
                CreationStage::Failed(CreationFailure::NoMonitor)
            },
            CreationStage::BringIntoPlace => CreationStage::LoadGl,
            CreationStage::LoadGl => CreationStage::CreateRenderer,
            CreationStage::CreateRenderer => if succeeded {
                CreationStage::StartHandler
            } else {
                CreationStage::Failed(CreationFailure::NoRenderer)
            },
            CreationStage::StartHandler | CreationStage::Finished => CreationStage::Finished,
            CreationStage::Failed(failure) => CreationStage::Failed(failure),
        }
    }

    /// The first stage.
    pub fn new() -> (stage: CreationStage)
        ensures
            stage == CreationStage::FindContext,
    {
        CreationStage::FindContext
    }

    /// Takes the outcome of this stage, and says what to do next.
    pub fn advance(self, succeeded: bool) -> (next: CreationStage)
        ensures
            next == self.following(succeeded),
    {
        match self {
            CreationStage::FindContext if !succeeded => CreationStage::Failed(
                CreationFailure::NoContext,
            ),
            CreationStage::FindContext => CreationStage::FindMonitor,
            CreationStage::FindMonitor if !succeeded => CreationStage::Failed(
                CreationFailure::NoMonitor,
            ),
            CreationStage::FindMonitor => CreationStage::BringIntoPlace,
            CreationStage::BringIntoPlace => CreationStage::LoadGl,
            CreationStage::LoadGl => CreationStage::CreateRenderer,
            CreationStage::CreateRenderer if !succeeded => CreationStage::Failed(
                CreationFailure::NoRenderer,
            ),
            CreationStage::CreateRenderer => CreationStage::StartHandler,
            CreationStage::StartHandler => CreationStage::Finished,
            CreationStage::Finished => CreationStage::Finished,
            CreationStage::Failed(failure) => CreationStage::Failed(failure),
        }
    }

    /// How many stages are left at most.
    pub open spec fn stages_left(self) -> nat {
        match self {
            CreationStage::FindContext => 6,
            CreationStage::FindMonitor => 5,
            CreationStage::BringIntoPlace => 4,
            CreationStage::LoadGl => 3,
            CreationStage::CreateRenderer => 2,
            CreationStage::StartHandler => 1,
            CreationStage::Finished | CreationStage::Failed(_) => 0,
        }
    }

    /// The stages that are gone through from this one on, on a system where
    /// `works` says which of them succeed.
    pub open spec fn course(self, works: spec_fn(CreationStage) -> bool) -> Seq<CreationStage>
        decreases self.stages_left(),
    {
        if self.stages_left() == 0 {
            seq![self]
        } else {
            seq![self] + self.following(works(self)).course(works)
        }
    }
}

/// A window comes to be where there is a context, a monitor and a renderer for
/// it, and nowhere else. Otherwise the first of them that is missing is named,
/// the handler is not started, and without a monitor nothing is shown.
pub proof fn law_created_where_nothing_is_missing(works: spec_fn(CreationStage) -> bool)
    ensures
        ({
            let course = CreationStage::FindContext.course(works);
            let context = works(CreationStage::FindContext);
            let monitor = works(CreationStage::FindMonitor);
            let renderer = works(CreationStage::CreateRenderer);
            &&& course.len() > 0
            &&& course.last() == (if !context {
                CreationStage::Failed(CreationFailure::NoContext)
            } else if !monitor {
                CreationStage::Failed(CreationFailure::NoMonitor)
            } else if !renderer {
                CreationStage::Failed(CreationFailure::NoRenderer)
            } else {
                CreationStage::Finished
            })
            &&& course.contains(CreationStage::StartHandler) <==> context && monitor && renderer
            &&& course.contains(CreationStage::BringIntoPlace) <==> context && monitor
        }),
{
    let context = works(CreationStage::FindContext);
    let monitor = works(CreationStage::FindMonitor);
    let renderer = works(CreationStage::CreateRenderer);
    let start = CreationStage::StartHandler.course(works);
    assert(start == seq![CreationStage::StartHandler, CreationStage::Finished]) by {
        assert(CreationStage::Finished.course(works) == seq![CreationStage::Finished]);
    }
    assert(CreationStage::Failed(CreationFailure::NoContext).course(works) == seq![
        CreationStage::Failed(CreationFailure::NoContext),
    ]);
    assert(CreationStage::Failed(CreationFailure::NoMonitor).course(works) == seq![
        CreationStage::Failed(CreationFailure::NoMonitor),
    ]);
    assert(CreationStage::Failed(CreationFailure::NoRenderer).course(works) == seq![
        CreationStage::Failed(CreationFailure::NoRenderer),
    ]);
    let draw = CreationStage::CreateRenderer.course(works);
    assert(draw == seq![CreationStage::CreateRenderer] + (if renderer {
        start
    } else {
        seq![CreationStage::Failed(CreationFailure::NoRenderer)]
    }));
    let load = CreationStage::LoadGl.course(works);
    assert(load == seq![CreationStage::LoadGl] + draw);
    let placing = CreationStage::BringIntoPlace.course(works);
    assert(placing == seq![CreationStage::BringIntoPlace] + load);
    let found = CreationStage::FindMonitor.course(works);
    assert(found == seq![CreationStage::FindMonitor] + (if monitor {
        placing
    } else {
        seq![CreationStage::Failed(CreationFailure::NoMonitor)]
    }));
    let course = CreationStage::FindContext.course(works);
    assert(course == seq![CreationStage::FindContext] + (if context {
        found
    } else {
        seq![CreationStage::Failed(CreationFailure::NoContext)]
    }));
    if context && monitor {
        assert(course[2] == CreationStage::BringIntoPlace);
        if renderer {
            assert(course[5] == CreationStage::StartHandler);
        }
    }
}

/// The stages follow each other in a fixed order. Three of them can fail, each in
/// its own way, and a failure is final. The outcome of the others makes no
/// difference.
pub proof fn law_order_of_stages(succeeded: bool, failure: CreationFailure)
    ensures
        CreationStage::FindContext.following(true) == CreationStage::FindMonitor,
        CreationStage::FindMonitor.following(true) == CreationStage::BringIntoPlace,
        CreationStage::BringIntoPlace.following(succeeded) == CreationStage::LoadGl,
        CreationStage::LoadGl.following(succeeded) == CreationStage::CreateRenderer,
        CreationStage::CreateRenderer.following(true) == CreationStage::StartHandler,
        CreationStage::StartHandler.following(succeeded) == CreationStage::Finished,
        CreationStage::Finished.following(succeeded) == CreationStage::Finished,
        CreationStage::FindContext.following(false) == CreationStage::Failed(
            CreationFailure::NoContext,
        ),
        CreationStage::FindMonitor.following(false) == CreationStage::Failed(
            CreationFailure::NoMonitor,
        ),
        CreationStage::CreateRenderer.following(false) == CreationStage::Failed(
            CreationFailure::NoRenderer,
        ),
        CreationStage::Failed(failure).following(succeeded) == CreationStage::Failed(failure),
{
}

/// The log names what is missing.
pub proof fn law_message_names_the_failure(failure: CreationFailure)
    ensures
        failure == CreationFailure::NoContext ==> failure.spec_message()
            == "Failed to create a suitable GL context"@,
        failure == CreationFailure::NoMonitor ==> failure.spec_message()
            == "Failed to find any monitor"@,
        failure == CreationFailure::NoRenderer ==> failure.spec_message()
            == "Failed to create renderer"@,
{
}

} // verus!
