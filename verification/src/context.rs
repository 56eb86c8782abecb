//! The search for a GL context.

use vstd::prelude::*;

verus! {

/// What is to be done next in the search. Each step works on what the steps
/// before it have made in the same attempt.
#[derive(Clone, Copy, Debug, PartialEq, Eq, Structural)]
pub enum ContextStep {
    /// Open a display and a window, with a configuration that has this many
    /// samples per pixel, or any where none are named.
    BuildDisplay { multisampling: Option<u16> },
    CreateContext,
    FinalizeWindow,
    BuildSurfaceAttributes,
    CreateSurface,
    MakeCurrent,
    /// Wait for the screen before showing a frame. The context is used whether
    /// this succeeds or not.
    SetSwapInterval,
    /// The context of this attempt is the one to use.
    Finished,
    /// No context could be made.
    Exhausted,
}

/// The sample counts that are tried where the one asked for does not work.
pub open spec fn fallback_levels() -> Seq<u16> {
    seq![16u16, 8, 4, 2, 1, 0]
}

/// The sample counts in the order in which they are tried.
pub open spec fn levels(multisampling: u16) -> Seq<u16> {
    seq![multisampling] + fallback_levels()
}

/// The first step of an attempt with this many samples.
pub open spec fn first_step(level: u16) -> ContextStep {
    ContextStep::BuildDisplay {
        multisampling: if level > 1 {
            Some(level)
        } else {
            None
        },
    }
}

/// The version of OpenGL that a context is asked for: major and minor.
pub fn context_version() -> (version: (u8, u8))
    ensures
        version == (2u8, 0u8),
{
    (2, 0)
}

/// The search for a context: where it stands.
#[derive(Clone, Copy, Debug)]
pub struct ContextSearch {
    pub multisampling: u16,
    pub vsync: bool,
    /// The number of attempts that have failed.
    pub failed: usize,
    /// The step that is being taken.
    pub step: ContextStep,
}

impl ContextSearch {
    /// The step after one that came to an end.
    pub open spec fn following(self, succeeded: bool) -> ContextSearch {
        match self.step {
            ContextStep::SetSwapInterval => ContextSearch { step: ContextStep::Finished, ..self },
            ContextStep::Finished | ContextStep::Exhausted => self,
            _ => if succeeded {
                ContextSearch { step: self.next_in_attempt(), ..self }
            } else {
                self.next_attempt()
            },
        }
    }

    /// What follows in an attempt once the current step has succeeded.
    pub open spec fn next_in_attempt(self) -> ContextStep {
        match self.step {
            ContextStep::BuildDisplay { .. } => ContextStep::CreateContext,
            ContextStep::CreateContext => ContextStep::FinalizeWindow,
            ContextStep::FinalizeWindow => ContextStep::BuildSurfaceAttributes,
            ContextStep::BuildSurfaceAttributes => ContextStep::CreateSurface,
            ContextStep::CreateSurface => ContextStep::MakeCurrent,
            ContextStep::MakeCurrent => if self.vsync {
                ContextStep::SetSwapInterval
            } else {
                ContextStep::Finished
            },
            _ => ContextStep::Finished,
        }
    }

    /// The search after its current attempt has failed.
    pub open spec fn next_attempt(self) -> ContextSearch {
        let attempt = self.failed + 1;
        ContextSearch {
            failed: attempt as usize,
            step: if attempt < levels(self.multisampling).len() {
                first_step(levels(self.multisampling)[attempt as int])
            } else {
                ContextStep::Exhausted
            },
            ..self
        }
    }

    /// The search has an attempt in hand, or has come to its end. No sample count
    /// is out of bounds for the window system.
    pub open spec fn well_formed(self) -> bool {
        &&& self.multisampling <= 255
        &&& self.failed <= levels(self.multisampling).len()
        &&& self.step is Exhausted <==> self.failed == levels(self.multisampling).len()
    }

    /// The sample count of the attempt in hand.
    pub open spec fn level(self) -> u16
        recommends
            self.well_formed(),
            !(self.step is Exhausted),
    {
        levels(self.multisampling)[self.failed as int]
    }

    /// Begins the search for a context with this many samples.
    pub fn new(multisampling: u16, vsync: bool) -> (search: ContextSearch)
        requires
            multisampling <= 255,
        ensures
            search.well_formed(),
            search == (ContextSearch {
                multisampling,
                vsync,
                failed: 0,
                step: first_step(multisampling),
            }),
    {
        ContextSearch { multisampling, vsync, failed: 0, step: Self::begin(multisampling) }
    }

    fn begin(level: u16) -> (step: ContextStep)
        ensures
            step == first_step(level),
    {
        if level > 1 {
            ContextStep::BuildDisplay { multisampling: Some(level) }
        } else {
            ContextStep::BuildDisplay { multisampling: None }
        }
    }

    /// Takes the outcome of the current step, and says what to do next. A step
    /// that fails ends its attempt; the next attempt asks for fewer samples.
    pub fn advance(&mut self, succeeded: bool) -> (step: ContextStep)
        requires
            old(self).well_formed(),
        ensures
            final(self).well_formed(),
            *final(self) == old(self).following(succeeded),
            step == final(self).step,
    {
        let levels = [self.multisampling, 16u16, 8, 4, 2, 1, 0];
        assert(levels@ == crate::context::levels(self.multisampling));
        self.step = match self.step {
            ContextStep::SetSwapInterval => ContextStep::Finished,
            ContextStep::Finished => ContextStep::Finished,
            ContextStep::Exhausted => ContextStep::Exhausted,
            _ if !succeeded => {
                self.failed = self.failed + 1;
                if self.failed < levels.len() {
                    Self::begin(levels[self.failed])
                } else {
                    ContextStep::Exhausted
                }
            },
            ContextStep::BuildDisplay { .. } => ContextStep::CreateContext,
            ContextStep::CreateContext => ContextStep::FinalizeWindow,
            ContextStep::FinalizeWindow => ContextStep::BuildSurfaceAttributes,
            ContextStep::BuildSurfaceAttributes => ContextStep::CreateSurface,
            ContextStep::CreateSurface => ContextStep::MakeCurrent,
            ContextStep::MakeCurrent => if self.vsync {
                ContextStep::SetSwapInterval
            } else {
                ContextStep::Finished
            },
        };
        self.step
    }
}

/// What a system answers to each step of each attempt.
pub type Replies = spec_fn(nat, ContextStep) -> bool;

/// The attempt with this number (from 0) would come to a current context.
pub open spec fn attempt_works(multisampling: u16, replies: Replies, attempt: nat) -> bool {
    &&& replies(attempt, first_step(levels(multisampling)[attempt as int]))
    &&& replies(attempt, ContextStep::CreateContext)
    &&& replies(attempt, ContextStep::FinalizeWindow)
    &&& replies(attempt, ContextStep::BuildSurfaceAttributes)
    &&& replies(attempt, ContextStep::CreateSurface)
    &&& replies(attempt, ContextStep::MakeCurrent)
}

impl ContextSearch {
    /// How many steps the attempt in hand has left at most.
    pub open spec fn steps_left(self) -> nat {
        match self.step {
            ContextStep::BuildDisplay { .. } => 7,
            ContextStep::CreateContext => 6,
            ContextStep::FinalizeWindow => 5,
            ContextStep::BuildSurfaceAttributes => 4,
            ContextStep::CreateSurface => 3,
            ContextStep::MakeCurrent => 2,
            ContextStep::SetSwapInterval => 1,
            ContextStep::Finished | ContextStep::Exhausted => 0,
        }
    }

    /// Where the search ends on a system that answers in this way.
    pub open spec fn outcome(self, replies: Replies) -> ContextSearch
        decreases levels(self.multisampling).len() - self.failed, self.steps_left(),
        when self.well_formed()
    {
        if self.step is Finished || self.step is Exhausted {
            self
        } else {
            self.following(replies(self.failed as nat, self.step)).outcome(replies)
        }
    }

    /// The steps of the attempt in hand that are yet to be taken would all
    /// succeed.
    spec fn rest_works(self, replies: Replies) -> bool {
        let attempt = self.failed as nat;
        let left = self.steps_left();
        &&& left >= 7 ==> replies(attempt, first_step(self.level()))
        &&& left >= 6 ==> replies(attempt, ContextStep::CreateContext)
        &&& left >= 5 ==> replies(attempt, ContextStep::FinalizeWindow)
        &&& left >= 4 ==> replies(attempt, ContextStep::BuildSurfaceAttributes)
        &&& left >= 3 ==> replies(attempt, ContextStep::CreateSurface)
        &&& left >= 2 ==> replies(attempt, ContextStep::MakeCurrent)
    }

    /// The first step of an attempt is the one for its sample count.
    spec fn at_its_level(self) -> bool {
        self.step is BuildDisplay ==> self.step == first_step(self.level())
    }

    proof fn lemma_outcome(self, replies: Replies)
        requires
            self.well_formed(),
            self.at_its_level(),
        ensures
            ({
                let end = self.outcome(replies);
                &&& end.step is Finished || end.step is Exhausted
                &&& end.well_formed()
                &&& end.multisampling == self.multisampling
                &&& end.failed >= self.failed
                &&& end.failed == self.failed <==> (self.step is Exhausted || self.rest_works(
                    replies,
                ))
                &&& forall|k: nat|
                    self.failed < k < end.failed ==> !attempt_works(self.multisampling, replies, k)
                &&& end.failed > self.failed && end.step is Finished ==> attempt_works(
                    self.multisampling,
                    replies,
                    end.failed as nat,
                )
            }),
        decreases levels(self.multisampling).len() - self.failed, self.steps_left(),
    {
        if self.step is Finished || self.step is Exhausted {
        } else {
            self.following(replies(self.failed as nat, self.step)).lemma_outcome(replies);
        }
    }
}

/// The search ends with the first attempt that works, and in failure only where
/// none does: with seven attempts, in the order of [`levels`].
pub proof fn law_first_working_attempt(multisampling: u16, vsync: bool, replies: Replies)
    requires
        multisampling <= 255,
    ensures
        ({
            let step = first_step(multisampling);
            let end = (ContextSearch { multisampling, vsync, failed: 0, step }).outcome(replies);
            &&& end.step is Finished <==> exists|k: nat|
                k < 7 && #[trigger] attempt_works(multisampling, replies, k)
            &&& end.step is Exhausted <==> !(end.step is Finished)
            &&& end.step is Finished ==> {
                &&& attempt_works(multisampling, replies, end.failed as nat)
                &&& forall|k: nat| k < end.failed ==> !attempt_works(multisampling, replies, k)
            }
        }),
{
    let step = first_step(multisampling);
    let search = ContextSearch { multisampling, vsync, failed: 0, step };
    search.lemma_outcome(replies);
    let end = search.outcome(replies);
    assert(search.rest_works(replies) <==> attempt_works(multisampling, replies, 0));
    if end.step is Finished {
        assert(attempt_works(multisampling, replies, end.failed as nat));
    }
}

impl ContextSearch {
    /// The steps that the search goes through from here on, to its end, on a system
    /// that answers in this way.
    pub open spec fn course(self, replies: Replies) -> Seq<ContextStep>
        decreases levels(self.multisampling).len() - self.failed, self.steps_left(),
        when self.well_formed()
    {
        if self.step is Finished || self.step is Exhausted {
            seq![self.step]
        } else {
            seq![self.step] + self.following(replies(self.failed as nat, self.step)).course(replies)
        }
    }
}

/// An attempt asks for as many samples as it is for, and names none where one or
/// none are wanted.
pub proof fn law_samples_asked_for(level: u16)
    ensures
        level >= 2 ==> first_step(level) == (ContextStep::BuildDisplay {
            multisampling: Some(level),
        }),
        level < 2 ==> first_step(level) == (ContextStep::BuildDisplay { multisampling: None }),
{
}

/// An attempt goes through its steps in their order, however many attempts have
/// failed before. Vsync is set where it was asked for, and only there, once the
/// context is current; whether that succeeds makes no difference.
pub proof fn law_attempt_goes_on(search: ContextSearch, succeeded: bool)
    ensures
        search.step is BuildDisplay ==> search.following(true) == (ContextSearch {
            step: ContextStep::CreateContext,
            ..search
        }),
        search.step is CreateContext ==> search.following(true) == (ContextSearch {
            step: ContextStep::FinalizeWindow,
            ..search
        }),
        search.step is FinalizeWindow ==> search.following(true) == (ContextSearch {
            step: ContextStep::BuildSurfaceAttributes,
            ..search
        }),
        search.step is BuildSurfaceAttributes ==> search.following(true) == (ContextSearch {
            step: ContextStep::CreateSurface,
            ..search
        }),
        search.step is CreateSurface ==> search.following(true) == (ContextSearch {
            step: ContextStep::MakeCurrent,
            ..search
        }),
        search.step is MakeCurrent && search.vsync ==> search.following(true) == (ContextSearch {
            step: ContextStep::SetSwapInterval,
            ..search
        }),
        search.step is MakeCurrent && !search.vsync ==> search.following(true) == (ContextSearch {
            step: ContextStep::Finished,
            ..search
        }),
        search.step is SetSwapInterval ==> search.following(succeeded) == (ContextSearch {
            step: ContextStep::Finished,
            ..search
        }),
        search.step is Finished ==> search.following(succeeded) == search,
        search.step is Exhausted ==> search.following(succeeded) == search,
{
}

/// An attempt that fails, at whatever step, is followed by one with 16 samples, and
/// then 8, 4, 2, one and none; after that the search is at its end. It forgets
/// neither what it was asked for nor how many attempts have failed.
pub proof fn law_attempt_fails(search: ContextSearch)
    requires
        search.well_formed(),
        search.step is BuildDisplay || search.step is CreateContext || search.step is FinalizeWindow
            || search.step is BuildSurfaceAttributes || search.step is CreateSurface
            || search.step is MakeCurrent,
    ensures
        ({
            let next = search.following(false);
            &&& next.multisampling == search.multisampling
            &&& next.vsync == search.vsync
            &&& next.failed == search.failed + 1
            &&& next.failed <= 7
            &&& next.failed == 7 <==> next.step is Exhausted
            &&& next.failed < 7 ==> next.step == (ContextStep::BuildDisplay {
                multisampling: if next.failed == 1 {
                    Some(16u16)
                } else if next.failed == 2 {
                    Some(8u16)
                } else if next.failed == 3 {
                    Some(4u16)
                } else if next.failed == 4 {
                    Some(2u16)
                } else {
                    None
                },
            })
        }),
{
}

proof fn lemma_course(search: ContextSearch, replies: Replies)
    requires
        search.well_formed(),
    ensures
        ({
            let course = search.course(replies);
            let end = search.outcome(replies);
            &&& course.len() > 0
            &&& course[0] == search.step
            &&& course[course.len() - 1] == end.step
            &&& end.step is Finished || end.step is Exhausted
            &&& search.step is SetSwapInterval ==> course == seq![
                ContextStep::SetSwapInterval,
                ContextStep::Finished,
            ]
            &&& !(search.step is SetSwapInterval || search.step is Finished) ==> forall|k: int|
                0 <= k < course.len() ==> (#[trigger] course[k] is SetSwapInterval <==> (
                search.vsync && end.step is Finished && k == course.len() - 2))
            &&& !(search.step is SetSwapInterval || search.step is Finished) && search.vsync
                && end.step is Finished ==> course.len() >= 2
        }),
    decreases levels(search.multisampling).len() - search.failed, search.steps_left(),
{
    if search.step is Finished || search.step is Exhausted {
    } else {
        let next = search.following(replies(search.failed as nat, search.step));
        lemma_course(next, replies);
        let later = next.course(replies);
        let course = search.course(replies);
        assert(course == seq![search.step] + later);
        if next.step is Finished {
            assert(later == seq![ContextStep::Finished]);
        }
        assert forall|k: int| 0 < k < course.len() implies course[k] == #[trigger] later[k - 1] by {
        }
    }
}

/// Every search that finds a context sets vsync exactly once where it was asked for,
/// right before its end, whichever attempt it is that works. Where it was not asked
/// for, and where no context is found, vsync is never set.
pub proof fn law_vsync_set_once(multisampling: u16, vsync: bool, replies: Replies)
    requires
        multisampling <= 255,
    ensures
        ({
            let step = first_step(multisampling);
            let search = ContextSearch { multisampling, vsync, failed: 0, step };
            let course = search.course(replies);
            let found = course[course.len() - 1] is Finished;
            &&& course.len() > 0
            &&& found || course[course.len() - 1] is Exhausted
            &&& vsync && found ==> course.len() >= 2 && course[course.len() - 2] is SetSwapInterval
            &&& forall|k: int|
                0 <= k < course.len() && #[trigger] course[k] is SetSwapInterval ==> vsync && found
                    && k == course.len() - 2
        }),
{
    let step = first_step(multisampling);
    let search = ContextSearch { multisampling, vsync, failed: 0, step };
    lemma_course(search, replies);
}

} // verus!
