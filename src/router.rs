use vstd::prelude::*;

use crate::button::Platform;

verus! {

/// The views the front end can show.
#[derive(Clone, Copy, Debug, PartialEq, Eq, Structural, Hash)]
pub enum Route {
    /// The start page, listing the two emulator views.
    Home,
    /// The view hosting an 8-bit handheld session.
    Gameboy,
    /// The view hosting a 32-bit handheld session.
    GameboyAdvance,
}

/// The platform whose session a view hosts, if any.
pub open spec fn platform_of(r: Route) -> Option<Platform> {
    match r {
        Route::Home => None,
        Route::Gameboy => Some(Platform::Handheld8),
        Route::GameboyAdvance => Some(Platform::Handheld32),
    }
}

/// What a navigation asks of the views: the session to drop, and the
/// platform for which a fresh session is to be built.
#[derive(Clone, Copy, Debug, PartialEq, Eq, Structural)]
pub struct Transition {
    pub release: Option<Platform>,
    pub mount: Option<Platform>,
}

/// The transition from `from` to `to`: staying on a view keeps its session;
/// moving releases the session of the view left and mounts one for the view entered.
pub open spec fn transition_of(from: Route, to: Route) -> Transition {
    if from == to {
        Transition { release: None, mount: None }
    } else {
        Transition { release: platform_of(from), mount: platform_of(to) }
    }
}

impl Route {
    /// The platform whose session this view hosts, if any.
    pub fn platform(&self) -> (r: Option<Platform>)
        ensures
            r == platform_of(*self),
    {
        match self {
            Route::Home => None,
            Route::Gameboy => Some(Platform::Handheld8),
            Route::GameboyAdvance => Some(Platform::Handheld32),
        }
    }
}

/// The navigation state machine: which view is active.
#[derive(Clone, Copy, Debug, PartialEq, Eq, Structural)]
pub struct ViewRouter {
    pub current: Route,
}

impl ViewRouter {
    /// A router on the start page.
    pub fn new() -> (r: ViewRouter)
        ensures
            r.current == Route::Home,
    {
        ViewRouter { current: Route::Home }
    }

    /// Moves to `target` and says which session to release and which to build.
    pub fn navigate(&mut self, target: Route) -> (t: Transition)
        ensures
            final(self).current == target,
            t == transition_of(old(self).current, target),
    {
        let from = self.current;
        self.current = target;
        if from == target {
            Transition { release: None, mount: None }
        } else {
            Transition { release: from.platform(), mount: target.platform() }
        }
    }
}

/// Entering one platform view and then the other builds two sessions, one
/// per platform: the second navigation drops the first session and mounts a
/// fresh one of the other platform, so no session is shared between them.
pub proof fn lemma_sessions_not_shared(start: Route)
    ensures
        transition_of(start, Route::Gameboy).mount == (if start == Route::Gameboy {
            None
        } else {
            Some(Platform::Handheld8)
        }),
        transition_of(Route::Gameboy, Route::GameboyAdvance) == (Transition {
            release: Some(Platform::Handheld8),
            mount: Some(Platform::Handheld32),
        }),
{
}

/// Navigating to the view already shown neither drops nor builds a session.
pub proof fn lemma_same_view_keeps_session(r: Route)
    ensures
        transition_of(r, r) == (Transition { release: None, mount: None }),
{
}

} // verus!
