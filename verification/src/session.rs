use vstd::prelude::*;

verus! {

/// The session states the program reacts to.
#[derive(Clone, Copy, Debug, PartialEq, Eq, Structural)]
pub enum SessionState {
    Ready,
    Stopping,
    Exiting,
    LossPending,
    /// Any other state: nothing to do.
    Other,
}

/// The runtime events the program reacts to.
#[derive(Clone, Copy, Debug, PartialEq, Eq, Structural)]
pub enum XrEvent {
    SessionStateChanged(SessionState),
    InstanceLossPending,
    /// The runtime dropped this many events.
    EventsLost(u32),
    /// Any other event: nothing to do.
    Other,
}

/// What to do with the session after an event.
#[derive(Clone, Copy, Debug, PartialEq, Eq, Structural)]
pub enum SessionAction {
    Nothing,
    /// Begin the session.
    Begin,
    /// End the session.
    End,
    /// Warn that this many events were lost.
    WarnEventsLost(u32),
}

/// Why the program stops.
#[derive(Clone, Copy, Debug, PartialEq, Eq, Structural)]
pub enum SessionError {
    /// The session is exiting or about to be lost.
    SessionExiting,
    /// The runtime instance is about to be lost.
    InstanceLossPending,
}

/// What follows from an event: whether the session runs afterwards and
/// what to do, or why to stop.
pub open spec fn event_outcome(running: bool, event: XrEvent) -> Result<
    (bool, SessionAction),
    SessionError,
> {
    match event {
        XrEvent::SessionStateChanged(SessionState::Ready) => Ok((true, SessionAction::Begin)),
        XrEvent::SessionStateChanged(SessionState::Stopping) => Ok((false, SessionAction::End)),
        XrEvent::SessionStateChanged(SessionState::Exiting) => Err(SessionError::SessionExiting),
        XrEvent::SessionStateChanged(SessionState::LossPending) => Err(
            SessionError::SessionExiting,
        ),
        XrEvent::SessionStateChanged(SessionState::Other) => Ok((running, SessionAction::Nothing)),
        XrEvent::InstanceLossPending => Err(SessionError::InstanceLossPending),
        XrEvent::EventsLost(n) => Ok((running, SessionAction::WarnEventsLost(n))),
        XrEvent::Other => Ok((running, SessionAction::Nothing)),
    }
}

/// Handles one runtime event. A ready session is begun and runs from then
/// on; a stopping one is ended and no longer runs; an exiting or lost
/// session, or a lost instance, stops the program. Whether the session
/// runs is taken to change once the action has been done.
pub fn handle_event(running: bool, event: XrEvent) -> (r: Result<(bool, SessionAction), SessionError>)
    ensures
        r == event_outcome(running, event),
{
    match event {
        XrEvent::SessionStateChanged(state) => match state {
            SessionState::Ready => Ok((true, SessionAction::Begin)),
            SessionState::Stopping => Ok((false, SessionAction::End)),
            SessionState::Exiting => Err(SessionError::SessionExiting),
            SessionState::LossPending => Err(SessionError::SessionExiting),
            SessionState::Other => Ok((running, SessionAction::Nothing)),
        },
        XrEvent::InstanceLossPending => Err(SessionError::InstanceLossPending),
        XrEvent::EventsLost(n) => Ok((running, SessionAction::WarnEventsLost(n))),
        XrEvent::Other => Ok((running, SessionAction::Nothing)),
    }
}

/// Only ready and stopping events change whether the session runs, and
/// the session is begun exactly on a ready event.
pub proof fn lemma_only_ready_and_stopping_change_running(running: bool, event: XrEvent)
    ensures
        event_outcome(running, event) matches Ok((next, _)) ==> (next != running ==> (event
            == XrEvent::SessionStateChanged(SessionState::Ready) || event
            == XrEvent::SessionStateChanged(SessionState::Stopping))),
        event_outcome(running, event) matches Ok((next, action)) ==> (action == SessionAction::Begin
            <==> next && event == XrEvent::SessionStateChanged(SessionState::Ready)),
{
}

/// Whether an event means the runtime is going away: the session is
/// exiting or about to be lost, or the instance is about to be lost.
pub open spec fn runtime_going_away(event: XrEvent) -> bool {
    ||| event == XrEvent::SessionStateChanged(SessionState::Exiting)
    ||| event == XrEvent::SessionStateChanged(SessionState::LossPending)
    ||| event == XrEvent::InstanceLossPending
}

/// The program stops on an event exactly when the runtime is going away,
/// whether or not the session is running then: an exiting or lost session
/// stops it as a session error, a lost instance as an instance error.
/// Every other event leaves it polling.
pub proof fn lemma_stops_exactly_when_runtime_goes_away(running: bool, event: XrEvent)
    ensures
        event_outcome(running, event) is Err <==> runtime_going_away(event),
        event == XrEvent::SessionStateChanged(SessionState::Exiting) ==> event_outcome(
            running,
            event,
        ) == Err::<(bool, SessionAction), SessionError>(SessionError::SessionExiting),
        event == XrEvent::SessionStateChanged(SessionState::LossPending) ==> event_outcome(
            running,
            event,
        ) == Err::<(bool, SessionAction), SessionError>(SessionError::SessionExiting),
        event == XrEvent::InstanceLossPending ==> event_outcome(running, event) == Err::<
            (bool, SessionAction),
            SessionError,
        >(SessionError::InstanceLossPending),
{
}

/// Whatever the session was doing, a ready event begins it and leaves it
/// running, and a stopping event ends it and leaves it stopped; events
/// that change nothing keep the running state.
pub proof fn lemma_ready_begins_stopping_ends(running: bool, event: XrEvent)
    ensures
        event == XrEvent::SessionStateChanged(SessionState::Ready) ==> event_outcome(running, event)
            == Ok::<(bool, SessionAction), SessionError>((true, SessionAction::Begin)),
        event == XrEvent::SessionStateChanged(SessionState::Stopping) ==> event_outcome(
            running,
            event,
        ) == Ok::<(bool, SessionAction), SessionError>((false, SessionAction::End)),
        event_outcome(running, event) matches Ok((next, action)) ==> ((action is Nothing
            || action is WarnEventsLost) ==> next == running),
        event matches XrEvent::EventsLost(n) ==> event_outcome(running, event) == Ok::<
            (bool, SessionAction),
            SessionError,
        >((running, SessionAction::WarnEventsLost(n))),
{
}

/// The extensions to enable when creating the runtime instance.
#[derive(Clone, Copy, Debug, PartialEq, Eq, Structural)]
pub struct ExtensionChoice {
    pub mnd_headless: bool,
    pub khr_convert_timespec_time: bool,
    pub ext_hand_tracking: bool,
}

/// Why the runtime cannot be used.
#[derive(Clone, Copy, Debug, PartialEq, Eq, Structural)]
pub enum InitError {
    /// The runtime has no headless sessions.
    MissingHeadless,
}

/// Chooses the extensions from those the runtime offers: headless sessions
/// are required and enabled, as is the conversion of timestamps; hand
/// tracking is enabled when offered.
pub fn choose_extensions(headless_available: bool, hand_tracking_available: bool) -> (r: Result<
    ExtensionChoice,
    InitError,
>)
    ensures
        !headless_available ==> r == Err::<ExtensionChoice, InitError>(InitError::MissingHeadless),
        headless_available ==> r == Ok::<ExtensionChoice, InitError>(
            ExtensionChoice {
                mnd_headless: true,
                khr_convert_timespec_time: true,
                ext_hand_tracking: hand_tracking_available,
            },
        ),
{
    if !headless_available {
        return Err(InitError::MissingHeadless);
    }
    Ok(
        ExtensionChoice {
            mnd_headless: true,
            khr_convert_timespec_time: true,
            ext_hand_tracking: hand_tracking_available,
        },
    )
}

} // verus!
