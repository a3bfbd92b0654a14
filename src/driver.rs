use vstd::prelude::*;
use crate::backend_name::{kind_of_name, select_backend, BackendKind};
use crate::render_state::{argb, color_from_argb, default_render_state, RenderState};
use crate::script::{decode, parse_script, DecodeError};

verus! {

/// A message to the windowed backend's event loop.
#[derive(Debug)]
pub enum UserEvent {
    Start,
    Stop,
    SetText(String),
    SetRenderState(RenderState),
}

/// How a committed change reaches the backend thread: a message to the
/// windowed event loop, or the dirty flag that a polling loop checks.
#[derive(Debug)]
pub enum Signal {
    Event(UserEvent),
    MarkDirty,
}

/// What `start` asks the caller to do.
#[derive(Clone, Copy, Debug, PartialEq, Eq, Structural)]
pub enum StartPlan {
    /// Send `UserEvent::Start` to the existing event loop; on failure call
    /// `resume_failed`.
    Resume,
    /// Spawn a thread for this backend; once it is up, call `install`.
    Spawn(BackendKind),
}

/// What `stop` asks the caller to do.
#[derive(Clone, Copy, Debug, PartialEq, Eq, Structural)]
pub enum StopPlan {
    /// The session was already stopped: nothing.
    Nothing,
    /// Send `UserEvent::Stop` to the event loop; the session stays installed.
    SendStop,
    /// Raise the cancellation flag and join the thread; the session is gone.
    CancelAndJoin,
}

/// Why a command was refused.
#[derive(Clone, Copy, Debug, PartialEq, Eq, Structural)]
pub enum DriverError {
    /// No session exists.
    NoSession,
    /// `start` while a session is running.
    AlreadyRunning,
    /// `set_raster_output` while the session is not an offscreen one.
    RasterNotActive,
    /// The submitted script was refused.
    Script(DecodeError),
}

impl DriverError {
    /// A one-line description for the caller.
    pub fn message(&self) -> (r: String)
        ensures
            r@ == match self {
                DriverError::NoSession => "renderer not running"@,
                DriverError::AlreadyRunning => "renderer already running"@,
                DriverError::RasterNotActive => "raster backend not active"@,
                DriverError::Script(e) => e.spec_message(),
            },
    {
        match self {
            DriverError::NoSession => String::from_str("renderer not running"),
            DriverError::AlreadyRunning => String::from_str("renderer already running"),
            DriverError::RasterNotActive => String::from_str("raster backend not active"),
            DriverError::Script(e) => e.message(),
        }
    }
}

/// The one active session: which backend runs it, whether it is running,
/// and the text and render state last committed for it.
pub struct Session {
    pub kind: BackendKind,
    pub running: bool,
    pub text: String,
    pub render_state: RenderState,
}

/// The text a new session shows.
pub open spec fn initial_text() -> Seq<char> {
    "Hello, Wayland"@
}

/// The session that `install` creates for `kind`.
pub open spec fn is_fresh_session(s: Session, kind: BackendKind) -> bool {
    &&& s.kind == kind
    &&& s.running
    &&& s.text@ == initial_text()
    &&& s.render_state == default_render_state()
}

/// How a change reaches a backend of `kind`: `event` for the windowed one,
/// the dirty flag for the polling ones.
pub open spec fn signal_for(kind: BackendKind, event: UserEvent) -> Signal {
    match kind {
        BackendKind::Wayland => Signal::Event(event),
        _ => Signal::MarkDirty,
    }
}

/// What `start` does to `session` when `requested` is the backend the name
/// selects: a stopped windowed session is resumed in place, any other
/// session refuses, and with none a thread for `requested` is to be spawned.
pub open spec fn start_outcome(session: Option<Session>, requested: BackendKind) -> (
    Option<Session>,
    Result<StartPlan, DriverError>,
) {
    match session {
        Some(s) => if s.kind == BackendKind::Wayland && !s.running {
            (Some(Session { running: true, ..s }), Ok(StartPlan::Resume))
        } else {
            (session, Err(DriverError::AlreadyRunning))
        },
        None => (None, Ok(StartPlan::Spawn(requested))),
    }
}

/// What `stop` does to `session`: a windowed session is marked stopped and
/// stays installed until its thread ends; a polling session is removed.
pub open spec fn stop_outcome(session: Option<Session>) -> (
    Option<Session>,
    Result<StopPlan, DriverError>,
) {
    match session {
        None => (None, Err(DriverError::NoSession)),
        Some(s) => if !s.running {
            (session, Ok(StopPlan::Nothing))
        } else if s.kind == BackendKind::Wayland {
            (Some(Session { running: false, ..s }), Ok(StopPlan::SendStop))
        } else {
            (None, Ok(StopPlan::CancelAndJoin))
        },
    }
}

/// The owner of the single session. Every command goes through it; at most
/// one session exists at a time.
pub struct Supervisor {
    pub session: Option<Session>,
}

impl Supervisor {
    /// A supervisor with no session.
    pub fn new() -> (d: Supervisor)
        ensures
            d.session is None,
    {
        Supervisor { session: None }
    }

    /// Installs the session of a freshly spawned backend thread.
    pub fn install(&mut self, kind: BackendKind)
        requires
            old(self).session is None,
        ensures
            final(self).session is Some,
            is_fresh_session(final(self).session->Some_0, kind),
    {
        let render_state = RenderState::default();
        self.session = Some(
            Session { kind, running: true, text: String::from_str("Hello, Wayland"), render_state },
        );
    }

    /// Undoes the resume of a windowed session whose event loop could not be
    /// told to start.
    pub fn resume_failed(&mut self)
        ensures
            match old(self).session {
                Some(s) => final(self).session == Some(Session { running: false, ..s }),
                None => final(self).session is None,
            },
    {
        if let Some(s) = &mut self.session {
            s.running = false;
        }
    }

    /// Commits `next` as the render state and says how to tell the backend.
    fn commit_render_state(&mut self, next: RenderState) -> (sig: Signal)
        requires
            old(self).session is Some,
        ensures
            final(self).session is Some,
            final(self).session->Some_0 == (Session {
                render_state: next,
                ..old(self).session->Some_0
            }),
            sig == signal_for(old(self).session->Some_0.kind, UserEvent::SetRenderState(next)),
    {
        match &mut self.session {
            Some(s) => {
                s.render_state = next;
                match s.kind {
                    BackendKind::Wayland => Signal::Event(UserEvent::SetRenderState(next)),
                    _ => Signal::MarkDirty,
                }
            },
            None => Signal::MarkDirty,
        }
    }
}

/// Starts a session on the backend that `backend` names, or resumes a
/// stopped windowed one. Refuses while a session is running, and while a
/// polling session exists at all.
pub fn start(driver: &mut Supervisor, backend: Option<&str>) -> (r: Result<StartPlan, DriverError>)
    ensures
        (final(driver).session, r) == start_outcome(
            old(driver).session,
            kind_of_name(
                match backend {
                    Some(n) => Some(n@),
                    None => None,
                },
            ),
        ),
{
    let requested = select_backend(backend);
    match &mut driver.session {
        Some(s) => {
            if s.kind == BackendKind::Wayland && !s.running {
                s.running = true;
                Ok(StartPlan::Resume)
            } else {
                Err(DriverError::AlreadyRunning)
            }
        },
        None => Ok(StartPlan::Spawn(requested)),
    }
}

/// Stops the session. Stopping a stopped session does nothing.
pub fn stop(driver: &mut Supervisor) -> (r: Result<StopPlan, DriverError>)
    ensures
        (final(driver).session, r) == stop_outcome(old(driver).session),
{
    let remove = match &mut driver.session {
        None => {
            return Err(DriverError::NoSession);
        },
        Some(s) => {
            if !s.running {
                return Ok(StopPlan::Nothing);
            }
            s.running = false;
            s.kind != BackendKind::Wayland
        },
    };
    if remove {
        driver.session = None;
        Ok(StopPlan::CancelAndJoin)
    } else {
        Ok(StopPlan::SendStop)
    }
}

/// Replaces the session's text and says how to tell the backend.
pub fn set_text(driver: &mut Supervisor, text: String) -> (r: Result<Signal, DriverError>)
    ensures
        match old(driver).session {
            None => r == Err::<Signal, DriverError>(DriverError::NoSession) && final(driver).session
                is None,
            Some(s) => final(driver).session == Some(Session { text, ..s }) && r == Ok::<
                Signal,
                DriverError,
            >(signal_for(s.kind, UserEvent::SetText(text))),
        },
{
    match &mut driver.session {
        None => Err(DriverError::NoSession),
        Some(s) => {
            let sig = match s.kind {
                BackendKind::Wayland => Signal::Event(UserEvent::SetText(text.clone())),
                _ => Signal::MarkDirty,
            };
            s.text = text;
            Ok(sig)
        },
    }
}

/// Removes the rectangle and resets the translation of the session's state.
pub fn reset_scene(driver: &mut Supervisor) -> (r: Result<Signal, DriverError>)
    ensures
        match old(driver).session {
            None => r == Err::<Signal, DriverError>(DriverError::NoSession) && final(driver).session
                is None,
            Some(s) => {
                let next = s.render_state.spec_reset();
                final(driver).session == Some(Session { render_state: next, ..s }) && r == Ok::<
                    Signal,
                    DriverError,
                >(signal_for(s.kind, UserEvent::SetRenderState(next)))
            },
        },
{
    let mut next = match &driver.session {
        None => {
            return Err(DriverError::NoSession);
        },
        Some(s) => s.render_state,
    };
    next.reset();
    Ok(driver.commit_render_state(next))
}

/// Sets the session's clear color from red, green, blue and alpha.
pub fn set_clear_color(driver: &mut Supervisor, color: (u8, u8, u8, u8)) -> (r: Result<
    Signal,
    DriverError,
>)
    ensures
        match old(driver).session {
            None => r == Err::<Signal, DriverError>(DriverError::NoSession) && final(driver).session
                is None,
            Some(s) => {
                let next = RenderState {
                    clear_color: argb(color.3, color.0, color.1, color.2),
                    ..s.render_state
                };
                final(driver).session == Some(Session { render_state: next, ..s }) && r == Ok::<
                    Signal,
                    DriverError,
                >(signal_for(s.kind, UserEvent::SetRenderState(next)))
            },
        },
{
    let mut next = match &driver.session {
        None => {
            return Err(DriverError::NoSession);
        },
        Some(s) => s.render_state,
    };
    next.clear_color = color_from_argb(color.3, color.0, color.1, color.2);
    Ok(driver.commit_render_state(next))
}

/// Applies a scene script to the session's state. A refused script leaves
/// the session as it was and signals nothing.
pub fn submit_script(driver: &mut Supervisor, script: &[u8]) -> (r: Result<Signal, DriverError>)
    ensures
        match old(driver).session {
            None => r == Err::<Signal, DriverError>(DriverError::NoSession) && final(driver).session
                is None,
            Some(s) => match decode(script@, s.render_state) {
                Ok(next) => final(driver).session == Some(Session { render_state: next, ..s })
                    && r == Ok::<Signal, DriverError>(
                    signal_for(s.kind, UserEvent::SetRenderState(next)),
                ),
                Err(e) => final(driver).session == old(driver).session && r == Err::<
                    Signal,
                    DriverError,
                >(DriverError::Script(e)),
            },
        },
{
    let mut next = match &driver.session {
        None => {
            return Err(DriverError::NoSession);
        },
        Some(s) => s.render_state,
    };
    match parse_script(script, &mut next) {
        Ok(()) => Ok(driver.commit_render_state(next)),
        Err(e) => Err(DriverError::Script(e)),
    }
}

/// Checks that `path` may be armed as the offscreen output and hands it back;
/// the caller stores it in the output slot and raises the dirty flag.
pub fn set_raster_output(driver: &Supervisor, path: String) -> (r: Result<String, DriverError>)
    ensures
        match driver.session {
            None => r == Err::<String, DriverError>(DriverError::NoSession),
            Some(s) => if s.kind == BackendKind::Raster {
                r == Ok::<String, DriverError>(path)
            } else {
                r == Err::<String, DriverError>(DriverError::RasterNotActive)
            },
        },
{
    match &driver.session {
        None => Err(DriverError::NoSession),
        Some(s) => match s.kind {
            BackendKind::Raster => Ok(path),
            _ => Err(DriverError::RasterNotActive),
        },
    }
}

} // verus!

verus! {

/// `start` refuses whenever the existing session is running or is a polling
/// one; a stopped windowed session is resumed in place, with nothing spawned.
pub proof fn lemma_start_with_session(s: Session, requested: BackendKind)
    ensures
        (s.running || s.kind != BackendKind::Wayland) ==> start_outcome(Some(s), requested) == (
            Some(s),
            Err::<StartPlan, DriverError>(DriverError::AlreadyRunning),
        ),
        (!s.running && s.kind == BackendKind::Wayland) ==> start_outcome(Some(s), requested) == (
            Some(Session { running: true, ..s }),
            Ok::<StartPlan, DriverError>(StartPlan::Resume),
        ),
{
}

/// `stop` with no session fails with `NoSession`. A second `stop` right
/// after a successful one is a no-op on a windowed session, which stays
/// installed; a polling session was removed by the first, so the second
/// finds none.
pub proof fn lemma_stop_twice(session: Option<Session>)
    ensures
        stop_outcome(None).1 == Err::<StopPlan, DriverError>(DriverError::NoSession),
        session is Some && session->Some_0.kind == BackendKind::Wayland ==> ({
            let first = stop_outcome(session);
            let second = stop_outcome(first.0);
            &&& first.1 is Ok
            &&& second.1 == Ok::<StopPlan, DriverError>(StopPlan::Nothing)
            &&& second.0 == first.0
        }),
        session is Some && session->Some_0.kind != BackendKind::Wayland
            && session->Some_0.running ==> stop_outcome(stop_outcome(session).0).1 == Err::<
            StopPlan,
            DriverError,
        >(DriverError::NoSession),
{
}

} // verus!
