use vstd::prelude::*;

verus! {

/// Why a session request was refused.
#[derive(Clone, Copy, Debug, PartialEq, Eq, Structural)]
pub enum SessionError {
    /// A stop was asked for while no capture was running.
    NotStarted,
}

/// State of the element's capture session: either nothing runs, or a capture
/// stream of type `S` does.
pub enum Session<S> {
    Stopped,
    Started { stream: S },
}

impl<S> Session<S> {
    /// A session in which nothing runs yet.
    pub fn new() -> (r: Self)
        ensures
            r is Stopped,
    {
        Session::Stopped
    }

    /// Whether a capture stream runs.
    pub fn is_started(&self) -> (r: bool)
        ensures
            r == (*self is Started),
    {
        match self {
            Session::Stopped => false,
            Session::Started { .. } => true,
        }
    }

    /// Records that `stream` now captures. A stream that ran before is given
    /// back to the caller, who lets it go.
    pub fn start(&mut self, stream: S) -> (prev: Option<S>)
        ensures
            *final(self) == (Session::Started { stream }),
            prev == (match *old(self) {
                Session::Stopped => None,
                Session::Started { stream } => Some(stream),
            }),
    {
        let mut next = Session::Started { stream };
        core::mem::swap(self, &mut next);
        match next {
            Session::Stopped => None,
            Session::Started { stream } => Some(stream),
        }
    }

    /// Ends the running capture: the session becomes stopped and its stream
    /// is handed to the caller, who stops it. Without a running capture the
    /// request is refused and nothing changes.
    pub fn stop(&mut self) -> (r: Result<S, SessionError>)
        ensures
            *final(self) is Stopped,
            r == (match *old(self) {
                Session::Stopped => Err(SessionError::NotStarted),
                Session::Started { stream } => Ok(stream),
            }),
    {
        let mut prev = Session::Stopped;
        core::mem::swap(self, &mut prev);
        match prev {
            Session::Stopped => Err(SessionError::NotStarted),
            Session::Started { stream } => Ok(stream),
        }
    }
}

impl<S> Default for Session<S> {
    fn default() -> (r: Self)
        ensures
            r is Stopped,
    {
        Session::Stopped
    }
}

} // verus!
