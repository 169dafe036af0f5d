//! The open or closed state of the device session.
//!
//! A session stands for a pair of handles on the bus device, one to receive
//! and one to send. The handles themselves live with the program that does
//! the input and output; it tells the session how each operation ended, and
//! the session says whether the device is still held.

use vstd::prelude::*;

verus! {

/// Whether the device is held.
#[derive(Clone, Copy, Debug, PartialEq, Eq, Structural)]
pub enum SessionState {
    Closed,
    Open,
}

/// Why a session could not be opened.
#[derive(Clone, Copy, Debug, PartialEq, Eq, Structural)]
pub enum OpenError {
    /// The handle to receive could not be acquired.
    Receive,
    /// The handle to receive was acquired, the handle to send was not.
    Send,
}

/// A frame could not be read from the device.
#[derive(Clone, Copy, Debug, PartialEq, Eq, Structural)]
pub struct ReadError;

/// A frame could not be written to the device.
#[derive(Clone, Copy, Debug, PartialEq, Eq, Structural)]
pub struct WriteError;

/// The session with the bus device.
#[derive(Clone, Copy, Debug, PartialEq, Eq, Structural)]
pub struct DeviceSession {
    state: SessionState,
}

impl DeviceSession {
    /// The state of the session.
    pub closed spec fn state_of(&self) -> SessionState {
        self.state
    }

    /// Whether the device is held.
    pub open spec fn is_open_spec(&self) -> bool {
        self.state_of() == SessionState::Open
    }

    /// A session that holds no device.
    pub fn closed() -> (session: DeviceSession)
        ensures
            session.state_of() == SessionState::Closed,
    {
        DeviceSession { state: SessionState::Closed }
    }

    /// The session that results from trying to acquire both handles. It is
    /// open if both were acquired; there is no session with one handle.
    pub fn open(receive_acquired: bool, send_acquired: bool) -> (opened: Result<
        DeviceSession,
        OpenError,
    >)
        ensures
            match opened {
                Ok(session) => receive_acquired && send_acquired && session.state_of()
                    == SessionState::Open,
                Err(OpenError::Receive) => !receive_acquired,
                Err(OpenError::Send) => receive_acquired && !send_acquired,
            },
    {
        if !receive_acquired {
            Err(OpenError::Receive)
        } else if !send_acquired {
            Err(OpenError::Send)
        } else {
            Ok(DeviceSession { state: SessionState::Open })
        }
    }

    /// The state of the session.
    pub fn state(&self) -> (state: SessionState)
        ensures
            state == self.state_of(),
    {
        self.state
    }

    /// Whether the device is held.
    #[verifier::when_used_as_spec(is_open_spec)]
    pub fn is_open(&self) -> (open: bool)
        ensures
            open == self.is_open_spec(),
        no_unwind
    {
        match self.state {
            SessionState::Open => true,
            SessionState::Closed => false,
        }
    }

    /// Takes note of how reading the next frame ended. A failure closes the
    /// session; on a closed session nothing can be read.
    pub fn frame_read(&mut self, succeeded: bool) -> (read: Result<(), ReadError>)
        ensures
            read is Ok <==> old(self).is_open() && succeeded,
            final(self).is_open() <==> old(self).is_open() && succeeded,
        no_unwind
    {
        if self.is_open() && succeeded {
            Ok(())
        } else {
            self.state = SessionState::Closed;
            Err(ReadError)
        }
    }

    /// Takes note of how writing a frame ended. A failure closes the
    /// session; on a closed session nothing can be written.
    pub fn frame_written(&mut self, succeeded: bool) -> (written: Result<(), WriteError>)
        ensures
            written is Ok <==> old(self).is_open() && succeeded,
            final(self).is_open() <==> old(self).is_open() && succeeded,
        no_unwind
    {
        if self.is_open() && succeeded {
            Ok(())
        } else {
            self.state = SessionState::Closed;
            Err(WriteError)
        }
    }

    /// Gives the device up.
    pub fn close(&mut self)
        ensures
            !final(self).is_open(),
        no_unwind
    {
        self.state = SessionState::Closed;
    }
}

} // verus!
