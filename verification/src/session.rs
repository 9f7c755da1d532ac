//! The handshake that switches a freshly opened channel from the
//! device's text shell into RPC mode.
//!
//! The session starts disconnected, enters the pending handshake when
//! the channel opens, and reaches the active RPC state exactly when both
//! the textual prompt marker and the post-command newline have been
//! observed; a timeout at either drain step fails the handshake for
//! good.  The state machine here makes every decision; the driver only
//! reads bytes, writes what [`Handshake::step`] tells it to, and reports
//! timeouts.

use vstd::prelude::*;

use crate::error::Error;
use crate::scan::{MarkerScanner, SCAN_WINDOW, spec_occurs, spec_tail};

verus! {

/// The prompt the device's text shell prints when it is ready: `">: "`.
pub open spec fn spec_prompt_bytes() -> Seq<u8> {
    seq![62u8, 58u8, 32u8]
}

/// The characters of the prompt marker, for error reporting.
pub open spec fn spec_prompt_chars() -> Seq<char> {
    ">: "@
}

/// The newline byte that acknowledges the mode-switch command.
pub open spec fn spec_newline_bytes() -> Seq<u8> {
    seq![10u8]
}

/// The characters of the newline marker, for error reporting.
pub open spec fn spec_newline_chars() -> Seq<char> {
    "\n"@
}

/// The text command that switches the device into RPC mode, terminated
/// by a carriage return.
pub fn mode_switch_command() -> (r: &'static str)
    ensures
        r@ == "start_rpc_session\r"@,
{
    "start_rpc_session\r"
}

/// Where a session stands.
#[derive(Debug, Clone, Copy, PartialEq, Eq, Structural)]
pub enum SessionMode {
    /// No channel has been opened yet.
    Disconnected,
    /// The channel is open; the handshake is draining for the prompt.
    AwaitPrompt,
    /// The mode-switch command was written; draining for the newline.
    AwaitNewline,
    /// The device is in RPC mode.  Terminal: no transition leaves it.
    RpcActive,
    /// A drain step timed out.  Terminal: the session is unusable.
    Failed,
}

/// What the driver heard from the channel since the last step.
#[derive(Debug, Clone, PartialEq)]
pub enum HandshakeEvent {
    /// Some bytes arrived (possibly none).
    Bytes(Vec<u8>),
    /// The configured timeout elapsed without the marker appearing.
    TimedOut,
}

/// What the driver must do next.
#[derive(Debug, Clone, PartialEq)]
pub enum HandshakeAction {
    /// Keep reading from the channel and report again.
    KeepReading,
    /// Write the mode-switch command, flush, then keep reading.
    SendModeSwitch,
    /// The handshake is complete; the session is in RPC mode.
    Established,
    /// The handshake failed; discard the session.
    Fail(Error),
}

/// The handshake state machine.
pub struct Handshake {
    mode: SessionMode,
    scanner: MarkerScanner,
}

impl Handshake {
    /// The session's current mode.
    pub closed spec fn mode_view(&self) -> SessionMode {
        self.mode
    }

    /// The trailing stream bytes the drain still holds.
    pub closed spec fn pending_view(&self) -> Seq<u8> {
        self.scanner.window_view()
    }

    /// The scanner matches the phase: the prompt marker while awaiting
    /// the prompt, the newline afterwards.
    pub closed spec fn wf(&self) -> bool {
        &&& self.scanner.wf()
        &&& (self.mode == SessionMode::AwaitPrompt ==> self.scanner.marker_view()
            == spec_prompt_bytes())
        &&& (self.mode == SessionMode::AwaitNewline ==> self.scanner.marker_view()
            == spec_newline_bytes())
    }

    /// A handshake over a freshly opened channel, draining for the
    /// prompt.
    pub fn new() -> (r: Handshake)
        ensures
            r.wf(),
            r.mode_view() == SessionMode::AwaitPrompt,
            r.pending_view() == Seq::<u8>::empty(),
    {
        let mut marker: Vec<u8> = Vec::new();
        marker.push(62);
        marker.push(58);
        marker.push(32);
        proof {
            assert(marker@ =~= spec_prompt_bytes());
        }
        Handshake { mode: SessionMode::AwaitPrompt, scanner: MarkerScanner::new(marker) }
    }

    /// Advances the handshake on one event.  While draining for the
    /// prompt, bytes containing the prompt marker (within the kept
    /// window) switch to draining for the newline and ask the driver to
    /// write the mode-switch command; while draining for the newline, a
    /// newline byte completes the handshake.  A timeout at either step
    /// fails the session for good, naming the marker that was not found.
    pub fn step(&mut self, event: HandshakeEvent) -> (r: HandshakeAction)
        requires
            old(self).wf(),
            old(self).mode_view() == SessionMode::AwaitPrompt || old(self).mode_view()
                == SessionMode::AwaitNewline,
        ensures
            final(self).wf(),
            match event {
                HandshakeEvent::TimedOut => {
                    &&& final(self).mode_view() == SessionMode::Failed
                    &&& (r matches HandshakeAction::Fail(e) && (match e {
                        Error::Timeout(marker) => marker@ == if old(self).mode_view()
                            == SessionMode::AwaitPrompt {
                            spec_prompt_chars()
                        } else {
                            spec_newline_chars()
                        },
                        _ => false,
                    }))
                },
                HandshakeEvent::Bytes(b) => {
                    let seen = old(self).pending_view() + b@;
                    let marker = if old(self).mode_view() == SessionMode::AwaitPrompt {
                        spec_prompt_bytes()
                    } else {
                        spec_newline_bytes()
                    };
                    if spec_occurs(seen, marker) {
                        if old(self).mode_view() == SessionMode::AwaitPrompt {
                            &&& final(self).mode_view() == SessionMode::AwaitNewline
                            &&& final(self).pending_view() == Seq::<u8>::empty()
                            &&& r is SendModeSwitch
                        } else {
                            &&& final(self).mode_view() == SessionMode::RpcActive
                            &&& r is Established
                        }
                    } else {
                        &&& final(self).mode_view() == old(self).mode_view()
                        &&& final(self).pending_view() == spec_tail(seen, SCAN_WINDOW as int)
                        &&& r is KeepReading
                    }
                },
            },
    {
        match event {
            HandshakeEvent::TimedOut => {
                let marker = if self.mode == SessionMode::AwaitPrompt {
                    ">: "
                } else {
                    "\n"
                };
                self.mode = SessionMode::Failed;
                HandshakeAction::Fail(Error::Timeout(marker.to_owned()))
            },
            HandshakeEvent::Bytes(b) => {
                let found = self.scanner.feed(b.as_slice());
                if found {
                    if self.mode == SessionMode::AwaitPrompt {
                        let mut newline: Vec<u8> = Vec::new();
                        newline.push(10);
                        proof {
                            assert(newline@ =~= spec_newline_bytes());
                        }
                        self.scanner = MarkerScanner::new(newline);
                        self.mode = SessionMode::AwaitNewline;
                        HandshakeAction::SendModeSwitch
                    } else {
                        self.mode = SessionMode::RpcActive;
                        HandshakeAction::Established
                    }
                } else {
                    HandshakeAction::KeepReading
                }
            },
        }
    }
}

} // verus!
