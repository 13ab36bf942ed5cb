//! The handshake between a capture request and its completion.
//!
//! A client names an output and a buffer. The memory pool behind the buffer
//! is taken back from the domain and becomes the target of the capture; the
//! domain then captures asynchronously and reports when it is done.

use vstd::prelude::*;
use crate::defs::{ClientId, Memory, MemoryPoolId, ObjectId};
use crate::effect::{Diagnostic, Effect};

verus! {

/// Where a session stands in the handshake. Between `AwaitingCapture` and
/// `Idle` lies the fulfilling step, which `finish` performs in one go.
#[derive(Clone, Copy, Debug, PartialEq, Eq, Structural)]
pub enum ScreenshotState {
    /// No request is outstanding.
    Idle,
    /// The pool behind the target buffer is being taken back.
    Requested { requester: ObjectId, output: Option<i32> },
    /// The domain is capturing.
    AwaitingCapture { requester: ObjectId },
}

/// The handshake of one session: its state and the memory it holds. Memory
/// once taken back is kept, also after a failure, until other memory
/// replaces it.
#[derive(Clone, Copy, Debug, PartialEq, Eq, Structural)]
pub struct Handshake {
    pub state: ScreenshotState,
    pub memory: Option<Memory>,
}

/// The step that starts the capture, or fails: with memory in hand and a
/// known output the domain is asked to capture and the session is registered
/// as the requester; otherwise the failure is reported and the handshake is
/// idle again.
pub open spec fn begun(
    memory: Option<Memory>,
    client: ClientId,
    requester: ObjectId,
    output: Option<i32>,
) -> (Handshake, Seq<Effect>) {
    if memory is None {
        (
            Handshake { state: ScreenshotState::Idle, memory },
            seq![Effect::Report { diagnostic: Diagnostic::ScreenshotMemoryMissing }],
        )
    } else if output is None {
        (
            Handshake { state: ScreenshotState::Idle, memory },
            seq![Effect::Report { diagnostic: Diagnostic::ScreenshotOutputUnknown }],
        )
    } else {
        (
            Handshake { state: ScreenshotState::AwaitingCapture { requester }, memory },
            seq![
                Effect::TakeScreenshot { output: output->0 },
                Effect::RegisterScreenshoter { client: Some(client) },
            ],
        )
    }
}

/// A request arrives. While another is outstanding it is turned down with one
/// report and nothing else changes. Otherwise, where the target buffer has a
/// pool, the pool is taken back first; where it has none, the capture starts
/// with the memory already held.
pub open spec fn requested(
    h: Handshake,
    client: ClientId,
    requester: ObjectId,
    output: Option<i32>,
    pool: Option<MemoryPoolId>,
) -> (Handshake, Seq<Effect>) {
    if h.state != ScreenshotState::Idle {
        (h, seq![Effect::Report { diagnostic: Diagnostic::ScreenshotPending }])
    } else if pool is Some {
        (
            Handshake { state: ScreenshotState::Requested { requester, output }, memory: h.memory },
            seq![Effect::ReclaimMemoryPool { pool: pool->0 }],
        )
    } else {
        begun(h.memory, client, requester, output)
    }
}

/// The domain has handed the pool's memory back, or had none to hand back.
/// Outside the `Requested` state this is ignored.
pub open spec fn reclaimed(h: Handshake, client: ClientId, memory: Option<Memory>) -> (
    Handshake,
    Seq<Effect>,
) {
    match h.state {
        ScreenshotState::Requested { requester, output } => begun(memory, client, requester, output),
        _ => (h, Seq::empty()),
    }
}

/// The domain has finished capturing. The pixels are copied if there are any
/// and there is memory for them; a copy that cannot be made is reported. In
/// either case the requester is told that the capture is done and the
/// mediator's requester slot is cleared. Outside the `AwaitingCapture` state
/// this is ignored.
pub open spec fn finished(h: Handshake, captured: bool) -> (Handshake, Seq<Effect>) {
    match h.state {
        ScreenshotState::AwaitingCapture { requester } => (
            Handshake { state: ScreenshotState::Idle, memory: h.memory },
            seq![
                if captured && h.memory is Some {
                    Effect::CopyScreenshot
                } else {
                    Effect::Report { diagnostic: Diagnostic::ScreenshotCopySkipped }
                },
                Effect::ScreenshooterDone { screenshooter: requester },
                Effect::RegisterScreenshoter { client: None },
            ],
        ),
        _ => (h, Seq::empty()),
    }
}

impl Handshake {
    pub fn new() -> (h: Self)
        ensures
            h == (Handshake { state: ScreenshotState::Idle, memory: None }),
    {
        Handshake { state: ScreenshotState::Idle, memory: None }
    }

    /// Whether no request is outstanding.
    pub fn is_idle(&self) -> (idle: bool)
        ensures
            idle == (self.state == ScreenshotState::Idle),
    {
        match self.state {
            ScreenshotState::Idle => true,
            _ => false,
        }
    }

    fn begin(&mut self, client: ClientId, requester: ObjectId, output: Option<i32>) -> (effects: Vec<
        Effect,
    >)
        ensures
            (*final(self), effects@) == begun(old(self).memory, client, requester, output),
    {
        let mut effects: Vec<Effect> = Vec::new();
        if self.memory.is_none() {
            self.state = ScreenshotState::Idle;
            effects.push(Effect::Report { diagnostic: Diagnostic::ScreenshotMemoryMissing });
        } else {
            match output {
                Some(id) => {
                    self.state = ScreenshotState::AwaitingCapture { requester };
                    effects.push(Effect::TakeScreenshot { output: id });
                    effects.push(Effect::RegisterScreenshoter { client: Some(client) });
                },
                None => {
                    self.state = ScreenshotState::Idle;
                    effects.push(Effect::Report { diagnostic: Diagnostic::ScreenshotOutputUnknown });
                },
            }
        }
        assert(effects@ =~= begun(old(self).memory, client, requester, output).1);
        effects
    }

    /// Takes a request from `requester` for the output `output`, the target
    /// buffer being backed by `pool`.
    pub fn request(
        &mut self,
        client: ClientId,
        requester: ObjectId,
        output: Option<i32>,
        pool: Option<MemoryPoolId>,
    ) -> (effects: Vec<Effect>)
        ensures
            (*final(self), effects@) == requested(*old(self), client, requester, output, pool),
    {
        if !self.is_idle() {
            let mut effects: Vec<Effect> = Vec::new();
            effects.push(Effect::Report { diagnostic: Diagnostic::ScreenshotPending });
            assert(effects@ =~= seq![Effect::Report { diagnostic: Diagnostic::ScreenshotPending }]);
            return effects;
        }
        match pool {
            Some(pool) => {
                self.state = ScreenshotState::Requested { requester, output };
                let mut effects: Vec<Effect> = Vec::new();
                effects.push(Effect::ReclaimMemoryPool { pool });
                assert(effects@ =~= seq![Effect::ReclaimMemoryPool { pool }]);
                effects
            },
            None => self.begin(client, requester, output),
        }
    }

    /// Takes the memory that the domain handed back for the pool.
    pub fn reclaim(&mut self, client: ClientId, memory: Option<Memory>) -> (effects: Vec<Effect>)
        ensures
            (*final(self), effects@) == reclaimed(*old(self), client, memory),
    {
        match self.state {
            ScreenshotState::Requested { requester, output } => {
                self.memory = memory;
                self.begin(client, requester, output)
            },
            _ => Vec::new(),
        }
    }

    /// Takes the domain's word that the capture is done; `captured` says
    /// whether it has pixels to copy.
    pub fn finish(&mut self, captured: bool) -> (effects: Vec<Effect>)
        ensures
            (*final(self), effects@) == finished(*old(self), captured),
    {
        match self.state {
            ScreenshotState::AwaitingCapture { requester } => {
                let mut effects: Vec<Effect> = Vec::new();
                if captured && self.memory.is_some() {
                    effects.push(Effect::CopyScreenshot);
                } else {
                    effects.push(Effect::Report { diagnostic: Diagnostic::ScreenshotCopySkipped });
                }
                effects.push(Effect::ScreenshooterDone { screenshooter: requester });
                effects.push(Effect::RegisterScreenshoter { client: None });
                self.state = ScreenshotState::Idle;
                assert(effects@ =~= finished(*old(self), captured).1);
                effects
            },
            _ => Vec::new(),
        }
    }
}

} // verus!
