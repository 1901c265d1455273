//! The worker that forwards what the inferior writes to its pseudo-terminal:
//! what it does with each thing that happens to it. The caller polls the
//! terminal's master side every `POLL_INTERVAL_MS` milliseconds, reads up to
//! `READ_CHUNK` bytes when it is readable, sends what it is told to forward,
//! and tries the shutdown channel once per poll.

use vstd::prelude::*;

verus! {

/// How long one poll of the terminal waits, in milliseconds.
pub const POLL_INTERVAL_MS: u64 = 42;

/// The most bytes that one read takes from the terminal.
pub const READ_CHUNK: usize = 4096;

/// What happened to the worker.
#[derive(Clone, Debug)]
pub enum ReaderEvent {
    /// A read returned these bytes (at least one).
    Chunk(Vec<u8>),
    /// A read returned no byte: the terminal is closed.
    EndOfFile,
    /// A read would have blocked.
    WouldBlock,
    /// A read failed otherwise.
    ReadFailed,
    /// Forwarding a chunk failed.
    SendFailed,
    /// A shutdown message arrived.
    ShutdownSignalled,
    /// The shutdown channel has no sender left.
    ShutdownDisconnected,
    /// The shutdown channel is empty.
    NoShutdown,
}

/// What the worker does next.
#[derive(Clone, Debug)]
pub enum ReaderAction {
    /// Send this text on, then go on.
    Forward(String),
    Continue,
    Stop,
}

/// The text that decoding bytes as UTF-8 gives, each invalid sequence
/// becoming U+FFFD, as `String::from_utf8_lossy` decodes them.
pub uninterp spec fn lossy_of(b: Seq<u8>) -> Seq<char>;

/// Relies on `String::from_utf8_lossy`: its result depends on the bytes alone.
#[verifier::external_body]
fn utf8_lossy(b: &[u8]) -> (r: String)
    ensures
        r@ == lossy_of(b@),
{
    String::from_utf8_lossy(b).into_owned()
}

/// The worker's decision: a chunk is forwarded as lossily decoded text; a read
/// that would block, a failed send (which is only logged) and an empty
/// shutdown channel let it go on; the end of the output, any other read error,
/// a shutdown message and a shutdown channel without sender stop it.
pub fn reader_step(event: ReaderEvent) -> (r: ReaderAction)
    ensures
        match event {
            ReaderEvent::Chunk(b) => r matches ReaderAction::Forward(s) && s@ == lossy_of(b@),
            ReaderEvent::WouldBlock | ReaderEvent::SendFailed | ReaderEvent::NoShutdown => r is Continue,
            _ => r is Stop,
        },
{
    match event {
        ReaderEvent::Chunk(b) => ReaderAction::Forward(utf8_lossy(b.as_slice())),
        ReaderEvent::WouldBlock | ReaderEvent::SendFailed | ReaderEvent::NoShutdown => ReaderAction::Continue,
        _ => ReaderAction::Stop,
    }
}

} // verus!
