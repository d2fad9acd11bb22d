//! Transport decisions: the order in which a raw TCP socket is configured
//! and connected, and the pacing of fragmented writes.
use vstd::prelude::*;

verus! {

/// Minimum spacing between two fragmented writes, in milliseconds.
pub const PACING_MS: u64 = 5;

/// Chunk size of a fragmented handshake.
pub const HANDSHAKE_CHUNK: usize = 5;

/// Chunk size large enough that fragmentation changes nothing.
pub const UNBOUNDED_CHUNK: usize = 1048576;

#[derive(Clone, Copy, Debug, PartialEq, Eq, Structural)]
pub enum AddressFamily {
    V4,
    V6,
}

/// One step of opening an adversarial connection.
#[derive(Clone, Copy, Debug, PartialEq, Eq, Structural)]
pub enum SocketStep {
    /// Create a TCP stream socket of this family.
    Open(AddressFamily),
    /// `SO_LINGER` with a zero timeout, so that closing sends RST.
    SetLingerZero,
    /// `TCP_NODELAY` on.
    SetNoDelay,
    /// Non-blocking mode.
    SetNonBlocking,
    /// Bind to the caller's local address.
    BindLocal,
    /// Start connecting; "would block" means the connect is in progress.
    Connect,
    /// Hand the socket to the async reactor.
    HandOff,
}

/// The steps, in order: open, every option, the optional bind, connect,
/// hand-off.
pub open spec fn connect_steps(family: AddressFamily, bind_local: bool) -> Seq<SocketStep> {
    seq![
        SocketStep::Open(family),
        SocketStep::SetLingerZero,
        SocketStep::SetNoDelay,
        SocketStep::SetNonBlocking,
    ] + if bind_local {
        seq![SocketStep::BindLocal]
    } else {
        Seq::empty()
    } + seq![SocketStep::Connect, SocketStep::HandOff]
}

pub open spec fn is_socket_option(s: SocketStep) -> bool {
    s is SetLingerZero || s is SetNoDelay || s is SetNonBlocking
}

/// Every socket option, `SO_LINGER = 0` first among them, is set before the
/// connect, which happens exactly once and after the optional bind.
pub proof fn lemma_options_before_connect(family: AddressFamily, bind_local: bool)
    ensures
        ({
            let s = connect_steps(family, bind_local);
            &&& s[1] is SetLingerZero
            &&& exists|c: int| 0 <= c < s.len() && #[trigger] s[c] is Connect
            &&& forall|i: int, j: int|
                0 <= i < s.len() && 0 <= j < s.len() && (is_socket_option(#[trigger] s[i])
                    || s[i] is BindLocal) && #[trigger] s[j] is Connect ==> i < j
            &&& forall|i: int, j: int|
                0 <= i < s.len() && 0 <= j < s.len() && #[trigger] s[i] is Connect
                    && #[trigger] s[j] is Connect ==> i == j
        }),
{
    let s = connect_steps(family, bind_local);
    let c: int = if bind_local {
        5
    } else {
        4
    };
    assert(s[c] is Connect);
}

/// Builds adversarial transports.
pub struct TransportBuilder;

impl TransportBuilder {
    /// The steps that open a connection to an address of `family`, binding
    /// first to a local address when `bind_local` holds.
    pub fn connect_plan(family: AddressFamily, bind_local: bool) -> (r: Vec<SocketStep>)
        ensures
            r@ == connect_steps(family, bind_local),
    {
        let mut steps: Vec<SocketStep> = Vec::new();
        steps.push(SocketStep::Open(family));
        steps.push(SocketStep::SetLingerZero);
        steps.push(SocketStep::SetNoDelay);
        steps.push(SocketStep::SetNonBlocking);
        if bind_local {
            steps.push(SocketStep::BindLocal);
        }
        steps.push(SocketStep::Connect);
        steps.push(SocketStep::HandOff);
        assert(steps@ =~= connect_steps(family, bind_local));
        steps
    }

    /// Wraps a stream so that its writes are paced in chunks of `chunk_size`.
    pub fn wrap_fragmented<S>(stream: S, chunk_size: usize) -> (r: FragmentedStream<S>)
        ensures
            r.inner == stream,
            r.pacer == (FragmentPacer { chunk_size, last_write_ms: None }),
    {
        FragmentedStream { inner: stream, pacer: FragmentPacer::new(chunk_size) }
    }

    /// The chunk size a profile asks for.
    pub fn chunk_size_for(fragment_handshake: bool) -> (r: usize)
        ensures
            r == if fragment_handshake {
                HANDSHAKE_CHUNK
            } else {
                UNBOUNDED_CHUNK
            },
    {
        if fragment_handshake {
            HANDSHAKE_CHUNK
        } else {
            UNBOUNDED_CHUNK
        }
    }
}

/// Pacing state of a fragmenting writer.
#[derive(Clone, Copy, Debug, PartialEq, Eq, Structural)]
pub struct FragmentPacer {
    pub chunk_size: usize,
    /// When the last write that moved bytes happened, in milliseconds.
    pub last_write_ms: Option<u64>,
}

/// What a fragmenting writer does with a write request.
#[derive(Clone, Copy, Debug, PartialEq, Eq, Structural)]
pub enum WriteStep {
    /// The pacing interval has not elapsed: wait and try again.
    Wait,
    /// A zero chunk size can move nothing: report 0 bytes written.
    WriteZero,
    /// Pass the first `len` bytes to the underlying stream.
    Write { len: usize },
}

pub open spec fn write_step(p: FragmentPacer, now_ms: u64, buf_len: usize) -> WriteStep {
    if p.last_write_ms matches Some(t) && now_ms < t + PACING_MS {
        WriteStep::Wait
    } else if buf_len > 0 && p.chunk_size == 0 {
        WriteStep::WriteZero
    } else if buf_len < p.chunk_size {
        WriteStep::Write { len: buf_len }
    } else {
        WriteStep::Write { len: p.chunk_size }
    }
}

pub open spec fn after_write(p: FragmentPacer, now_ms: u64, written: usize) -> FragmentPacer {
    if written > 0 {
        FragmentPacer { last_write_ms: Some(now_ms), ..p }
    } else {
        p
    }
}

impl FragmentPacer {
    pub fn new(chunk_size: usize) -> (r: FragmentPacer)
        ensures
            r == (FragmentPacer { chunk_size, last_write_ms: None }),
    {
        FragmentPacer { chunk_size, last_write_ms: None }
    }

    /// What to do with a write of `buf_len` bytes requested at `now_ms`.
    pub fn poll_write(&self, now_ms: u64, buf_len: usize) -> (r: WriteStep)
        ensures
            r == write_step(*self, now_ms, buf_len),
    {
        match self.last_write_ms {
            Some(t) => {
                if now_ms < t || now_ms - t < PACING_MS {
                    return WriteStep::Wait;
                }
            },
            None => {},
        }
        if buf_len > 0 && self.chunk_size == 0 {
            WriteStep::WriteZero
        } else if buf_len < self.chunk_size {
            WriteStep::Write { len: buf_len }
        } else {
            WriteStep::Write { len: self.chunk_size }
        }
    }

    /// Records that the underlying stream took `written` bytes at `now_ms`;
    /// a write that moved bytes starts a new pacing interval.
    pub fn record_write(&mut self, now_ms: u64, written: usize)
        ensures
            *final(self) == after_write(*old(self), now_ms, written),
    {
        if written > 0 {
            self.last_write_ms = Some(now_ms);
        }
    }
}

/// No write passed to the underlying stream exceeds the chunk size or the
/// request, and after a write that moved bytes the next one comes at least
/// `PACING_MS` later.
pub proof fn lemma_writes_paced(
    p: FragmentPacer,
    t1: u64,
    len1: usize,
    written: usize,
    t2: u64,
    len2: usize,
)
    requires
        write_step(p, t1, len1) is Write,
        0 < written,
        write_step(after_write(p, t1, written), t2, len2) is Write,
    ensures
        write_step(p, t1, len1)->len <= p.chunk_size,
        write_step(p, t1, len1)->len <= len1,
        write_step(after_write(p, t1, written), t2, len2)->len <= p.chunk_size,
        t2 >= t1 + PACING_MS,
{
}

/// A stream whose writes go through a pacer.
pub struct FragmentedStream<S> {
    pub inner: S,
    pub pacer: FragmentPacer,
}

} // verus!
