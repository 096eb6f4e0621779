//! Setting up the event channels whose file descriptors the runtime
//! watches: the completion channel of a completion queue and the event
//! channel of the connection manager.

use vstd::prelude::*;
use crate::error::{failure_text, is_rdma_error, Failure, RdmaError};

verus! {

/// Whether `v` is a value that `libc::O_NONBLOCK` has on a Linux target:
/// `0o4000` on most architectures, `0o200` on MIPS, `0x4000` on SPARC.
pub open spec fn linux_o_nonblock(v: i32) -> bool {
    v == 2048 || v == 128 || v == 16384
}

/// `libc::O_NONBLOCK`. This package builds only where `rdma-core` does,
/// on Linux; there libc defines it as one of the values that
/// `linux_o_nonblock` lists, depending on the architecture.
#[verifier::external_body]
fn libc_o_nonblock() -> (v: i32)
    ensures
        linux_o_nonblock(v),
{
    libc::O_NONBLOCK
}

/// `libc::EAGAIN`, which libc defines as 11 on every Linux target (the
/// only platform of this package, see `libc_o_nonblock`).
#[verifier::external_body]
fn libc_eagain() -> (v: i32)
    ensures
        v == 11,
{
    libc::EAGAIN
}

/// `libc::EWOULDBLOCK`, which libc defines as `EAGAIN`, that is 11, on
/// every Linux target.
#[verifier::external_body]
fn libc_ewouldblock() -> (v: i32)
    ensures
        v == 11,
{
    libc::EWOULDBLOCK
}

/// The operating-system constants that the event handling compares with.
#[derive(Debug, Clone, Copy, PartialEq, Eq)]
pub struct OsConsts {
    pub o_nonblock: i32,
    pub eagain: i32,
    pub ewouldblock: i32,
}

impl OsConsts {
    /// The constants of the (Linux) target: a fetch that finds nothing
    /// reports error code 11 under both names, and the non-blocking flag
    /// is the architecture's `O_NONBLOCK`.
    pub fn current() -> (c: OsConsts)
        ensures
            c.eagain == 11,
            c.ewouldblock == 11,
            linux_o_nonblock(c.o_nonblock),
    {
        OsConsts { o_nonblock: libc_o_nonblock(), eagain: libc_eagain(), ewouldblock: libc_ewouldblock() }
    }
}

/// The file status flags that make a descriptor non-blocking, from the
/// flags that `F_GETFL` returned; `None` when that call failed (`-1`), in
/// which case the flags are left alone.
pub fn nonblocking_flags(flags: i32, o_nonblock: i32) -> (r: Option<i32>)
    ensures
        flags == -1 ==> r is None,
        flags != -1 ==> r == Some(flags | o_nonblock),
{
    if flags != -1 {
        Some(flags | o_nonblock)
    } else {
        None
    }
}

/// Setting the non-blocking flag keeps every flag that was set and sets
/// every bit of `O_NONBLOCK`.
pub proof fn lemma_nonblocking_keeps_flags(flags: i32, o_nonblock: i32)
    ensures
        (flags | o_nonblock) & flags == flags,
        (flags | o_nonblock) & o_nonblock == o_nonblock,
{
    assert((flags | o_nonblock) & flags == flags) by (bit_vector);
    assert((flags | o_nonblock) & o_nonblock == o_nonblock) by (bit_vector);
}

/// Which channel is set up.
#[derive(Debug, Clone, Copy, PartialEq, Eq)]
pub enum ChannelKind {
    /// A completion channel, followed by its completion queue.
    Completion,
    /// A connection-manager event channel.
    CmEvents,
}

/// The call that the caller makes next.
#[derive(Debug, Clone, Copy, PartialEq, Eq)]
pub enum SetupStage {
    CreateChannel,
    CreateCq,
    ReadFlags,
    WriteFlags(i32),
    Register,
}

/// What the call of a stage gave.
#[derive(Debug)]
pub enum SetupEvent {
    ChannelCreated { ok: bool },
    CqCreated { ok: bool },
    FlagsRead { flags: i32 },
    FlagsWritten,
    Registered(core::result::Result<(), std::io::Error>),
}

/// Whether `event` is what the call of `stage` gives.
pub open spec fn setup_event_fits(stage: SetupStage, event: SetupEvent) -> bool {
    match stage {
        SetupStage::CreateChannel => event is ChannelCreated,
        SetupStage::CreateCq => event is CqCreated,
        SetupStage::ReadFlags => event is FlagsRead,
        SetupStage::WriteFlags(_) => event is FlagsWritten,
        SetupStage::Register => event is Registered,
    }
}

/// The next step of a setup.
#[derive(Debug)]
pub enum SetupStep {
    /// Make the call of this stage.
    Next(SetupStage),
    /// Give up with `error`, after destroying the completion channel when
    /// `destroy_channel` is set.
    Fail { destroy_channel: bool, error: RdmaError },
    /// The channel is set up.
    Ready,
}

/// The failure reported when the channel of `kind` cannot be created.
pub open spec fn channel_failure(kind: ChannelKind) -> Failure {
    match kind {
        ChannelKind::Completion => Failure::CreateCompChannel,
        ChannelKind::CmEvents => Failure::CreateCmChannel,
    }
}

/// One step of setting up a channel of `kind`: create the channel (and,
/// for a completion channel, its completion queue), make its descriptor
/// non-blocking when its flags can be read, and register it with the
/// runtime. A completion queue that cannot be created takes its channel
/// down with it.
pub fn setup_step(kind: ChannelKind, stage: SetupStage, event: SetupEvent, o_nonblock: i32) -> (s: SetupStep)
    requires
        setup_event_fits(stage, event),
        kind is CmEvents ==> !(stage is CreateCq),
    ensures
        stage is CreateChannel ==> match event {
            SetupEvent::ChannelCreated { ok } => if ok {
                s == SetupStep::Next(if kind is Completion { SetupStage::CreateCq } else { SetupStage::ReadFlags })
            } else {
                s matches SetupStep::Fail { destroy_channel, error } && !destroy_channel
                    && is_rdma_error(error, failure_text(channel_failure(kind)))
            },
            _ => false,
        },
        stage is CreateCq ==> match event {
            SetupEvent::CqCreated { ok } => if ok {
                s == SetupStep::Next(SetupStage::ReadFlags)
            } else {
                s matches SetupStep::Fail { destroy_channel, error } && destroy_channel
                    && is_rdma_error(error, failure_text(Failure::CreateCq))
            },
            _ => false,
        },
        stage is ReadFlags ==> match event {
            SetupEvent::FlagsRead { flags } => if flags == -1 {
                s == SetupStep::Next(SetupStage::Register)
            } else {
                s == SetupStep::Next(SetupStage::WriteFlags(flags | o_nonblock))
            },
            _ => false,
        },
        stage is WriteFlags ==> s == SetupStep::Next(SetupStage::Register),
        stage is Register ==> match event {
            SetupEvent::Registered(Ok(())) => s is Ready,
            SetupEvent::Registered(Err(e)) => s matches SetupStep::Fail { destroy_channel, error }
                && !destroy_channel && error == RdmaError::Io(e),
            _ => false,
        },
{
    match stage {
        SetupStage::CreateChannel => match event {
            SetupEvent::ChannelCreated { ok } => {
                if !ok {
                    let f = match kind {
                        ChannelKind::Completion => Failure::CreateCompChannel,
                        ChannelKind::CmEvents => Failure::CreateCmChannel,
                    };
                    SetupStep::Fail { destroy_channel: false, error: f.error() }
                } else {
                    match kind {
                        ChannelKind::Completion => SetupStep::Next(SetupStage::CreateCq),
                        ChannelKind::CmEvents => SetupStep::Next(SetupStage::ReadFlags),
                    }
                }
            },
            _ => SetupStep::Ready,
        },
        SetupStage::CreateCq => match event {
            SetupEvent::CqCreated { ok } => {
                if !ok {
                    SetupStep::Fail { destroy_channel: true, error: Failure::CreateCq.error() }
                } else {
                    SetupStep::Next(SetupStage::ReadFlags)
                }
            },
            _ => SetupStep::Ready,
        },
        SetupStage::ReadFlags => match event {
            SetupEvent::FlagsRead { flags } => match nonblocking_flags(flags, o_nonblock) {
                Some(f) => SetupStep::Next(SetupStage::WriteFlags(f)),
                None => SetupStep::Next(SetupStage::Register),
            },
            _ => SetupStep::Ready,
        },
        SetupStage::WriteFlags(_) => SetupStep::Next(SetupStage::Register),
        SetupStage::Register => match event {
            SetupEvent::Registered(Ok(())) => SetupStep::Ready,
            SetupEvent::Registered(Err(e)) => SetupStep::Fail {
                destroy_channel: false,
                error: RdmaError::Io(e),
            },
            _ => SetupStep::Ready,
        },
    }
}

} // verus!
