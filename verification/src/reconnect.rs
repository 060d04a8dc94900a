//! Decisions of the reconnecting WebSocket stream: which errors mean that
//! the connection is gone and has to be established again.

use vstd::prelude::*;

verus! {

/// The kinds of WebSocket errors that the reconnect logic tells apart.
#[derive(PartialEq, Eq, Structural, Clone, Copy, Debug)]
pub enum WsErrorKind {
    ConnectionClosed,
    AlreadyClosed,
    Io,
    Tls,
    Protocol,
    Capacity,
    WriteBufferFull,
    Utf8,
    AttackAttempt,
    Url,
    Http,
    HttpFormat,
}

/// Whether an error of kind `kind` means that the connection is gone.
pub open spec fn spec_is_disconnect(kind: WsErrorKind) -> bool {
    kind is ConnectionClosed || kind is AlreadyClosed || kind is Io || kind is Tls
        || kind is Protocol
}

/// Whether a failed write means that the connection is gone: a closed
/// connection, an I/O or TLS failure, or a protocol violation.
pub fn is_write_disconnect_error(err: &WsErrorKind) -> (r: bool)
    ensures
        r == spec_is_disconnect(*err),
{
    match err {
        WsErrorKind::ConnectionClosed | WsErrorKind::AlreadyClosed | WsErrorKind::Io
        | WsErrorKind::Tls | WsErrorKind::Protocol => true,
        _ => false,
    }
}

/// Whether a read item means that the connection is gone.
pub open spec fn spec_is_read_disconnect<M>(item: Result<M, WsErrorKind>) -> bool {
    item matches Err(k) && spec_is_disconnect(k)
}

/// A read that fails means a lost connection exactly when a write failing
/// with the same error would; a read that gives a message never does.
pub proof fn law_read_disconnect_agrees_with_write<M>(kind: WsErrorKind, msg: M)
    ensures
        spec_is_read_disconnect(Err::<M, WsErrorKind>(kind)) == spec_is_disconnect(kind),
        !spec_is_read_disconnect(Ok::<M, WsErrorKind>(msg)),
{
}

/// Whether a read item means that the connection is gone: an error item of
/// a kind that means so for writes; a message never does.
pub fn is_read_disconnect_error<M>(item: &Result<M, WsErrorKind>) -> (r: bool)
    ensures
        r == spec_is_read_disconnect(*item),
{
    match item {
        Err(e) => is_write_disconnect_error(e),
        Ok(_) => false,
    }
}

} // verus!
