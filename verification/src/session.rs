//! The device session: a state machine that records whether a transport
//! connection is established and decides, for each operation, which frame the
//! transport must write and how the bytes it read are interpreted.

use vstd::prelude::*;
use crate::codec::MagicHomeState;
use crate::codec::decode_status;
use crate::codec::device_state_of;
use crate::codec::set_color_frame;
use crate::codec::set_power_frame;
use crate::codec::status_of;
use crate::codec::to_device_state;

verus! {

/// Whether the transport's answer to one query exchange is a complete status
/// reply: some bytes were read, and exactly fourteen of them.
pub open spec fn reply_complete(reply: Option<Vec<u8>>) -> bool {
    match reply {
        Option::Some(b) => b@.len() == 14,
        Option::None => false,
    }
}

/// The receive half of one query exchange. The transport wrote the query
/// frame and read `reply` (`None` when the write or the read failed). Hands
/// back the raw fourteen status bytes; a failed or short or long read is a
/// transport error, never silently accepted.
pub fn get_state(reply: Option<Vec<u8>>) -> (r: Result<Vec<u8>, MagicHomeActionError>)
    ensures
        reply_complete(reply) ==> (r matches Ok(bytes) && bytes@ == reply->Some_0@),
        !reply_complete(reply) ==> r == Err::<Vec<u8>, MagicHomeActionError>(
            MagicHomeActionError::IoError,
        ),
{
    match reply {
        Some(bytes) => {
            if bytes.len() == 14 {
                Ok(bytes)
            } else {
                Err(MagicHomeActionError::IoError)
            }
        },
        None => Err(MagicHomeActionError::IoError),
    }
}

/// Why a session operation failed: the session was never connected, or the
/// transport reported a failure (a failed write, a failed or short read).
#[derive(Debug, PartialEq, Eq, Structural)]
pub enum MagicHomeActionError {
    NotConnected,
    IoError,
}

/// A session with one device. It is connected after a successful handshake
/// has been recorded, and stays connected: no disconnect transition exists.
pub struct MagicHome {
    connected: bool,
}

impl MagicHome {
    /// Whether the session has recorded a successful handshake.
    pub closed spec fn connected(&self) -> bool {
        self.connected
    }

    /// A fresh session, not yet connected.
    pub fn new() -> (s: Self)
        ensures
            !s.connected(),
    {
        MagicHome { connected: false }
    }

    pub fn is_connected(&self) -> (r: bool)
        ensures
            r == self.connected(),
    {
        self.connected
    }

    /// Record the outcome of the transport's dial-and-handshake attempt: the
    /// transport dialed the device, wrote the query frame and read
    /// `handshake_reply` (`None` when any of the three failed). The session
    /// becomes connected exactly when a complete reply came back; on failure
    /// it keeps its previous state, never a partial one. The reply's content
    /// is a liveness check only and is discarded undecoded.
    pub fn connect(&mut self, handshake_reply: Option<Vec<u8>>) -> (r: Result<
        (),
        MagicHomeActionError,
    >)
        ensures
            reply_complete(handshake_reply) ==> final(self).connected() && r == Ok::<
                (),
                MagicHomeActionError,
            >(()),
            !reply_complete(handshake_reply) ==> final(self).connected() == old(self).connected()
                && r == Err::<(), MagicHomeActionError>(MagicHomeActionError::IoError),
    {
        match get_state(handshake_reply) {
            Ok(_) => {
                self.connected = true;
                Ok(())
            },
            Err(e) => Err(e),
        }
    }

    /// One status exchange. Fails with `NotConnected` on a session that was
    /// never connected, before any transport work; otherwise the transport
    /// wrote the query frame and read `reply` (`None` when the write or the
    /// read failed), and the fourteen status bytes decode to the returned
    /// device state. A transport failure leaves the session connected: the
    /// caller may retry.
    pub fn state(&self, reply: Option<Vec<u8>>) -> (r: Result<
        MagicHomeState,
        MagicHomeActionError,
    >)
        ensures
            !self.connected() ==> r == Err::<MagicHomeState, MagicHomeActionError>(
                MagicHomeActionError::NotConnected,
            ),
            self.connected() && !reply_complete(reply) ==> r == Err::<
                MagicHomeState,
                MagicHomeActionError,
            >(MagicHomeActionError::IoError),
            self.connected() && reply_complete(reply) ==> r == Ok::<
                MagicHomeState,
                MagicHomeActionError,
            >(device_state_of(status_of(reply->Some_0@))),
    {
        if !self.connected {
            return Err(MagicHomeActionError::NotConnected);
        }
        match get_state(reply) {
            Ok(bytes) => match decode_status(bytes.as_slice()) {
                Ok(status) => Ok(to_device_state(&status)),
                Err(_) => Err(MagicHomeActionError::IoError),
            },
            Err(e) => Err(e),
        }
    }

    /// Decide the set-color action: the eight-byte frame the transport must
    /// write, or `NotConnected`. Fire-and-forget: no reply is read, so a
    /// written frame confirms nothing beyond the absence of a write error,
    /// which the transport reports itself.
    pub fn set_color(&self, rgb: [u8; 3]) -> (r: Result<Vec<u8>, MagicHomeActionError>)
        ensures
            !self.connected() ==> r == Err::<Vec<u8>, MagicHomeActionError>(
                MagicHomeActionError::NotConnected,
            ),
            self.connected() ==> (r matches Ok(frame) && frame@ == set_color_frame(
                rgb[0],
                rgb[1],
                rgb[2],
            )),
    {
        if !self.connected {
            return Err(MagicHomeActionError::NotConnected);
        }
        Ok(crate::codec::encode_set_color(rgb[0], rgb[1], rgb[2]))
    }

    /// Decide the set-power action: the four-byte frame that asks for the
    /// given absolute power state (never a toggle), or `NotConnected`.
    /// Fire-and-forget, as for `set_color`.
    pub fn power(&self, value: bool) -> (r: Result<Vec<u8>, MagicHomeActionError>)
        ensures
            !self.connected() ==> r == Err::<Vec<u8>, MagicHomeActionError>(
                MagicHomeActionError::NotConnected,
            ),
            self.connected() ==> (r matches Ok(frame) && frame@ == set_power_frame(value)),
    {
        if !self.connected {
            return Err(MagicHomeActionError::NotConnected);
        }
        Ok(crate::codec::encode_set_power(value))
    }
}

} // verus!
