//! How a frame handed to a reader becomes a message.

use vstd::prelude::*;
use crate::buffer::{buf_contents, buf_len};
use crate::codec::{decode_msg, msg_id_text};
use crate::msgs::{BytesMsg, Msg};
use crate::wire::{be_u16, be_u64, signed64};

verus! {

/// What a received frame gives as a message: `None` for an empty frame,
/// which is the sign that the connection closed; otherwise the connection's
/// message timeout, then timestamp, attempts, id and body as `decode_msg`
/// splits them.
pub open spec fn frame_gives(frame: BytesMsg, r: Option<Msg>) -> bool {
    let b = buf_contents(frame.1);
    if b.len() == 0 {
        r is None
    } else {
        r matches Some(m) && m.timeout == frame.0 && m.timestamp as int == signed64(be_u64(b))
            && m.attemps as int == be_u16(b.skip(8)) && m.id@ == msg_id_text(b) && m.body@
            == b.skip(26)
    }
}

/// A received frame as a message (see `frame_gives`). A message frame is at
/// least 26 bytes long; an empty one marks the end of the connection.
pub fn frame_to_msg(frame: BytesMsg) -> (r: Option<Msg>)
    requires
        buf_contents(frame.1).len() == 0 || buf_contents(frame.1).len() >= 26,
    ensures
        frame_gives(frame, r),
{
    let timeout = frame.0;
    let mut bytes = frame.1;
    if buf_len(&bytes) == 0 {
        return None;
    }
    let (timestamp, attemps, id, body) = decode_msg(&mut bytes);
    Some(Msg { timeout, timestamp, attemps, id, body })
}

/// `frame_to_msg` for any frame: a frame of 1 to 25 bytes, too short to be a
/// message, comes back unchanged as `Err`.
pub fn try_frame_to_msg(frame: BytesMsg) -> (r: Result<Option<Msg>, BytesMsg>)
    ensures
        ({
            let n = buf_contents(frame.1).len();
            &&& (n == 0 || n >= 26) ==> (r matches Ok(o) && frame_gives(frame, o))
            &&& (0 < n < 26) ==> r == Err::<Option<Msg>, BytesMsg>(frame)
        }),
{
    let n = buf_len(&frame.1);
    if n == 0 || n >= 26 {
        Ok(frame_to_msg(frame))
    } else {
        Err(frame)
    }
}

} // verus!
