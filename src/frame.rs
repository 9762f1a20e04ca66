//! The two command dialects and the checks every reply goes through.
//!
//! Hand-controller commands are an opcode byte and an optional payload; their
//! replies are the payload followed by the terminator. Passthrough commands are
//! a fixed eight-byte frame addressed to a sub-device; their replies are judged
//! by their length against the length asked for.

use crate::device::{device_code, Device};
use crate::error::{bytes_outcome, outcome, Fault, MountError};
use vstd::prelude::*;

verus! {

/// Ends every reply of the mount (`#`).
pub const TERMINATOR: u8 = 0x23;

/// Opens every passthrough frame (`P`).
pub const PASSTHROUGH: u8 = 0x50;

/// Most argument bytes a passthrough frame carries.
pub const MAX_PASSTHROUGH_ARGS: usize = 3;

/// Size of the buffer one read fills.
pub const RESPONSE_CAPACITY: usize = 32;

pub open spec fn direct_frame_of(opcode: u8, args: Seq<u8>) -> Seq<u8> {
    seq![opcode] + args
}

/// Argument `i` of a passthrough frame, zero where none was given.
pub open spec fn arg_or_zero(args: Seq<u8>, i: int) -> u8 {
    if i < args.len() {
        args[i]
    } else {
        0
    }
}

/// A passthrough frame that asks `dev` to run `cmd` and answer with
/// `resp_len` bytes.
pub open spec fn passthrough_read_of(dev: Device, cmd: u8, resp_len: u8) -> Seq<u8> {
    seq![PASSTHROUGH, 1, device_code(dev), cmd, 0, 0, 0, resp_len]
}

/// A passthrough frame that hands `args` to `dev` and expects only the
/// terminator back.
pub open spec fn passthrough_write_of(dev: Device, cmd: u8, args: Seq<u8>) -> Seq<u8> {
    seq![
        PASSTHROUGH,
        (args.len() + 1) as u8,
        device_code(dev),
        cmd,
        arg_or_zero(args, 0),
        arg_or_zero(args, 1),
        arg_or_zero(args, 2),
        0,
    ]
}

/// The transport's verdict on what one read returned.
pub open spec fn terminated(received: Seq<u8>) -> Result<(), Fault> {
    if received.len() == 0 {
        Err(Fault::Timeout)
    } else if received.last() != TERMINATOR {
        Err(Fault::MalformedResponse(received))
    } else {
        Ok(())
    }
}

/// The payload of a hand-controller reply that must carry `expected` bytes.
pub open spec fn direct_payload_of(received: Seq<u8>, expected: nat) -> Result<Seq<u8>, Fault> {
    match terminated(received) {
        Err(e) => Err(e),
        Ok(()) => if received.len() == expected + 1 {
            Ok(received.drop_last())
        } else {
            Err(Fault::UnexpectedResponseLength)
        },
    }
}

/// The payload of a passthrough reply to a request for `resp_len` bytes: one
/// byte more is success, two more means the sub-device is unavailable, and
/// any other length is malformed.
pub open spec fn passthrough_payload_of(received: Seq<u8>, resp_len: nat) -> Result<Seq<u8>, Fault> {
    match terminated(received) {
        Err(e) => Err(e),
        Ok(()) => if received.len() == resp_len + 1 {
            Ok(received.subrange(0, resp_len as int))
        } else if received.len() == resp_len + 2 {
            Err(Fault::DeviceUnavailable)
        } else {
            Err(Fault::MalformedResponse(received))
        },
    }
}

/// No payload is handed out unless the reply ended in the terminator; a
/// sub-device that is unavailable is reported only for such replies too.
pub proof fn lemma_payload_needs_terminator(received: Seq<u8>, n: nat)
    ensures
        direct_payload_of(received, n) is Ok ==> received.len() > 0 && received.last() == TERMINATOR,
        passthrough_payload_of(received, n) is Ok ==> received.len() > 0 && received.last() == TERMINATOR,
        passthrough_payload_of(received, n) == Err::<Seq<u8>, Fault>(Fault::DeviceUnavailable)
            ==> received.len() == n + 2 && received.last() == TERMINATOR,
{
}

/// The two bytes of a variable slew rate given in arcseconds per second: the
/// rate times four, high byte first.
pub open spec fn slew_rate_bytes(rate: u16) -> (u8, u8) {
    (((rate * 4) / 256) as u8, ((rate * 4) % 256) as u8)
}

/// Largest variable slew rate whose scaled value fits two bytes.
pub const MAX_SLEW_RATE: u16 = 16383;

fn copy_slice(s: &[u8]) -> (r: Vec<u8>)
    ensures
        r@ == s@,
{
    let mut v: Vec<u8> = Vec::new();
    let mut i: usize = 0;
    while i < s.len()
        invariant
            i <= s@.len(),
            v@ == s@.subrange(0, i as int),
        decreases s@.len() - i,
    {
        v.push(s[i]);
        i = i + 1;
        assert(v@ =~= s@.subrange(0, i as int));
    }
    assert(s@.subrange(0, s@.len() as int) =~= s@);
    v
}

fn prefix(s: &[u8], n: usize) -> (r: Vec<u8>)
    requires
        n <= s@.len(),
    ensures
        r@ == s@.subrange(0, n as int),
{
    let mut v: Vec<u8> = Vec::new();
    let mut i: usize = 0;
    while i < n
        invariant
            i <= n <= s@.len(),
            v@ == s@.subrange(0, i as int),
        decreases n - i,
    {
        v.push(s[i]);
        i = i + 1;
        assert(v@ =~= s@.subrange(0, i as int));
    }
    v
}

/// Converts a slew rate in arcseconds per second to the mount's two-byte form.
pub fn slew_rate(rate: u16) -> (r: (u8, u8))
    requires
        rate <= MAX_SLEW_RATE,
    ensures
        r == slew_rate_bytes(rate),
        r.0 * 256 + r.1 == rate * 4,
{
    let scaled: u16 = rate * 4;
    ((scaled / 256) as u8, (scaled % 256) as u8)
}

/// A hand-controller command: the opcode, then its payload.
pub fn direct_frame(opcode: u8, args: &[u8]) -> (r: Vec<u8>)
    ensures
        r@ == direct_frame_of(opcode, args@),
{
    let mut v: Vec<u8> = Vec::new();
    v.push(opcode);
    let mut i: usize = 0;
    while i < args.len()
        invariant
            i <= args@.len(),
            v@ == seq![opcode] + args@.subrange(0, i as int),
        decreases args@.len() - i,
    {
        v.push(args[i]);
        i = i + 1;
        assert(v@ =~= seq![opcode] + args@.subrange(0, i as int));
    }
    assert(args@.subrange(0, args@.len() as int) =~= args@);
    v
}

/// A passthrough command that expects `resp_len` bytes of data back.
pub fn passthrough_read_frame(dev: Device, cmd: u8, resp_len: u8) -> (r: Vec<u8>)
    ensures
        r@ == passthrough_read_of(dev, cmd, resp_len),
{
    let v = vec![PASSTHROUGH, 1, dev.code(), cmd, 0, 0, 0, resp_len];
    assert(v@ =~= passthrough_read_of(dev, cmd, resp_len));
    v
}

/// A passthrough command that carries up to three argument bytes and expects
/// only an acknowledgement; more arguments are refused.
pub fn passthrough_write_frame(dev: Device, cmd: u8, args: &[u8]) -> (r: Result<Vec<u8>, MountError>)
    ensures
        args@.len() <= MAX_PASSTHROUGH_ARGS ==> r is Ok && r->Ok_0@ == passthrough_write_of(dev, cmd, args@),
        args@.len() > MAX_PASSTHROUGH_ARGS ==> r == Err::<Vec<u8>, MountError>(MountError::InvalidArgument),
{
    if args.len() > MAX_PASSTHROUGH_ARGS {
        return Err(MountError::InvalidArgument);
    }
    let mut v = vec![PASSTHROUGH, args.len() as u8 + 1, dev.code(), cmd, 0, 0, 0, 0];
    let mut i: usize = 0;
    while i < args.len()
        invariant
            i <= args@.len() <= MAX_PASSTHROUGH_ARGS,
            v@.len() == 8,
            v@[0] == PASSTHROUGH,
            v@[1] == (args@.len() + 1) as u8,
            v@[2] == device_code(dev),
            v@[3] == cmd,
            v@[7] == 0,
            forall|j: int| 4 <= j < 4 + i ==> #[trigger] v@[j] == args@[j - 4],
            forall|j: int| 4 + i <= j < 7 ==> #[trigger] v@[j] == 0,
        decreases args@.len() - i,
    {
        v.set(4 + i, args[i]);
        i = i + 1;
    }
    assert(v@ =~= passthrough_write_of(dev, cmd, args@)) by {
        assert(v@[4int] == arg_or_zero(args@, 0));
        assert(v@[5int] == arg_or_zero(args@, 1));
        assert(v@[6int] == arg_or_zero(args@, 2));
    }
    Ok(v)
}

/// Checks what one read returned: nothing at all is a timeout, and anything
/// not ending in the terminator is malformed.
pub fn check_terminated(received: &[u8]) -> (r: Result<(), MountError>)
    ensures
        outcome(r) == terminated(received@),
{
    if received.len() == 0 {
        return Err(MountError::Timeout);
    }
    if received[received.len() - 1] != TERMINATOR {
        let raw = copy_slice(received);
        return Err(MountError::MalformedResponse(raw));
    }
    Ok(())
}

/// The payload of a hand-controller reply, which must be exactly `expected`
/// bytes before the terminator.
pub fn direct_payload(received: &[u8], expected: usize) -> (r: Result<Vec<u8>, MountError>)
    ensures
        bytes_outcome(r) == direct_payload_of(received@, expected as nat),
{
    check_terminated(received)?;
    if received.len() - 1 != expected {
        return Err(MountError::UnexpectedResponseLength);
    }
    Ok(prefix(received, expected))
}

/// The payload of a passthrough reply to a request for `resp_len` bytes.
pub fn passthrough_payload(received: &[u8], resp_len: u8) -> (r: Result<Vec<u8>, MountError>)
    ensures
        bytes_outcome(r) == passthrough_payload_of(received@, resp_len as nat),
{
    check_terminated(received)?;
    let n = received.len();
    let len = resp_len as usize;
    if n - 1 == len {
        Ok(prefix(received, len))
    } else if n >= 2 && n - 2 == len {
        Err(MountError::DeviceUnavailable)
    } else {
        let raw = copy_slice(received);
        Err(MountError::MalformedResponse(raw))
    }
}

} // verus!
