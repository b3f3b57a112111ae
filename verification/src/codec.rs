//! Length-prefixed framing over a growable byte buffer: whole packets out,
//! oversize frames rejected.

use vstd::prelude::*;
use crate::error::ProtocolError;
use crate::packet::{Packet, PacketModel};
use crate::wire::{read_u16_le, u16_from_le};

verus! {

/// Frames LIFX packets over a byte buffer. Each UDP datagram is one complete
/// frame, but the buffer may accumulate several frames in other transports,
/// so the declared size is always consulted.
pub struct Codec;

impl Codec {
    /// Maximum accepted packet size. Frames declaring more fail with a
    /// framing error, to guard against denial of service.
    pub const MAX_PACKET_SIZE: usize = 4096;

    /// Serializes `packet`, appending its frame to `dst`.
    pub fn encode(packet: &Packet, dst: &mut Vec<u8>)
        ensures
            final(dst)@ == old(dst)@ + packet@.spec_encode(),
    {
        packet.encode(dst);
    }

    /// Takes one whole packet off the front of `src`, if a whole frame has
    /// arrived. Yields `None` (and leaves the buffer alone) while bytes are
    /// missing; fails on a frame declaring more than the accepted maximum, or
    /// on a frame whose bytes do not parse, without consuming it.
    pub fn decode(src: &mut Vec<u8>) -> (r: Result<Option<Packet>, ProtocolError>)
        ensures
            old(src)@.len() < 36 ==> (r == Ok::<Option<Packet>, ProtocolError>(None)
                && final(src)@ == old(src)@),
            old(src)@.len() >= 36 ==> {
                let size = u16_from_le(old(src)@[0], old(src)@[1]);
                if size > 4096 {
                    r == Err::<Option<Packet>, ProtocolError>(ProtocolError::PacketTooLarge(size))
                        && final(src)@ == old(src)@
                } else if old(src)@.len() < size {
                    r == Ok::<Option<Packet>, ProtocolError>(None) && final(src)@ == old(src)@
                } else {
                    match PacketModel::spec_parse(old(src)@.take(size as int)) {
                        Ok(m) => (r matches Ok(op) && op matches Some(p) && p@ == m)
                            && final(src)@ == old(src)@.skip(size as int),
                        Err(e) => r == Err::<Option<Packet>, ProtocolError>(e)
                            && final(src)@ == old(src)@,
                    }
                }
            },
    {
        if src.len() < 36 {
            return Ok(None);
        }
        let size16 = read_u16_le(src.as_slice(), 0);
        let size = size16 as usize;
        if size > 4096 {
            return Err(ProtocolError::PacketTooLarge(size16));
        }
        if src.len() < size {
            return Ok(None);
        }
        let frame = vstd::slice::slice_subrange(src.as_slice(), 0, size);
        proof {
            assert(frame@ =~= old(src)@.take(size as int));
        }
        match Packet::decode(frame) {
            Ok(packet) => {
                let rest = src.split_off(size);
                *src = rest;
                assert(src@ =~= old(src)@.skip(size as int));
                Ok(Some(packet))
            },
            Err(e) => Err(e),
        }
    }
}

} // verus!
