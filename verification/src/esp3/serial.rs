//! Extracting ESP3 frames from the stream of bytes received over the serial line.

use vstd::prelude::*;
use crate::crc8::{crc8_ccitt, spec_crc8_ccitt};
use crate::max_array::MaxArray;
use crate::ring_buffer::RingBuffer;
use crate::esp3::{FOOTER_LENGTH, HEADER_LENGTH, MAX_ESP3_PACKET_LENGTH, MIN_ESP3_PACKET_LENGTH, SYNC_BYTE};
use crate::esp3::packet::frame_ok;

verus! {

/// The length of the frame whose header starts the byte sequence: header, data, optional data
/// and footer.
pub open spec fn announced_frame_length(s: Seq<u8>) -> nat {
    (HEADER_LENGTH + (s[1] as nat) * 0x100 + (s[2] as nat) + (s[3] as nat) + FOOTER_LENGTH) as nat
}

/// What taking a frame from the received bytes `s` leaves in the buffer, and the frame that it
/// returns, if any.
///
/// Bytes before a sync byte are dropped. A sync byte whose header checksum does not match, or
/// whose announced frame would not fit into the buffer, is dropped as well, and the search goes
/// on. If the bytes run out before a complete header or frame, they stay in the buffer and no
/// frame is returned. A complete frame is removed from the buffer; it is returned if its data
/// checksum matches.
pub open spec fn take_frame_spec(s: Seq<u8>) -> (Seq<u8>, Option<Seq<u8>>)
    decreases s.len(),
{
    if s.len() == 0 {
        (s, None)
    } else if s[0] != SYNC_BYTE {
        take_frame_spec(s.drop_first())
    } else if s.len() < MIN_ESP3_PACKET_LENGTH {
        (s, None)
    } else if spec_crc8_ccitt(s.subrange(1, 5)) != s[5] {
        take_frame_spec(s.drop_first())
    } else if announced_frame_length(s) > MAX_ESP3_PACKET_LENGTH {
        take_frame_spec(s.drop_first())
    } else if s.len() < announced_frame_length(s) {
        (s, None)
    } else {
        let total = announced_frame_length(s) as int;
        let frame = s.subrange(0, total);
        (
            s.subrange(total, s.len() as int),
            if spec_crc8_ccitt(frame.subrange(HEADER_LENGTH as int, total - 1)) == frame[total - 1] {
                Some(frame)
            } else {
                None
            },
        )
    }
}

/// Reads the first six bytes of a buffer that holds at least six.
fn peek_header(buffer: &RingBuffer<u8, MAX_ESP3_PACKET_LENGTH>) -> (ret: [u8; 6])
    requires
        buffer.wf(),
        buffer@.len() >= 6,
    ensures
        ret@ == buffer@.subrange(0, 6),
{
    let mut ret = [0u8; 6];
    let mut i: usize = 0;
    while i < 6
        invariant
            i <= 6,
            buffer.wf(),
            buffer@.len() >= 6,
            forall|j: int| 0 <= j < i ==> ret@[j] == buffer@[j],
        decreases 6 - i,
    {
        ret[i] = buffer.peek_at(i).unwrap();
        i += 1;
    }
    assert(ret@ =~= buffer@.subrange(0, 6));
    ret
}

/// Takes bytes from the buffer until a valid ESP3 frame is found, then returns its bytes.
///
/// Returns `None` if the buffer holds no complete frame (the bytes that may still begin one stay
/// in the buffer) or if the data checksum of the frame that was taken out does not match.
pub fn take_esp3_packet(buffer: &mut RingBuffer<u8, MAX_ESP3_PACKET_LENGTH>) -> (ret: Option<
    MaxArray<u8, MAX_ESP3_PACKET_LENGTH>,
>)
    requires
        old(buffer).wf(),
    ensures
        final(buffer).wf(),
        final(buffer)@ == take_frame_spec(old(buffer)@).0,
        match take_frame_spec(old(buffer)@).1 {
            Some(frame) => ret matches Some(r) && r@ == frame,
            None => ret is None,
        },
{
    let mut total_length: usize = 0;
    loop
        invariant_except_break
            buffer.wf(),
            take_frame_spec(buffer@) == take_frame_spec(old(buffer)@),
        ensures
            buffer.wf(),
            take_frame_spec(buffer@) == take_frame_spec(old(buffer)@),
            buffer@.len() >= MIN_ESP3_PACKET_LENGTH,
            buffer@[0] == SYNC_BYTE,
            spec_crc8_ccitt(buffer@.subrange(1, 5)) == buffer@[5],
            announced_frame_length(buffer@) <= MAX_ESP3_PACKET_LENGTH,
            total_length == announced_frame_length(buffer@),
            buffer@.len() >= total_length,
        decreases buffer@.len(),
    {
        match buffer.peek_at(0) {
            None => {
                return None;
            },
            Some(b) => {
                if b != SYNC_BYTE {
                    buffer.pop();
                    continue;
                }
            },
        }
        if buffer.len() < MIN_ESP3_PACKET_LENGTH {
            return None;
        }
        let header = peek_header(buffer);
        let calculated_crc = crc8_ccitt(&header[1..HEADER_LENGTH - 1]);
        assert(header@.subrange(1, 5) == buffer@.subrange(1, 5));
        if calculated_crc == header[HEADER_LENGTH - 1] {
            let data_length: usize = (header[1] as usize) * 0x100 + (header[2] as usize);
            let opt_length: usize = header[3] as usize;
            let total = HEADER_LENGTH + data_length + opt_length + FOOTER_LENGTH;
            if MAX_ESP3_PACKET_LENGTH < total {
                buffer.pop();
                continue;
            }
            if buffer.len() < total {
                return None;
            }
            total_length = total;
            break;
        }
        buffer.pop();
    }

    let ghost s = buffer@;
    let mut packet: MaxArray<u8, MAX_ESP3_PACKET_LENGTH> = MaxArray::new();
    while packet.len() < total_length
        invariant
            buffer.wf(),
            total_length <= s.len(),
            total_length <= MAX_ESP3_PACKET_LENGTH,
            packet@.len() <= total_length,
            packet@ == s.subrange(0, packet@.len() as int),
            buffer@ == s.subrange(packet@.len() as int, s.len() as int),
        decreases total_length - packet@.len(),
    {
        let ghost k = packet@.len() as int;
        let b = buffer.pop().unwrap();
        packet.push(b).unwrap();
        assert(packet@ == s.subrange(0, k + 1));
        assert(buffer@ == s.subrange(k + 1, s.len() as int));
    }

    let data_crc8 = packet.as_slice()[total_length - 1];
    let data_crc8_calc = crc8_ccitt(&packet.as_slice()[HEADER_LENGTH..total_length - 1]);
    if data_crc8 == data_crc8_calc {
        Some(packet)
    } else {
        None
    }
}

/// Every frame taken from a buffer is well-formed as [frame_ok] demands, so that
/// [crate::esp3::packet::Esp3Packet::from_slice] checks it successfully: the frames that the
/// serial receive path hands on pass the decoder's frame checks.
pub proof fn lemma_taken_frame_ok(s: Seq<u8>)
    ensures
        take_frame_spec(s).1 matches Some(f) ==> frame_ok(f),
    decreases s.len(),
{
    if s.len() == 0 {
    } else if s[0] != SYNC_BYTE {
        lemma_taken_frame_ok(s.drop_first());
    } else if s.len() < MIN_ESP3_PACKET_LENGTH {
    } else if spec_crc8_ccitt(s.subrange(1, 5)) != s[5] {
        lemma_taken_frame_ok(s.drop_first());
    } else if announced_frame_length(s) > MAX_ESP3_PACKET_LENGTH {
        lemma_taken_frame_ok(s.drop_first());
    } else if s.len() < announced_frame_length(s) {
    } else {
        let total = announced_frame_length(s) as int;
        let f = s.subrange(0, total);
        assert(f.subrange(1, 5) =~= s.subrange(1, 5));
        assert(f[1] == s[1] && f[2] == s[2] && f[3] == s[3] && f[5] == s[5] && f[0] == s[0]);
    }
}

} // verus!
