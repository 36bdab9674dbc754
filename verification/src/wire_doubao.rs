//! The binary framed streaming protocol: a fixed 4-byte header, an
//! optional signed sequence word, a big-endian payload length, then the
//! (optionally gzip-compressed) payload. Encoding and parsing are byte
//! exact; gzip itself is the one outside step, named and trusted.

use vstd::prelude::*;

use crate::errors::ASRError;

verus! {

/// What flate2's gzip encoder (default level, no timestamp) produces for
/// the given bytes.
pub uninterp spec fn gzip_of(data: Seq<u8>) -> Seq<u8>;

/// What flate2's gzip decoder yields for the given bytes: the decoded
/// stream, or nothing when the bytes are not a well-formed gzip stream.
pub uninterp spec fn gunzip_of(data: Seq<u8>) -> Option<Seq<u8>>;

/// Relies on flate2's write::GzEncoder with Compression::default(): the
/// builder writes a fixed header (mtime 0, OS byte 255), so the output is
/// a function of the input bytes alone, and decoding it restores the
/// input. The encoder's only error source is sink I/O, and a Vec sink
/// cannot fail, so the call does not fail.
#[verifier::external_body]
fn gzip_compress(data: &[u8]) -> (r: Vec<u8>)
    ensures
        r@ == gzip_of(data@),
        gunzip_of(r@) == Some(data@),
{
    let mut enc = flate2::write::GzEncoder::new(Vec::new(), flate2::Compression::default());
    std::io::Write::write_all(&mut enc, data).expect("a Vec-backed gzip encoder cannot fail");
    enc.finish().expect("a Vec-backed gzip encoder cannot fail")
}

/// Relies on flate2's read::GzDecoder: decoding is a function of the
/// input bytes alone, and fails exactly on ill-formed streams.
#[verifier::external_body]
fn gzip_decompress(data: &[u8]) -> (r: Result<Vec<u8>, ()>)
    ensures
        r matches Ok(v) ==> gunzip_of(data@) == Some(v@),
        r is Err ==> gunzip_of(data@) is None,
{
    let mut dec = flate2::read::GzDecoder::new(data);
    let mut out = Vec::new();
    match std::io::Read::read_to_end(&mut dec, &mut out) {
        Ok(_) => Ok(out),
        Err(_) => Err(()),
    }
}

/// The four bytes of a 32-bit word in big-endian order.
pub open spec fn spec_u32_be(x: u32) -> Seq<u8> {
    seq![(x >> 24) as u8, (x >> 16) as u8, (x >> 8) as u8, x as u8]
}

/// The 32-bit word read from four big-endian bytes.
pub open spec fn spec_u32_from_be(b: Seq<u8>) -> u32
    recommends
        b.len() == 4,
{
    ((b[0] as u32) << 24) | ((b[1] as u32) << 16) | ((b[2] as u32) << 8) | (b[3] as u32)
}

/// Writing a word big-endian and reading it back is the identity.
pub proof fn lemma_u32_be_roundtrip(x: u32)
    ensures
        spec_u32_from_be(spec_u32_be(x)) == x,
{
    let b = spec_u32_be(x);
    assert(b[0] == (x >> 24) as u8 && b[1] == (x >> 16) as u8 && b[2] == (x >> 8) as u8 && b[3]
        == x as u8);
    assert((((x >> 24) as u8 as u32) << 24) | (((x >> 16) as u8 as u32) << 16) | (((x >> 8) as u8
        as u32) << 8) | (x as u8 as u32) == x) by (bit_vector);
}

fn push_u32_be(v: &mut Vec<u8>, x: u32)
    ensures
        final(v)@ == old(v)@ + spec_u32_be(x),
{
    v.push((x >> 24) as u8);
    v.push((x >> 16) as u8);
    v.push((x >> 8) as u8);
    v.push(x as u8);
    proof {
        assert(v@ =~= old(v)@ + spec_u32_be(x));
    }
}

fn read_u32_be(data: &[u8], offset: usize) -> (r: u32)
    requires
        offset + 4 <= data@.len(),
    ensures
        r == spec_u32_from_be(data@.subrange(offset as int, offset as int + 4)),
{
    let b0 = data[offset];
    let b1 = data[offset + 1];
    let b2 = data[offset + 2];
    let b3 = data[offset + 3];
    proof {
        let s = data@.subrange(offset as int, offset as int + 4);
        assert(s[0] == b0 && s[1] == b1 && s[2] == b2 && s[3] == b3);
    }
    ((b0 as u32) << 24) | ((b1 as u32) << 16) | ((b2 as u32) << 8) | (b3 as u32)
}

/// The serialization nibble of a message: JSON for the configuration
/// message, raw otherwise.
pub open spec fn spec_serialization(msg_type: u8) -> u8 {
    if msg_type == 0x1 {
        0x1
    } else {
        0x0
    }
}

/// The exact bytes of one client frame: version/header-size byte, the
/// type and flags nibbles, the serialization and compression nibbles, a
/// reserved zero byte, the sequence word, the payload length, and the
/// payload as it goes on the wire.
pub open spec fn spec_frame_bytes(
    msg_type: u8,
    flags: u8,
    sequence: i32,
    wire_payload: Seq<u8>,
    compression: u8,
) -> Seq<u8> {
    seq![
        0x11u8,
        ((msg_type << 4) | flags) as u8,
        ((spec_serialization(msg_type) << 4) | compression) as u8,
        0u8,
    ] + spec_u32_be(sequence as u32) + spec_u32_be(wire_payload.len() as u32) + wire_payload
}

/// What parsing a received frame yields.
pub enum FrameParse {
    /// Too short, truncated, or an undecodable payload.
    Malformed,
    /// The server error message type, with its numeric code.
    ServerError { code: u32 },
    /// An ordinary message: its flags, the echoed sequence word when the
    /// low flag bit announces one, and the decompressed payload.
    Event { flags: u8, sequence: Option<u32>, payload: Seq<u8> },
}

/// The meaning of a received frame, byte for byte.
pub open spec fn spec_parse_frame(data: Seq<u8>) -> FrameParse {
    if data.len() < 4 {
        FrameParse::Malformed
    } else {
        let header_size = (data[0] & 0x0f) * 4;
        let msg_type = data[1] >> 4;
        let flags = data[1] & 0x0f;
        let compression = data[2] & 0x0f;
        if msg_type == 0xf {
            if data.len() >= header_size + 4 {
                FrameParse::ServerError {
                    code: spec_u32_from_be(
                        data.subrange(header_size as int, header_size as int + 4),
                    ),
                }
            } else {
                FrameParse::ServerError { code: 0 }
            }
        } else {
            let has_seq = flags & 0x01 != 0;
            let off = if has_seq {
                header_size + 4
            } else {
                header_size as int
            };
            if data.len() < off + 4 {
                FrameParse::Malformed
            } else {
                let payload_size = spec_u32_from_be(data.subrange(off, off + 4)) as int;
                if data.len() < off + 4 + payload_size {
                    FrameParse::Malformed
                } else {
                    let sequence = if has_seq {
                        Some(
                            spec_u32_from_be(
                                data.subrange(header_size as int, header_size as int + 4),
                            ),
                        )
                    } else {
                        None
                    };
                    let raw = data.subrange(off + 4, off + 4 + payload_size);
                    if compression == 0x1 {
                        match gunzip_of(raw) {
                            Some(p) => FrameParse::Event { flags, sequence, payload: p },
                            None => FrameParse::Malformed,
                        }
                    } else {
                        FrameParse::Event { flags, sequence, payload: raw }
                    }
                }
            }
        }
    }
}

/// A parsed server frame, decompressed and ready for the session layer.
#[derive(Debug)]
pub struct ParsedFrame {
    pub flags: u8,
    pub sequence: Option<u32>,
    pub payload: Vec<u8>,
    /// The "last message" flag bit.
    pub is_final: bool,
}

/// Build one client frame; with the gzip nibble set the payload is
/// compressed first.
pub fn build_message(
    msg_type: u8,
    flags: u8,
    sequence: i32,
    payload: &[u8],
    compression: u8,
) -> (r: Result<Vec<u8>, ASRError>)
    requires
        msg_type < 16,
        flags < 16,
        compression == 0x0 || compression == 0x1,
    ensures
        compression == 0x0 && payload@.len() <= u32::MAX ==> (r matches Ok(v) && v@
            == spec_frame_bytes(msg_type, flags, sequence, payload@, 0x0)),
        compression == 0x0 && payload@.len() > u32::MAX ==> (r matches Err(e) && e
            is InternalError),
        compression == 0x1 && gzip_of(payload@).len() <= u32::MAX ==> (r matches Ok(v) && (v@
            == spec_frame_bytes(msg_type, flags, sequence, gzip_of(payload@), 0x1) && gunzip_of(
            gzip_of(payload@),
        ) == Some(payload@))),
        compression == 0x1 && gzip_of(payload@).len() > u32::MAX ==> (r matches Err(e) && e
            is InternalError),
        r matches Err(e) ==> (e is InternalError),
{
    let final_payload: Vec<u8> = if compression == 0x1 {
        gzip_compress(payload)
    } else {
        vstd::slice::slice_to_vec(payload)
    };
    if final_payload.len() > 0xffff_ffffusize {
        return Err(ASRError::InternalError("payload too large for a frame".to_owned()));
    }
    let serialization: u8 = if msg_type == 0x1 {
        0x1
    } else {
        0x0
    };
    let mut msg: Vec<u8> = Vec::new();
    msg.push(0x11);
    msg.push((msg_type << 4) | flags);
    msg.push((serialization << 4) | compression);
    msg.push(0x00);
    push_u32_be(&mut msg, sequence as u32);
    push_u32_be(&mut msg, final_payload.len() as u32);
    let ghost head = msg@;
    let mut tail = final_payload;
    let ghost tail_view = tail@;
    msg.append(&mut tail);
    proof {
        assert(msg@ =~= spec_frame_bytes(msg_type, flags, sequence, tail_view, compression));
    }
    Ok(msg)
}

/// Parse one received frame, mirroring `spec_parse_frame` case for case:
/// a server error frame becomes a wire error carrying its code, a
/// malformed frame an internal error, and an ordinary frame its flags,
/// sequence and decompressed payload.
pub fn parse_frame(data: &[u8]) -> (r: Result<ParsedFrame, ASRError>)
    ensures
        spec_parse_frame(data@) matches FrameParse::Event { flags, sequence, payload } ==> (r
            matches Ok(pf) && pf.flags == flags && pf.sequence == sequence && pf.payload@
            == payload && pf.is_final == (flags & 0x02 != 0)),
        spec_parse_frame(data@) matches FrameParse::ServerError { code } ==> (r matches Err(e) && e
            is WebSocketError),
        spec_parse_frame(data@) is Malformed ==> (r matches Err(e) && e is InternalError),
{
    if data.len() < 4 {
        return Err(ASRError::InternalError("frame shorter than its header".to_owned()));
    }
    let header_size: usize = ((data[0] & 0x0f) as usize) * 4;
    let msg_type: u8 = data[1] >> 4;
    let flags: u8 = data[1] & 0x0f;
    let compression: u8 = data[2] & 0x0f;
    if msg_type == 0xf {
        // the numeric code travels right after the header; a truncated
        // error frame reports code 0, as the wire contract fixes
        let code: u32 = if data.len() >= 4 && header_size <= data.len() - 4 {
            read_u32_be(data, header_size)
        } else {
            0
        };
        return Err(
            ASRError::WebSocketError(
                "server returned an error frame: code ".to_owned().concat(
                    crate::text::u64_to_string(code as u64).as_str(),
                ),
            ),
        );
    }
    let has_seq = flags & 0x01 != 0;
    let mut off = header_size;
    if has_seq {
        off = off + 4;
    }
    if data.len() < 4 || off > data.len() - 4 {
        return Err(ASRError::InternalError("frame too short for its length field".to_owned()));
    }
    let sequence: Option<u32> = if has_seq {
        Some(read_u32_be(data, header_size))
    } else {
        None
    };
    let payload_size = read_u32_be(data, off) as usize;
    if payload_size > data.len() - off - 4 {
        return Err(ASRError::InternalError("frame truncated before payload end".to_owned()));
    }
    let raw = vstd::slice::slice_subrange(data, off + 4, off + 4 + payload_size);
    if compression == 0x1 {
        match gzip_decompress(raw) {
            Ok(p) => Ok(ParsedFrame { flags, sequence, payload: p, is_final: flags & 0x02 != 0 }),
            Err(_) => Err(ASRError::InternalError("payload is not a gzip stream".to_owned())),
        }
    } else {
        Ok(
            ParsedFrame {
                flags,
                sequence,
                payload: vstd::slice::slice_to_vec(raw),
                is_final: flags & 0x02 != 0,
            },
        )
    }
}

/// Encoding a frame and parsing the identical bytes restores the message:
/// the flags, the sequence word, and — through gzip decompression when
/// the compression nibble asks for it — the original payload.
pub proof fn lemma_frame_roundtrip(
    msg_type: u8,
    flags: u8,
    sequence: i32,
    payload: Seq<u8>,
    wire_payload: Seq<u8>,
    compression: u8,
)
    requires
        msg_type < 16,
        msg_type != 0xf,
        flags < 16,
        flags & 0x01 == 1,
        compression == 0x0 || compression == 0x1,
        wire_payload.len() <= u32::MAX,
        compression == 0x1 ==> gunzip_of(wire_payload) == Some(payload),
        compression == 0x0 ==> wire_payload == payload,
    ensures
        spec_parse_frame(spec_frame_bytes(msg_type, flags, sequence, wire_payload, compression))
            == (FrameParse::Event { flags, sequence: Some(sequence as u32), payload }),
{
    let data = spec_frame_bytes(msg_type, flags, sequence, wire_payload, compression);
    let tb = ((msg_type << 4) | flags) as u8;
    let sb = ((spec_serialization(msg_type) << 4) | compression) as u8;
    assert(data.len() == 12 + wire_payload.len());
    assert(data[0] == 0x11 && data[1] == tb && data[2] == sb);
    assert(0x11u8 & 0x0f == 1) by (bit_vector);
    assert(tb >> 4 == msg_type && tb & 0x0f == flags) by (bit_vector)
        requires
            tb == ((msg_type << 4) | flags) as u8,
            msg_type < 16,
            flags < 16,
    ;
    let ser = spec_serialization(msg_type);
    assert(sb & 0x0f == compression) by (bit_vector)
        requires
            sb == ((ser << 4) | compression) as u8,
            ser < 16,
            compression < 16,
    ;
    assert(flags & 0x01 != 0);
    assert(data.subrange(4, 8) =~= spec_u32_be(sequence as u32));
    assert(data.subrange(8, 12) =~= spec_u32_be(wire_payload.len() as u32));
    lemma_u32_be_roundtrip(sequence as u32);
    lemma_u32_be_roundtrip(wire_payload.len() as u32);
    assert(spec_u32_from_be(data.subrange(8, 12)) == wire_payload.len());
    assert(data.subrange(12, 12 + wire_payload.len() as int) =~= wire_payload);
}

} // verus!
