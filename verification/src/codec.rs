//! Binary frame codec for the streaming recognizer protocol.
//!
//! A frame is a four-byte header, a four-byte big-endian payload length,
//! and the payload itself: byte 0 packs the protocol version and the
//! header size in words, byte 1 the message type and its flags, byte 2
//! the serialization and compression methods, byte 3 is reserved.

use vstd::prelude::*;
use vstd::slice::{slice_subrange, slice_to_vec};

use flate2::read::GzDecoder;
use flate2::write::GzEncoder;
use flate2::Compression;
use std::io::Read;
use std::io::Write;

verus! {

pub const PROTOCOL_VERSION: u8 = 0x01;

pub const HEADER_SIZE_WORDS: u8 = 0x01;

pub const MESSAGE_TYPE_FULL_CLIENT: u8 = 0x01;

pub const MESSAGE_TYPE_AUDIO_ONLY: u8 = 0x02;

/// Message type of a full server response carrying a recognition result.
pub const MESSAGE_TYPE_SERVER_FULL: u8 = 0x09;

/// Second server message type that may carry a recognition result.
pub const MESSAGE_TYPE_SERVER_RESULT: u8 = 0x0c;

/// Flag bit set on the zero-payload frame that ends the audio stream.
pub const FLAGS_FINISH: u8 = 0x02;

pub const SERIAL_JSON: u8 = 0x01;

pub const COMPRESS_GZIP: u8 = 0x01;

pub const COMPRESS_NONE: u8 = 0x00;

/// The gzip encoding (default level) of a byte sequence, as flate2
/// produces it.
pub uninterp spec fn gzip_of(b: Seq<u8>) -> Seq<u8>;

/// The gzip decoding of a byte sequence; `None` where the bytes are not a
/// well-formed gzip stream.
pub uninterp spec fn gunzip_of(b: Seq<u8>) -> Option<Seq<u8>>;

/// Relies on flate2's `GzEncoder` at the default compression level:
/// the output is a function of the input bytes alone, and `GzDecoder`
/// recovers the input from it. Writing into a `Vec` cannot fail.
#[verifier::external_body]
pub(crate) fn gzip_compress(data: &[u8]) -> (r: Vec<u8>)
    ensures
        r@ == gzip_of(data@),
        gunzip_of(r@) == Some(data@),
{
    let mut encoder = GzEncoder::new(Vec::with_capacity(data.len()), Compression::default());
    encoder.write_all(data).expect("writing to a Vec cannot fail");
    encoder.finish().expect("writing to a Vec cannot fail")
}

/// Relies on flate2's `GzDecoder`: inflates a gzip stream, or reports an
/// error where the bytes are not one.
#[verifier::external_body]
pub(crate) fn gzip_decompress(data: &[u8]) -> (r: Option<Vec<u8>>)
    ensures
        r is Some <==> gunzip_of(data@) is Some,
        r is Some ==> r.unwrap()@ == gunzip_of(data@).unwrap(),
{
    let mut decoder = GzDecoder::new(data);
    let mut out = Vec::new();
    match decoder.read_to_end(&mut out) {
        Ok(_) => Some(out),
        Err(_) => None,
    }
}

/// Big-endian bytes of a 32-bit length, most significant first.
pub open spec fn spec_be32(x: u32) -> Seq<u8> {
    seq![
        ((x >> 24) & 0xff) as u8,
        ((x >> 16) & 0xff) as u8,
        ((x >> 8) & 0xff) as u8,
        (x & 0xff) as u8,
    ]
}

/// The bytes of a frame: header, big-endian payload length, payload.
/// `payload` is the wire payload, after any compression.
pub open spec fn spec_frame(
    msg_type: u8,
    flags: u8,
    serialization: u8,
    compression: u8,
    payload: Seq<u8>,
) -> Seq<u8>
    recommends
        msg_type < 16,
        flags < 16,
        serialization < 16,
        compression < 16,
        payload.len() <= u32::MAX,
{
    seq![
        ((PROTOCOL_VERSION << 4) | HEADER_SIZE_WORDS) as u8,
        ((msg_type << 4) | flags) as u8,
        ((serialization << 4) | compression) as u8,
        0x00u8,
    ] + spec_be32(payload.len() as u32) + payload
}

/// Header fields and body of a parsed frame. `body` is everything after
/// the declared header: the length prefix is still in front of the
/// payload.
pub struct ParsedFrame {
    pub msg_type: u8,
    pub flags: u8,
    pub compression: u8,
    pub body: Vec<u8>,
}

/// What parsing the fixed header yields: `None` on fewer than four bytes
/// or on a buffer that does not reach past its declared header size.
pub open spec fn spec_parse_frame(data: Seq<u8>) -> Option<(u8, u8, u8, Seq<u8>)> {
    if data.len() < 4 {
        None
    } else {
        let header_size = (data[0] & 0x0f) * 4;
        if data.len() <= header_size {
            None
        } else {
            Some(
                (
                    (data[1] >> 4) as u8,
                    (data[1] & 0x0f) as u8,
                    (data[2] & 0x0f) as u8,
                    data.skip(header_size as int),
                ),
            )
        }
    }
}

/// The payload a frame carries, after the skip prefix and after undoing
/// compression: the frame's message type and flags together with it.
/// The skip prefix inside the body is 8 bytes where flag bit 0 is set,
/// else 4; a compressed payload that does not inflate is handed back raw.
pub open spec fn spec_decode(data: Seq<u8>) -> Option<(u8, u8, Seq<u8>)> {
    match spec_parse_frame(data) {
        None => None,
        Some((msg_type, flags, compression, body)) => {
            let skip: int = if flags & 0x01 == 0x01 {
                8
            } else {
                4
            };
            if body.len() < skip {
                None
            } else {
                let rest = body.skip(skip);
                let payload = if compression == COMPRESS_GZIP {
                    match gunzip_of(rest) {
                        Some(p) => p,
                        None => rest,
                    }
                } else {
                    rest
                };
                Some((msg_type, flags, payload))
            }
        },
    }
}

/// Packing a type and a flag nibble into one byte loses nothing.
pub proof fn lemma_nibbles(hi: u8, lo: u8)
    requires
        hi < 16,
        lo < 16,
    ensures
        ((hi << 4) | lo) >> 4 == hi,
        ((hi << 4) | lo) & 0x0f == lo,
{
    assert(hi < 16 && lo < 16 ==> (((hi << 4) | lo) >> 4 == hi && ((hi << 4) | lo) & 0x0f == lo))
        by (bit_vector);
}

/// Copies `src` onto the end of `out`.
pub(crate) fn push_bytes(out: &mut Vec<u8>, src: &[u8])
    ensures
        final(out)@ == old(out)@ + src@,
{
    let mut i: usize = 0;
    while i < src.len()
        invariant
            i <= src@.len(),
            out@ == old(out)@ + src@.subrange(0, i as int),
        decreases src@.len() - i,
    {
        out.push(src[i]);
        i = i + 1;
        proof {
            assert(out@ =~= old(out)@ + src@.subrange(0, i as int));
        }
    }
    proof {
        assert(out@ =~= old(out)@ + src@);
    }
}

/// Appends the four big-endian bytes of `x` to `out`.
fn push_be32(out: &mut Vec<u8>, x: u32)
    ensures
        final(out)@ == old(out)@ + spec_be32(x),
{
    proof {
        assert((x >> 24) & 0xff < 256 && (x >> 16) & 0xff < 256 && (x >> 8) & 0xff < 256 && x & 0xff
            < 256) by (bit_vector);
    }
    out.push(((x >> 24) & 0xff) as u8);
    out.push(((x >> 16) & 0xff) as u8);
    out.push(((x >> 8) & 0xff) as u8);
    out.push((x & 0xff) as u8);
    proof {
        assert(out@ =~= old(out)@ + spec_be32(x));
    }
}

/// Builds the frame for an already-transformed wire payload.
fn build_frame(msg_type: u8, flags: u8, serialization: u8, compression: u8, payload: &[u8]) -> (r:
    Vec<u8>)
    requires
        msg_type < 16,
        flags < 16,
        serialization < 16,
        compression < 16,
        payload@.len() <= u32::MAX,
    ensures
        r@ == spec_frame(msg_type, flags, serialization, compression, payload@),
        r@.len() == 8 + payload@.len(),
{
    let mut message: Vec<u8> = Vec::new();
    message.push((PROTOCOL_VERSION << 4) | HEADER_SIZE_WORDS);
    message.push((msg_type << 4) | flags);
    message.push((serialization << 4) | compression);
    message.push(0x00);
    push_be32(&mut message, payload.len() as u32);
    push_bytes(&mut message, payload);
    proof {
        assert(message@ =~= spec_frame(msg_type, flags, serialization, compression, payload@));
    }
    message
}

/// Decoding a frame built from a wire payload yields that payload back,
/// before any decompression is undone.
proof fn lemma_frame_decodes(msg_type: u8, flags: u8, serialization: u8, compression: u8, payload: Seq<u8>)
    requires
        msg_type < 16,
        flags < 16,
        serialization < 16,
        compression < 16,
        payload.len() <= u32::MAX,
    ensures
        ({
            let data = spec_frame(msg_type, flags, serialization, compression, payload);
            spec_parse_frame(data) == Some(
                (msg_type, flags, compression, spec_be32(payload.len() as u32) + payload),
            )
        }),
{
    let data = spec_frame(msg_type, flags, serialization, compression, payload);
    assert(data.len() == 8 + payload.len());
    assert(data[0] == (PROTOCOL_VERSION << 4) | HEADER_SIZE_WORDS);
    assert((((0x01u8 << 4) | 0x01u8) & 0x0f) * 4 == 4) by (bit_vector);
    lemma_nibbles(msg_type, flags);
    lemma_nibbles(serialization, compression);
    assert(data.skip(4) =~= spec_be32(payload.len() as u32) + payload);
}

/// Encodes a message: gzip-compresses the payload where asked, then
/// frames it. `None` only where the compressed payload no longer fits
/// the 32-bit length field. Decoding the result recovers the payload
/// exactly, and the declared length is the wire payload's length.
pub fn encode_message(msg_type: u8, payload: &[u8], compress: bool) -> (r: Option<Vec<u8>>)
    requires
        msg_type < 16,
        payload@.len() <= u32::MAX,
    ensures
        !compress ==> r is Some,
        compress ==> (r is Some <==> gzip_of(payload@).len() <= u32::MAX),
        r is Some ==> r.unwrap()@ == spec_frame(
            msg_type,
            0,
            SERIAL_JSON,
            if compress {
                COMPRESS_GZIP
            } else {
                COMPRESS_NONE
            },
            if compress {
                gzip_of(payload@)
            } else {
                payload@
            },
        ),
        r is Some ==> spec_decode(r.unwrap()@) == Some((msg_type, 0u8, payload@)),
{
    let ghost wire: Seq<u8> = if compress {
        gzip_of(payload@)
    } else {
        payload@
    };
    if compress {
        let compressed = gzip_compress(payload);
        if compressed.len() > (u32::MAX as usize) {
            return None;
        }
        let r = build_frame(msg_type, 0, SERIAL_JSON, COMPRESS_GZIP, compressed.as_slice());
        proof {
            lemma_frame_decodes(msg_type, 0, SERIAL_JSON, COMPRESS_GZIP, wire);
            assert(0u8 & 0x01 == 0u8) by (bit_vector);
            let body = spec_be32(wire.len() as u32) + wire;
            assert(body.skip(4) =~= wire);
        }
        Some(r)
    } else {
        let r = build_frame(msg_type, 0, SERIAL_JSON, COMPRESS_NONE, payload);
        proof {
            lemma_frame_decodes(msg_type, 0, SERIAL_JSON, COMPRESS_NONE, wire);
            assert(0u8 & 0x01 == 0u8) by (bit_vector);
            assert(COMPRESS_NONE != COMPRESS_GZIP);
            let body = spec_be32(wire.len() as u32) + wire;
            assert(body.skip(4) =~= wire);
        }
        Some(r)
    }
}

/// Parses the fixed header. `None` on fewer than four bytes, or where
/// the buffer does not reach past its declared header size — never an
/// error.
pub fn parse_frame(data: &[u8]) -> (r: Option<ParsedFrame>)
    ensures
        r is Some <==> spec_parse_frame(data@) is Some,
        r is Some ==> {
            let (msg_type, flags, compression, body) = spec_parse_frame(data@).unwrap();
            let f = r.unwrap();
            f.msg_type == msg_type && f.flags == flags && f.compression == compression && f.body@
                == body
        },
        data@.len() < 4 ==> r is None,
{
    if data.len() < 4 {
        return None;
    }
    let header_size = ((data[0] & 0x0f) as usize) * 4;
    if data.len() <= header_size {
        return None;
    }
    let body_slice = slice_subrange(data, header_size, data.len());
    let body = slice_to_vec(body_slice);
    proof {
        assert(body@ =~= data@.skip(((data@[0] & 0x0f) * 4) as int));
    }
    Some(
        ParsedFrame {
            msg_type: data[1] >> 4,
            flags: data[1] & 0x0f,
            compression: data[2] & 0x0f,
            body,
        },
    )
}

/// Decodes a frame down to its payload: parses the header, skips the
/// fixed prefix (8 bytes where flag bit 0 is set, else 4), and undoes
/// gzip compression, falling back to the raw bytes where inflation
/// fails. `None` only for a buffer too short for its header or prefix.
pub fn decode_message(data: &[u8]) -> (r: Option<(u8, u8, Vec<u8>)>)
    ensures
        r is Some <==> spec_decode(data@) is Some,
        r is Some ==> {
            let (msg_type, flags, payload) = spec_decode(data@).unwrap();
            r.unwrap().0 == msg_type && r.unwrap().1 == flags && r.unwrap().2@ == payload
        },
        data@.len() < 4 ==> r is None,
        data@.len() >= 4 && data@.len() <= (data@[0] & 0x0f) * 4 ==> r is None,
{
    let frame = match parse_frame(data) {
        Some(f) => f,
        None => {
            return None;
        },
    };
    let skip: usize = if frame.flags & 0x01 == 0x01 {
        8
    } else {
        4
    };
    if frame.body.len() < skip {
        return None;
    }
    let rest_slice = slice_subrange(frame.body.as_slice(), skip, frame.body.len());
    let rest = slice_to_vec(rest_slice);
    let payload = if frame.compression == COMPRESS_GZIP {
        match gzip_decompress(rest.as_slice()) {
            Some(p) => p,
            None => rest,
        }
    } else {
        rest
    };
    Some((frame.msg_type, frame.flags, payload))
}


/// Decoding an uncompressed frame whose flag bit 0 is clear yields its
/// payload unchanged.
pub proof fn lemma_decode_uncompressed_frame(
    msg_type: u8,
    flags: u8,
    serialization: u8,
    payload: Seq<u8>,
)
    requires
        msg_type < 16,
        flags < 16,
        flags & 0x01 == 0,
        serialization < 16,
        payload.len() <= u32::MAX,
    ensures
        spec_decode(spec_frame(msg_type, flags, serialization, COMPRESS_NONE, payload)) == Some(
            (msg_type, flags, payload),
        ),
{
    lemma_frame_decodes(msg_type, flags, serialization, COMPRESS_NONE, payload);
    let body = spec_be32(payload.len() as u32) + payload;
    assert(body.skip(4) =~= payload);
}

/// An audio frame's header always declares type audio-only with a zero
/// flag nibble, and its length field is exactly the audio length.
pub proof fn lemma_audio_frame_header(audio: Seq<u8>)
    requires
        audio.len() <= u32::MAX,
    ensures
        ({
            let f = spec_frame(MESSAGE_TYPE_AUDIO_ONLY, 0, 0, 0, audio);
            &&& f[1] >> 4 == MESSAGE_TYPE_AUDIO_ONLY
            &&& f[1] & 0x0f == 0
            &&& f.len() == 8 + audio.len()
            &&& f.subrange(4, 8) == spec_be32(audio.len() as u32)
        }),
{
    lemma_nibbles(MESSAGE_TYPE_AUDIO_ONLY, 0);
    let f = spec_frame(MESSAGE_TYPE_AUDIO_ONLY, 0, 0, 0, audio);
    assert(f.subrange(4, 8) =~= spec_be32(audio.len() as u32));
}

/// Frames one chunk of raw audio bytes: type audio-only, flags 0, no
/// serialization, no compression.
pub fn build_audio_frame(audio: &[u8]) -> (r: Vec<u8>)
    requires
        audio@.len() <= u32::MAX,
    ensures
        r@ == spec_frame(MESSAGE_TYPE_AUDIO_ONLY, 0, 0, 0, audio@),
        r@.len() == 8 + audio@.len(),
        spec_decode(r@) == Some((MESSAGE_TYPE_AUDIO_ONLY, 0u8, audio@)),
{
    let r = build_frame(MESSAGE_TYPE_AUDIO_ONLY, 0, 0, 0, audio);
    proof {
        assert(0u8 & 0x01 == 0u8) by (bit_vector);
        lemma_decode_uncompressed_frame(MESSAGE_TYPE_AUDIO_ONLY, 0, 0, audio@);
    }
    r
}

/// The zero-payload frame that ends the audio stream.
pub fn build_finish_frame() -> (r: Vec<u8>)
    ensures
        r@ == spec_frame(MESSAGE_TYPE_AUDIO_ONLY, FLAGS_FINISH, 0, 0, Seq::empty()),
        r@.len() == 8,
        spec_decode(r@) == Some((MESSAGE_TYPE_AUDIO_ONLY, FLAGS_FINISH, Seq::<u8>::empty())),
{
    let empty: Vec<u8> = Vec::new();
    let r = build_frame(MESSAGE_TYPE_AUDIO_ONLY, FLAGS_FINISH, 0, 0, empty.as_slice());
    proof {
        assert(0x02u8 & 0x01 == 0u8) by (bit_vector);
        lemma_decode_uncompressed_frame(MESSAGE_TYPE_AUDIO_ONLY, FLAGS_FINISH, 0, Seq::empty());
        assert(r@ =~= spec_frame(MESSAGE_TYPE_AUDIO_ONLY, FLAGS_FINISH, 0, 0, Seq::empty()));
    }
    r
}

} // verus!
