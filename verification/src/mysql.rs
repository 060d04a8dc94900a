//! A MySQL packet stream: packets are framed by the MySQL packet codec into
//! an outbound buffer and decoded from an inbound buffer. Reading from and
//! writing to the network is done by the caller, which hands the received
//! bytes to `MySqlStream::recv_step` and writes out `outbound_bytes`.

use vstd::prelude::*;

use bytes::BytesMut;
use mysql_common::proto::codec::error::PacketCodecError;
use mysql_common::proto::codec::PacketCodec;

verus! {

/// Declares `bytes::BytesMut`; its contents are named by `buffer_bytes`.
#[verifier::external_type_specification]
#[verifier::external_body]
pub struct ExBytesMut(BytesMut);

/// Declares the MySQL `PacketCodec`; its state is carried opaquely.
#[verifier::external_type_specification]
#[verifier::external_body]
pub struct ExPacketCodec(PacketCodec);

/// The errors of the MySQL packet codec, as `PacketCodecError` has them.
pub enum PacketCodecFault {
    Io(std::io::Error),
    PacketTooLarge,
    PacketsOutOfSync,
    BadCompressedPacketHeader,
}

/// The codec error of an outcome, if it is one.
pub open spec fn fault_of<T>(r: Result<T, PacketCodecFault>) -> Option<PacketCodecFault> {
    match r {
        Ok(_) => None,
        Err(e) => Some(e),
    }
}

/// The bytes that a `BytesMut` holds.
pub uninterp spec fn buffer_bytes(b: BytesMut) -> Seq<u8>;

/// What `PacketCodec::encode` appends to its destination when it frames
/// `packet` in the state `codec`; `None` where it refuses the packet.
pub uninterp spec fn codec_frames(codec: PacketCodec, packet: Seq<u8>) -> Option<Seq<u8>>;

/// What `PacketCodec::decode` does in the state `codec` with the source
/// bytes `src` and the partial payload `dst`: whether a whole packet is now
/// in the payload, the source bytes left, and the payload; `None` where it
/// reports an error.
pub uninterp spec fn codec_decoded(codec: PacketCodec, src: Seq<u8>, dst: Seq<u8>) -> Option<
    (bool, Seq<u8>, Seq<u8>),
>;

/// Calls `BytesMut::new`: an empty buffer.
#[verifier::external_body]
fn new_buffer() -> (r: BytesMut)
    ensures
        buffer_bytes(r) == Seq::<u8>::empty(),
{
    BytesMut::new()
}

/// Calls `BytesMut::extend_from_slice`: `data` is appended.
#[verifier::external_body]
fn buffer_extend(b: &mut BytesMut, data: &[u8])
    ensures
        buffer_bytes(*final(b)) == buffer_bytes(*old(b)) + data@,
{
    b.extend_from_slice(data)
}

/// Calls `BytesMut::to_vec`: a copy of the contents.
#[verifier::external_body]
fn buffer_to_vec(b: &BytesMut) -> (r: Vec<u8>)
    ensures
        r@ == buffer_bytes(*b),
{
    b.to_vec()
}

/// The sequence id that a codec gives the next packet chunk it frames and
/// expects on the next chunk it decodes (that of plain packets).
pub uninterp spec fn codec_sequence_id(codec: PacketCodec) -> u8;

/// Whether a codec speaks the plain protocol (compression is off).
pub uninterp spec fn codec_is_plain(codec: PacketCodec) -> bool;

/// The largest payload that a codec frames or accepts (its public
/// `max_allowed_packet`).
pub uninterp spec fn codec_max_allowed_packet(codec: PacketCodec) -> usize;

/// The chunk that a codec's chunk decoder has begun and waits to complete:
/// its sequence id and length. The header of such a chunk has not been taken
/// from the source bytes. `None` where the decoder waits for the start of a
/// chunk.
pub uninterp spec fn codec_pending_chunk(codec: PacketCodec) -> Option<(u8, usize)>;

/// Whether a codec's chunk decoder waits for the start of a chunk, with no
/// chunk half read.
pub open spec fn codec_decoder_idle(codec: PacketCodec) -> bool {
    codec_pending_chunk(codec) is None
}

/// Whether the chunk that a codec waits to complete, if any, is not empty
/// and within the codec's limit, as the decoder only begins such chunks.
pub open spec fn pending_chunk_fits(codec: PacketCodec) -> bool {
    codec_pending_chunk(codec) matches Some((_, n)) ==> 0 < n <= codec_max_allowed_packet(codec)
}

/// The state of a codec after `PacketCodec::encode` has framed `packet`
/// (or refused it) in the state `codec`.
pub uninterp spec fn codec_after_encode(codec: PacketCodec, packet: Seq<u8>) -> PacketCodec;

/// The state of a codec after `PacketCodec::decode` has run in the state
/// `codec` on the source bytes `src` and the partial payload `dst`.
pub uninterp spec fn codec_after_decode(codec: PacketCodec, src: Seq<u8>, dst: Seq<u8>) -> PacketCodec;

/// The largest length that one packet chunk can carry.
pub open spec fn max_payload_len() -> nat {
    0xFF_FFFF
}

/// The sequence id after `s`, wrapping around.
pub open spec fn next_sequence_id(s: u8) -> u8 {
    ((s + 1) % 256) as u8
}

/// The four-byte header of a packet chunk: the length in three bytes, least
/// significant first, then the sequence id.
pub open spec fn frame_header(len: nat, seq: u8) -> Seq<u8> {
    seq![(len % 256) as u8, ((len / 256) % 256) as u8, ((len / 65536) % 256) as u8, seq]
}

/// The chunk length that a header at the start of `src` announces.
pub open spec fn announced_len(src: Seq<u8>) -> nat {
    (src[0] as nat) + 256 * (src[1] as nat) + 65536 * (src[2] as nat)
}

/// What framing `p` does to a plain codec `c`, leaving it in the state
/// `after` with the error `err`, if any, as `PlainPacketCodec::encode` and
/// `packet_to_chunks` show: a packet over the limit is refused as too large
/// and nothing changes; a packet shorter than one full chunk becomes one
/// chunk under the current sequence id, which then advances; the codec stays
/// plain with the same limit and decoder state.
pub open spec fn plain_encode_facts(
    c: PacketCodec,
    p: Seq<u8>,
    after: PacketCodec,
    err: Option<PacketCodecFault>,
) -> bool {
    codec_is_plain(c) ==> {
        &&& (codec_frames(c, p) is None <==> p.len() > codec_max_allowed_packet(c))
        &&& codec_frames(c, p) is None ==> {
            &&& after == c
            &&& err matches Some(PacketCodecFault::PacketTooLarge)
        }
        &&& codec_is_plain(after)
        &&& codec_max_allowed_packet(after) == codec_max_allowed_packet(c)
        &&& codec_pending_chunk(after) == codec_pending_chunk(c)
        &&& (p.len() < max_payload_len() && p.len() <= codec_max_allowed_packet(c)) ==> {
            &&& codec_frames(c, p) == Some(frame_header(p.len(), codec_sequence_id(c)) + p)
            &&& codec_sequence_id(after) == next_sequence_id(codec_sequence_id(c))
        }
    }
}

/// What a plain codec `c` does with an empty payload `dst` when a whole
/// chunk of `n` bytes under the sequence id `s` stands, after its four-byte
/// header, at the start of `src`: where `s` is the expected id, the chunk is
/// a whole packet, the id advances and the decoder waits for the next chunk;
/// otherwise the packets are out of sync.
pub open spec fn plain_chunk_completes(
    c: PacketCodec,
    s: u8,
    n: nat,
    src: Seq<u8>,
    dst: Seq<u8>,
    after: PacketCodec,
    err: Option<PacketCodecFault>,
) -> bool {
    if s == codec_sequence_id(c) {
        &&& codec_decoded(c, src, dst) == Some(
            (true, src.subrange(4 + n as int, src.len() as int), src.subrange(4, 4 + n as int)),
        )
        &&& codec_decoder_idle(after)
        &&& codec_sequence_id(after) == next_sequence_id(codec_sequence_id(c))
    } else {
        &&& codec_decoded(c, src, dst) is None
        &&& err matches Some(PacketCodecFault::PacketsOutOfSync)
    }
}

/// What decoding does to a plain codec `c` with source `src` and partial
/// payload `dst`, leaving it in the state `after` with the error `err`, if
/// any, as `ChunkDecoder::decode` and `PlainPacketCodec::decode` show. The
/// codec stays plain with the same limit, and a chunk it waits for still
/// fits. An idle decoder with fewer than four bytes changes nothing. An idle
/// decoder with an empty payload reads the header at the start of `src`: a
/// chunk over the limit is too large; a chunk shorter than a full one whose
/// bytes have not all arrived is begun, with the bytes left in place; a whole
/// one is complete. A decoder that waits for a chunk changes nothing until
/// all of its bytes have arrived, and then, with an empty payload and a
/// chunk shorter than a full one, the chunk is complete.
pub open spec fn plain_decode_facts(
    c: PacketCodec,
    src: Seq<u8>,
    dst: Seq<u8>,
    after: PacketCodec,
    err: Option<PacketCodecFault>,
) -> bool {
    codec_is_plain(c) ==> {
        &&& codec_is_plain(after)
        &&& codec_max_allowed_packet(after) == codec_max_allowed_packet(c)
        &&& pending_chunk_fits(c) ==> pending_chunk_fits(after)
        &&& (codec_decoder_idle(c) && src.len() < 4) ==> {
            &&& codec_decoded(c, src, dst) == Some((false, src, dst))
            &&& after == c
        }
        &&& (codec_decoder_idle(c) && dst.len() == 0 && src.len() >= 4) ==> {
            let len = announced_len(src);
            &&& len > codec_max_allowed_packet(c) ==> {
                &&& codec_decoded(c, src, dst) is None
                &&& err matches Some(PacketCodecFault::PacketTooLarge)
            }
            &&& (len < max_payload_len() && len <= codec_max_allowed_packet(c) && src.len() < 4
                + len) ==> {
                &&& codec_decoded(c, src, dst) == Some((false, src, dst))
                &&& codec_pending_chunk(after) == Some((src[3], len as usize))
                &&& codec_sequence_id(after) == codec_sequence_id(c)
            }
            &&& (len < max_payload_len() && len <= codec_max_allowed_packet(c) && src.len() >= 4
                + len) ==> plain_chunk_completes(c, src[3], len, src, dst, after, err)
        }
        &&& codec_pending_chunk(c) matches Some((s, n)) ==> {
            &&& src.len() < 4 + n ==> {
                &&& codec_decoded(c, src, dst) == Some((false, src, dst))
                &&& after == c
            }
            &&& (dst.len() == 0 && n < max_payload_len() && src.len() >= 4 + n)
                ==> plain_chunk_completes(c, s, n as nat, src, dst, after, err)
        }
    }
}

/// Calls `PacketCodec::default`: a plain codec with an idle decoder, sequence
/// id zero and the default limit of 4 MiB.
#[verifier::external_body]
fn new_codec() -> (r: PacketCodec)
    ensures
        codec_is_plain(r),
        codec_pending_chunk(r) is None,
        codec_sequence_id(r) == 0,
        codec_max_allowed_packet(r) == 4 * 1024 * 1024,
{
    PacketCodec::default()
}

/// Calls `PacketCodec::reset_seq_id`, which sets the sequence id to zero
/// (with compression on, also that of compressed packets, which is not
/// stated) and keeps the protocol, the limit and the decoder's state.
#[verifier::external_body]
fn codec_reset_seq_id(codec: &mut PacketCodec)
    ensures
        codec_sequence_id(*final(codec)) == 0,
        codec_is_plain(*final(codec)) == codec_is_plain(*old(codec)),
        codec_pending_chunk(*final(codec)) == codec_pending_chunk(*old(codec)),
        codec_max_allowed_packet(*final(codec)) == codec_max_allowed_packet(*old(codec)),
{
    codec.reset_seq_id()
}

/// Calls `PacketCodec::encode` on `packet`: where `codec_frames` names
/// frames, they are appended to `dst`; otherwise the codec's error is
/// returned, and for a plain codec `dst` is kept (a compressing codec may
/// have written part). The codec is left in the state `codec_after_encode`
/// names.
#[verifier::external_body]
fn codec_encode(codec: &mut PacketCodec, packet: &[u8], dst: &mut BytesMut) -> (r: Result<
    (),
    PacketCodecFault,
>)
    ensures
        match codec_frames(*old(codec), packet@) {
            Some(f) => r is Ok && buffer_bytes(*final(dst)) == buffer_bytes(*old(dst)) + f,
            None => r is Err,
        },
        *final(codec) == codec_after_encode(*old(codec), packet@),
        plain_encode_facts(*old(codec), packet@, *final(codec), fault_of(r)),
        (codec_is_plain(*old(codec)) && codec_frames(*old(codec), packet@) is None) ==> buffer_bytes(
            *final(dst),
        ) == buffer_bytes(*old(dst)),
{
    let mut p: &[u8] = packet;
    match codec.encode(&mut p, dst) {
        Ok(()) => Ok(()),
        Err(PacketCodecError::Io(e)) => Err(PacketCodecFault::Io(e)),
        Err(PacketCodecError::PacketTooLarge) => Err(PacketCodecFault::PacketTooLarge),
        Err(PacketCodecError::PacketsOutOfSync) => Err(PacketCodecFault::PacketsOutOfSync),
        Err(PacketCodecError::BadCompressedPacketHeader) => Err(PacketCodecFault::BadCompressedPacketHeader),
    }
}

/// Calls `PacketCodec::decode` from `src` into `dst`, as named by
/// `codec_decoded`; on an error the codec's error is returned and nothing is
/// stated of the buffers. The codec is left in the state
/// `codec_after_decode` names.
#[verifier::external_body]
fn codec_decode(codec: &mut PacketCodec, src: &mut BytesMut, dst: &mut Vec<u8>) -> (r: Result<
    bool,
    PacketCodecFault,
>)
    ensures
        match codec_decoded(*old(codec), buffer_bytes(*old(src)), old(dst)@) {
            Some((done, rest, out)) => r == Ok::<bool, PacketCodecFault>(done) && buffer_bytes(
                *final(src),
            ) == rest && final(dst)@ == out,
            None => r is Err,
        },
        *final(codec) == codec_after_decode(*old(codec), buffer_bytes(*old(src)), old(dst)@),
        plain_decode_facts(
            *old(codec),
            buffer_bytes(*old(src)),
            old(dst)@,
            *final(codec),
            fault_of(r),
        ),
{
    match codec.decode(src, dst) {
        Ok(done) => Ok(done),
        Err(PacketCodecError::Io(e)) => Err(PacketCodecFault::Io(e)),
        Err(PacketCodecError::PacketTooLarge) => Err(PacketCodecFault::PacketTooLarge),
        Err(PacketCodecError::PacketsOutOfSync) => Err(PacketCodecFault::PacketsOutOfSync),
        Err(PacketCodecError::BadCompressedPacketHeader) => Err(PacketCodecFault::BadCompressedPacketHeader),
    }
}

/// A connection that may have been upgraded to TLS.
pub enum MaybeTlsStream<R, T> {
    Raw(R),
    Tls(T),
    Upgrading,
}

/// Errors of a MySQL packet stream.
pub enum MySqlStreamError {
    Codec(PacketCodecFault),
    Io(std::io::Error),
}

/// The codec error of a stream outcome, if it is one.
pub open spec fn stream_fault<T>(r: Result<T, MySqlStreamError>) -> Option<PacketCodecFault> {
    match r {
        Err(MySqlStreamError::Codec(f)) => Some(f),
        _ => None,
    }
}

/// What the caller reports to a receive step: that receiving starts, or the
/// bytes that one read from the connection gave (none at end of stream).
pub enum RecvEvent {
    Start,
    Received(Vec<u8>),
}

/// What a receive step asks of the caller: take the packet, read more bytes,
/// or stop because the connection has ended.
pub enum RecvAction {
    Deliver(Vec<u8>),
    ReadMore,
    EndOfStream,
}

/// A MySQL packet stream over a connection that may be upgraded to TLS.
pub struct MySqlStream<R, T> {
    stream: MaybeTlsStream<R, T>,
    codec: PacketCodec,
    inbound_buffer: BytesMut,
    outbound_buffer: BytesMut,
}

impl<R, T> MySqlStream<R, T> {
    /// The connection.
    pub closed spec fn spec_stream(&self) -> MaybeTlsStream<R, T> {
        self.stream
    }

    /// The state of the packet codec.
    pub closed spec fn spec_codec(&self) -> PacketCodec {
        self.codec
    }

    /// The sequence id that the next packet chunk is framed with and that
    /// the next chunk received must carry.
    pub open spec fn sequence_id(&self) -> u8 {
        codec_sequence_id(self.spec_codec())
    }

    /// The received bytes not yet decoded.
    pub closed spec fn inbound(&self) -> Seq<u8> {
        buffer_bytes(self.inbound_buffer)
    }

    /// The framed bytes not yet sent.
    pub closed spec fn outbound(&self) -> Seq<u8> {
        buffer_bytes(self.outbound_buffer)
    }

    /// A packet stream over `stream` with empty buffers and a fresh codec.
    pub fn new(stream: MaybeTlsStream<R, T>) -> (r: Self)
        ensures
            r.spec_stream() == stream,
            codec_is_plain(r.spec_codec()),
            codec_decoder_idle(r.spec_codec()),
            codec_max_allowed_packet(r.spec_codec()) == 4 * 1024 * 1024,
            codec_sequence_id(r.spec_codec()) == 0,
            r.inbound() == Seq::<u8>::empty(),
            r.outbound() == Seq::<u8>::empty(),
    {
        MySqlStream {
            stream,
            codec: new_codec(),
            inbound_buffer: new_buffer(),
            outbound_buffer: new_buffer(),
        }
    }

    /// Frames the encoded packet `packet` and queues the frames for sending.
    pub fn push(&mut self, packet: &[u8]) -> (r: Result<(), MySqlStreamError>)
        ensures
            final(self).spec_stream() == old(self).spec_stream(),
            final(self).inbound() == old(self).inbound(),
            match codec_frames(old(self).spec_codec(), packet@) {
                Some(f) => r is Ok && final(self).outbound() == old(self).outbound() + f,
                None => r matches Err(MySqlStreamError::Codec(_)),
            },
            final(self).spec_codec() == codec_after_encode(old(self).spec_codec(), packet@),
            plain_encode_facts(
                old(self).spec_codec(),
                packet@,
                final(self).spec_codec(),
                stream_fault(r),
            ),
            (codec_is_plain(old(self).spec_codec()) && r is Err) ==> final(self).outbound()
                == old(self).outbound(),
            (codec_is_plain(old(self).spec_codec()) && packet@.len() > codec_max_allowed_packet(
                old(self).spec_codec(),
            )) ==> {
                &&& r matches Err(MySqlStreamError::Codec(PacketCodecFault::PacketTooLarge))
                &&& final(self).spec_codec() == old(self).spec_codec()
                &&& final(self).outbound() == old(self).outbound()
            },
    {
        match codec_encode(&mut self.codec, packet, &mut self.outbound_buffer) {
            Ok(()) => Ok(()),
            Err(e) => Err(MySqlStreamError::Codec(e)),
        }
    }

    /// The framed bytes waiting to be sent.
    pub fn outbound_bytes(&self) -> (r: Vec<u8>)
        ensures
            r@ == self.outbound(),
    {
        buffer_to_vec(&self.outbound_buffer)
    }

    /// Forgets the framed bytes after they have been sent.
    pub fn clear_outbound(&mut self)
        ensures
            final(self).outbound() == Seq::<u8>::empty(),
            final(self).inbound() == old(self).inbound(),
            final(self).spec_stream() == old(self).spec_stream(),
            final(self).spec_codec() == old(self).spec_codec(),
    {
        self.outbound_buffer = new_buffer();
    }

    /// One step of receiving a packet. At `Start`, and after bytes arrive
    /// (which are appended to the inbound buffer), the codec tries to decode
    /// a whole packet into `payload`; a whole packet is delivered and the
    /// payload emptied, otherwise more bytes are asked for. A read that gave
    /// no bytes ends the stream.
    pub fn recv_step(&mut self, payload: &mut Vec<u8>, event: RecvEvent) -> (r: Result<
        RecvAction,
        MySqlStreamError,
    >)
        ensures
            final(self).spec_stream() == old(self).spec_stream(),
            final(self).outbound() == old(self).outbound(),
            recv_step_outcome(
                old(self).spec_codec(),
                old(self).inbound(),
                old(payload)@,
                event,
                final(self).spec_codec(),
                final(self).inbound(),
                final(payload)@,
                r,
            ),
    {
        match event {
            RecvEvent::Received(data) => {
                if data.len() == 0 {
                    return Ok(RecvAction::EndOfStream);
                }
                buffer_extend(&mut self.inbound_buffer, data.as_slice());
            },
            RecvEvent::Start => {},
        }
        match codec_decode(&mut self.codec, &mut self.inbound_buffer, payload) {
            Ok(true) => {
                let mut packet: Vec<u8> = Vec::new();
                std::mem::swap(&mut packet, payload);
                Ok(RecvAction::Deliver(packet))
            },
            Ok(false) => Ok(RecvAction::ReadMore),
            Err(e) => Err(MySqlStreamError::Codec(e)),
        }
    }

    /// Resets the codec's sequence id to zero: the next packet is framed,
    /// and the next one received is expected, under the id zero.
    pub fn reset_sequence_id(&mut self)
        ensures
            codec_sequence_id(final(self).spec_codec()) == 0,
            codec_is_plain(final(self).spec_codec()) == codec_is_plain(old(self).spec_codec()),
            codec_pending_chunk(final(self).spec_codec()) == codec_pending_chunk(
                old(self).spec_codec(),
            ),
            codec_max_allowed_packet(final(self).spec_codec()) == codec_max_allowed_packet(
                old(self).spec_codec(),
            ),
            final(self).spec_stream() == old(self).spec_stream(),
            final(self).inbound() == old(self).inbound(),
            final(self).outbound() == old(self).outbound(),
    {
        codec_reset_seq_id(&mut self.codec);
    }

    /// Whether the connection has been upgraded to TLS.
    pub fn is_tls(&self) -> (r: bool)
        ensures
            r == (self.spec_stream() is Tls),
    {
        match self.stream {
            MaybeTlsStream::Raw(_) => false,
            MaybeTlsStream::Tls(_) => true,
            MaybeTlsStream::Upgrading => false,
        }
    }

    /// Takes the connection out, leaving `Upgrading` in its place, so that
    /// it can be upgraded.
    pub fn take_stream(&mut self) -> (r: MaybeTlsStream<R, T>)
        ensures
            r == old(self).spec_stream(),
            final(self).spec_stream() is Upgrading,
            final(self).spec_codec() == old(self).spec_codec(),
            final(self).inbound() == old(self).inbound(),
            final(self).outbound() == old(self).outbound(),
    {
        let mut s = MaybeTlsStream::Upgrading;
        std::mem::swap(&mut s, &mut self.stream);
        s
    }

    /// Puts a connection in, such as the upgraded one.
    pub fn set_stream(&mut self, stream: MaybeTlsStream<R, T>)
        ensures
            final(self).spec_stream() == stream,
            final(self).spec_codec() == old(self).spec_codec(),
            final(self).inbound() == old(self).inbound(),
            final(self).outbound() == old(self).outbound(),
    {
        self.stream = stream;
    }

    /// The connection, given up.
    pub fn into_inner(self) -> (r: MaybeTlsStream<R, T>)
        ensures
            r == self.spec_stream(),
    {
        self.stream
    }
}

/// What one receive step does, given the codec state, the inbound bytes and
/// the payload before it, and the event.
pub open spec fn recv_step_outcome(
    codec: PacketCodec,
    inbound: Seq<u8>,
    payload: Seq<u8>,
    event: RecvEvent,
    new_codec: PacketCodec,
    new_inbound: Seq<u8>,
    new_payload: Seq<u8>,
    r: Result<RecvAction, MySqlStreamError>,
) -> bool {
    if event matches RecvEvent::Received(d) && d@.len() == 0 {
        r matches Ok(RecvAction::EndOfStream) && new_codec == codec && new_inbound == inbound
            && new_payload == payload
    } else {
        let src = match event {
            RecvEvent::Received(d) => inbound + d@,
            RecvEvent::Start => inbound,
        };
        &&& new_codec == codec_after_decode(codec, src, payload)
        &&& plain_decode_facts(codec, src, payload, new_codec, stream_fault(r))
        &&& match codec_decoded(codec, src, payload) {
            Some((done, rest, out)) => new_inbound == rest && if done {
                r matches Ok(RecvAction::Deliver(p)) && p@ == out && new_payload.len() == 0
            } else {
                r matches Ok(RecvAction::ReadMore) && new_payload == out
            },
            None => r matches Err(MySqlStreamError::Codec(_)),
        }
    }
}


/// A header announces the length that it was made for.
pub proof fn lemma_header_announces_len(len: nat, seq: u8)
    requires
        len < max_payload_len(),
    ensures
        announced_len(frame_header(len, seq)) == len,
{
    let h = frame_header(len, seq);
    let a = len % 256;
    let b = (len / 256) % 256;
    let c = (len / 65536) % 256;
    assert(h[0] as nat == a);
    assert(h[1] as nat == b);
    assert(h[2] as nat == c);
    assert(a + 256 * b + 65536 * c == len) by (nonlinear_arith)
        requires
            len < 0x100_0000,
            a == len % 256,
            b == (len / 256) % 256,
            c == (len / 65536) % 256,
    {
        assert(len == 256 * (len / 256) + a);
        assert(len / 256 == 256 * (len / 65536) + b);
        assert(len / 65536 < 256);
        assert(c == len / 65536);
    }
}

/// Receiving undoes pushing: where a plain codec frames a packet shorter
/// than a full chunk and within both codecs' limits, a plain peer codec with
/// an idle decoder, no partial payload and the same sequence id decodes from
/// those frames, whatever bytes follow them, exactly that packet, leaves the
/// bytes that follow, and both codecs move on to the same next sequence id.
/// The requirements on the states after the calls are what `push` and
/// `recv_step` state of them.
pub proof fn law_recv_undoes_push(
    sender: PacketCodec,
    sender_after: PacketCodec,
    packet: Seq<u8>,
    receiver: PacketCodec,
    receiver_after: PacketCodec,
    rest: Seq<u8>,
    sender_err: Option<PacketCodecFault>,
    receiver_err: Option<PacketCodecFault>,
)
    requires
        codec_is_plain(sender),
        codec_is_plain(receiver),
        codec_decoder_idle(receiver),
        codec_sequence_id(sender) == codec_sequence_id(receiver),
        packet.len() < max_payload_len(),
        packet.len() <= codec_max_allowed_packet(sender),
        packet.len() <= codec_max_allowed_packet(receiver),
        plain_encode_facts(sender, packet, sender_after, sender_err),
        codec_frames(sender, packet) is Some,
        plain_decode_facts(
            receiver,
            codec_frames(sender, packet)->0 + rest,
            Seq::empty(),
            receiver_after,
            receiver_err,
        ),
    ensures
        codec_decoded(receiver, codec_frames(sender, packet)->0 + rest, Seq::empty()) == Some(
            (true, rest, packet),
        ),
        codec_sequence_id(sender_after) == codec_sequence_id(receiver_after),
        codec_decoder_idle(receiver_after),
{
    let s = codec_sequence_id(sender);
    let h = frame_header(packet.len(), s);
    let src = h + packet + rest;
    assert(codec_frames(sender, packet)->0 + rest =~= src);
    lemma_header_announces_len(packet.len(), s);
    assert(announced_len(src) == announced_len(h));
    assert(src[3] == s);
    assert(src.subrange(4, 4 + packet.len() as int) =~= packet);
    assert(src.subrange(4 + packet.len() as int, src.len() as int) =~= rest);
}

/// A read in which a plain codec, whose limit is below a full chunk and
/// whose waiting chunk (if any) fits, finds no whole packet leaves the
/// source bytes and the empty payload as they were.
proof fn lemma_incomplete_read_stays(
    c: PacketCodec,
    a: Seq<u8>,
    c1: PacketCodec,
    err1: Option<PacketCodecFault>,
)
    requires
        codec_is_plain(c),
        codec_max_allowed_packet(c) < max_payload_len(),
        pending_chunk_fits(c),
        plain_decode_facts(c, a, Seq::empty(), c1, err1),
        codec_decoded(c, a, Seq::empty()) matches Some((done, _, _)) && !done,
    ensures
        codec_decoded(c, a, Seq::empty()) == Some((false, a, Seq::<u8>::empty())),
        codec_decoder_idle(c) && a.len() >= 4 ==> {
            &&& a.len() < 4 + announced_len(a)
            &&& announced_len(a) <= codec_max_allowed_packet(c)
            &&& codec_pending_chunk(c1) == Some((a[3], announced_len(a) as usize))
            &&& codec_sequence_id(c1) == codec_sequence_id(c)
        },
        !(codec_decoder_idle(c) && a.len() >= 4) ==> c1 == c,
{
    let e = Seq::<u8>::empty();
    if codec_decoder_idle(c) && a.len() >= 4 {
        let len = announced_len(a);
        assert(len <= codec_max_allowed_packet(c));
        if a.len() >= 4 + len {
            assert(plain_chunk_completes(c, a[3], len, a, e, c1, err1));
        }
    } else if codec_pending_chunk(c) is Some {
        let (s, n) = codec_pending_chunk(c)->0;
        if a.len() >= 4 + n {
            assert(plain_chunk_completes(c, s, n as nat, a, e, c1, err1));
        }
    }
}

/// Decoding does not depend on how the received bytes were split into
/// reads. Where a plain codec `c`, whose limit is below a full chunk and
/// whose waiting chunk (if any) fits, decodes the bytes `a` into an empty
/// payload without finding a whole packet, and so moves to the state `c1`,
/// the bytes `a` stay where they were, and decoding `a + b` from `c1` gives
/// what decoding `a + b` from `c` gives:
/// the same packet and bytes left, or an error of the same kind; and on
/// success both leave the codec with the same sequence id and decoder state.
/// The requirements on the states after the calls are what `recv_step`
/// states of them.
pub proof fn law_decode_ignores_split(
    c: PacketCodec,
    a: Seq<u8>,
    b: Seq<u8>,
    c1: PacketCodec,
    err1: Option<PacketCodecFault>,
    split_err: Option<PacketCodecFault>,
    whole_err: Option<PacketCodecFault>,
)
    requires
        codec_is_plain(c),
        codec_max_allowed_packet(c) < max_payload_len(),
        pending_chunk_fits(c),
        c1 == codec_after_decode(c, a, Seq::empty()),
        plain_decode_facts(c, a, Seq::empty(), c1, err1),
        codec_decoded(c, a, Seq::empty()) matches Some((done, _, _)) && !done,
        plain_decode_facts(
            c1,
            a + b,
            Seq::empty(),
            codec_after_decode(c1, a + b, Seq::empty()),
            split_err,
        ),
        plain_decode_facts(
            c,
            a + b,
            Seq::empty(),
            codec_after_decode(c, a + b, Seq::empty()),
            whole_err,
        ),
    ensures
        codec_decoded(c, a, Seq::empty()) == Some((false, a, Seq::<u8>::empty())),
        codec_decoded(c1, a + b, Seq::empty()) == codec_decoded(c, a + b, Seq::empty()),
        codec_decoded(c, a + b, Seq::empty()) is Some ==> {
            let split_after = codec_after_decode(c1, a + b, Seq::empty());
            let whole_after = codec_after_decode(c, a + b, Seq::empty());
            &&& codec_sequence_id(split_after) == codec_sequence_id(whole_after)
            &&& codec_pending_chunk(split_after) == codec_pending_chunk(whole_after)
        },
        codec_decoded(c, a + b, Seq::empty()) is None ==> split_err == whole_err,
{
    let e = Seq::<u8>::empty();
    let src = a + b;
    lemma_incomplete_read_stays(c, a, c1, err1);
    if codec_decoder_idle(c) && a.len() >= 4 {
        let len = announced_len(a);
        assert(src[0] == a[0] && src[1] == a[1] && src[2] == a[2] && src[3] == a[3]);
        assert(announced_len(src) == len);
        if src.len() >= 4 + len {
            assert(plain_chunk_completes(c1, a[3], len, src, e, codec_after_decode(c1, src, e), split_err));
            assert(plain_chunk_completes(c, src[3], len, src, e, codec_after_decode(c, src, e), whole_err));
        }
    }
}

/// Whether two receive steps ended alike: the same action with the same
/// packet, or the same error.
pub open spec fn same_recv_result(
    x: Result<RecvAction, MySqlStreamError>,
    y: Result<RecvAction, MySqlStreamError>,
) -> bool {
    match (x, y) {
        (Ok(RecvAction::Deliver(p)), Ok(RecvAction::Deliver(q))) => p@ == q@,
        (Ok(RecvAction::ReadMore), Ok(RecvAction::ReadMore)) => true,
        (Ok(RecvAction::EndOfStream), Ok(RecvAction::EndOfStream)) => true,
        (Err(e), Err(f)) => e == f,
        _ => false,
    }
}

/// Receiving does not depend on how the peer's bytes were split into reads.
/// From the same codec state and inbound bytes and an empty payload, a step
/// on the bytes `first` that asks for more, followed by a step on `second`,
/// ends as one step on `first + second` does: alike by `same_recv_result`,
/// and on success with the same inbound bytes, payload, sequence id and
/// decoder state. The codec is plain, its limit is below a full chunk and a
/// chunk it waits for fits, as holds of every stream's codec (whose limit
/// is 4 MiB). The requirements on the states after the steps are what
/// `recv_step` states of them. Applied again, it covers any number of reads.
pub proof fn law_recv_ignores_split(
    codec: PacketCodec,
    inbound: Seq<u8>,
    first: Vec<u8>,
    second: Vec<u8>,
    both: Vec<u8>,
    codec1: PacketCodec,
    inbound1: Seq<u8>,
    payload1: Seq<u8>,
    r1: Result<RecvAction, MySqlStreamError>,
    codec2: PacketCodec,
    inbound2: Seq<u8>,
    payload2: Seq<u8>,
    r2: Result<RecvAction, MySqlStreamError>,
    whole_codec: PacketCodec,
    whole_inbound: Seq<u8>,
    whole_payload: Seq<u8>,
    whole: Result<RecvAction, MySqlStreamError>,
)
    requires
        codec_is_plain(codec),
        codec_max_allowed_packet(codec) < max_payload_len(),
        pending_chunk_fits(codec),
        first@.len() > 0,
        second@.len() > 0,
        both@ == first@ + second@,
        recv_step_outcome(
            codec,
            inbound,
            Seq::empty(),
            RecvEvent::Received(first),
            codec1,
            inbound1,
            payload1,
            r1,
        ),
        r1 matches Ok(RecvAction::ReadMore),
        recv_step_outcome(
            codec1,
            inbound1,
            payload1,
            RecvEvent::Received(second),
            codec2,
            inbound2,
            payload2,
            r2,
        ),
        recv_step_outcome(
            codec,
            inbound,
            Seq::empty(),
            RecvEvent::Received(both),
            whole_codec,
            whole_inbound,
            whole_payload,
            whole,
        ),
    ensures
        same_recv_result(r2, whole),
        whole is Ok ==> {
            &&& inbound2 == whole_inbound
            &&& payload2 == whole_payload
            &&& codec_sequence_id(codec2) == codec_sequence_id(whole_codec)
            &&& codec_pending_chunk(codec2) == codec_pending_chunk(whole_codec)
        },
{
    let e = Seq::<u8>::empty();
    let a = inbound + first@;
    lemma_incomplete_read_stays(codec, a, codec1, stream_fault(r1));
    assert(inbound1 == a);
    assert(payload1 =~= e);
    assert(inbound1 + second@ =~= inbound + both@);
    law_decode_ignores_split(
        codec,
        a,
        second@,
        codec1,
        stream_fault(r1),
        stream_fault(r2),
        stream_fault(whole),
    );
}

/// Receiving undoes pushing on fresh streams: a packet within the default
/// limit pushed on a fresh stream, whose framed bytes, followed by any
/// others, reach a fresh peer stream in one read, is received there whole,
/// the bytes that follow stay in the peer's inbound buffer, and both streams
/// move on to the sequence id one. The requirements on the streams are what
/// `new`, `push` and `recv_step` state of them.
pub proof fn law_fresh_streams_round_trip<R, T, R2, T2>(
    sender: MySqlStream<R, T>,
    sender_after: MySqlStream<R, T>,
    packet: Seq<u8>,
    pushed: Result<(), MySqlStreamError>,
    receiver: MySqlStream<R2, T2>,
    read: Vec<u8>,
    rest: Seq<u8>,
    receiver_codec: PacketCodec,
    receiver_inbound: Seq<u8>,
    payload: Seq<u8>,
    received: Result<RecvAction, MySqlStreamError>,
)
    requires
        codec_is_plain(sender.spec_codec()),
        codec_decoder_idle(sender.spec_codec()),
        codec_max_allowed_packet(sender.spec_codec()) == 4 * 1024 * 1024,
        codec_sequence_id(sender.spec_codec()) == 0,
        sender.outbound() == Seq::<u8>::empty(),
        codec_is_plain(receiver.spec_codec()),
        codec_decoder_idle(receiver.spec_codec()),
        codec_max_allowed_packet(receiver.spec_codec()) == 4 * 1024 * 1024,
        codec_sequence_id(receiver.spec_codec()) == 0,
        receiver.inbound() == Seq::<u8>::empty(),
        packet.len() <= 4 * 1024 * 1024,
        match codec_frames(sender.spec_codec(), packet) {
            Some(f) => pushed is Ok && sender_after.outbound() == sender.outbound() + f,
            None => pushed matches Err(MySqlStreamError::Codec(_)),
        },
        plain_encode_facts(
            sender.spec_codec(),
            packet,
            sender_after.spec_codec(),
            stream_fault(pushed),
        ),
        read@ == sender_after.outbound() + rest,
        recv_step_outcome(
            receiver.spec_codec(),
            receiver.inbound(),
            Seq::empty(),
            RecvEvent::Received(read),
            receiver_codec,
            receiver_inbound,
            payload,
            received,
        ),
    ensures
        pushed is Ok,
        received matches Ok(RecvAction::Deliver(p)) && p@ == packet,
        receiver_inbound == rest,
        payload.len() == 0,
        codec_sequence_id(sender_after.spec_codec()) == 1,
        codec_sequence_id(receiver_codec) == 1,
{
    let sc = sender.spec_codec();
    let rc = receiver.spec_codec();
    let f = frame_header(packet.len(), 0) + packet;
    assert(codec_frames(sc, packet) == Some(f));
    assert(sender_after.outbound() =~= f);
    assert(receiver.inbound() + read@ =~= f + rest);
    law_recv_undoes_push(
        sc,
        sender_after.spec_codec(),
        packet,
        rc,
        receiver_codec,
        rest,
        stream_fault(pushed),
        stream_fault(received),
    );
}

/// Pushing packets leaves the connection and the received bytes alone: along
/// a run of stream states, each of which keeps the connection and the
/// inbound bytes of the one before (as `push` states), the last state holds
/// the connection and the inbound bytes of the first, so that `into_inner`
/// gives back the connection the stream was made with.
pub proof fn law_pushes_keep_stream<R, T>(states: Seq<MySqlStream<R, T>>)
    requires
        states.len() > 0,
        forall|i: int|
            0 <= i < states.len() - 1 ==> (#[trigger] states[i + 1]).spec_stream()
                == states[i].spec_stream() && states[i + 1].inbound() == states[i].inbound(),
    ensures
        states.last().spec_stream() == states[0].spec_stream(),
        states.last().inbound() == states[0].inbound(),
    decreases states.len(),
{
    if states.len() > 1 {
        let prefix = states.drop_last();
        assert forall|i: int| 0 <= i < prefix.len() - 1 implies (#[trigger] prefix[i + 1]).spec_stream()
            == prefix[i].spec_stream() && prefix[i + 1].inbound() == prefix[i].inbound() by {
            assert(states[i + 1] == prefix[i + 1]);
        }
        law_pushes_keep_stream(prefix);
        assert(states[states.len() - 1] == states[(states.len() - 2) + 1]);
    }
}

/// The bytes a receive step works on: the inbound bytes, followed by those
/// of the read where there is one.
pub open spec fn step_source(inbound: Seq<u8>, event: RecvEvent) -> Seq<u8> {
    match event {
        RecvEvent::Received(d) => inbound + d@,
        RecvEvent::Start => inbound,
    }
}

/// The chunk a codec decodes next from `src`: the one it waits to complete,
/// or the one whose header starts `src`; its sequence id and length.
pub open spec fn next_chunk(codec: PacketCodec, src: Seq<u8>) -> (u8, nat) {
    match codec_pending_chunk(codec) {
        Some((s, n)) => (s, n as nat),
        None => (src[3], announced_len(src)),
    }
}

/// No receive step loses received bytes, and a delivered packet is the next
/// chunk of those bytes. For a plain codec whose limit is below a full
/// chunk and whose waiting chunk fits, with an empty payload, a step at
/// `Start` or on a non-empty read works on the inbound bytes followed by the
/// bytes read. Where it asks for more, the next chunk has not fully arrived,
/// the inbound buffer afterwards holds exactly those bytes and the payload
/// stays empty. Where it delivers a packet, the chunk has fully arrived and
/// carries the expected sequence id, the packet is the chunk's bytes after
/// its four-byte header, the bytes after the chunk stay in the inbound
/// buffer, and the sequence id advances. Where it fails, the chunk is over
/// the limit (too large) or has arrived under another sequence id (out of
/// sync). The requirement on the states after the step is what `recv_step`
/// states of them.
pub proof fn law_recv_step_keeps_received_bytes(
    codec: PacketCodec,
    inbound: Seq<u8>,
    event: RecvEvent,
    new_codec: PacketCodec,
    new_inbound: Seq<u8>,
    new_payload: Seq<u8>,
    r: Result<RecvAction, MySqlStreamError>,
)
    requires
        codec_is_plain(codec),
        codec_max_allowed_packet(codec) < max_payload_len(),
        pending_chunk_fits(codec),
        !(event matches RecvEvent::Received(d) && d@.len() == 0),
        recv_step_outcome(
            codec,
            inbound,
            Seq::empty(),
            event,
            new_codec,
            new_inbound,
            new_payload,
            r,
        ),
    ensures
        r matches Ok(RecvAction::ReadMore) ==> {
            let src = step_source(inbound, event);
            &&& new_inbound == src
            &&& new_payload.len() == 0
            &&& (codec_decoder_idle(codec) && src.len() < 4) || src.len() < 4 + next_chunk(
                codec,
                src,
            ).1
        },
        r matches Ok(RecvAction::Deliver(p)) ==> {
            let src = step_source(inbound, event);
            let (s, n) = next_chunk(codec, src);
            &&& src.len() >= 4 + n
            &&& s == codec_sequence_id(codec)
            &&& p@ == src.subrange(4, 4 + n as int)
            &&& new_inbound == src.subrange(4 + n as int, src.len() as int)
            &&& new_payload.len() == 0
            &&& codec_sequence_id(new_codec) == next_sequence_id(s)
        },
        !(r matches Ok(RecvAction::EndOfStream)),
        r is Err ==> {
            let src = step_source(inbound, event);
            let (s, n) = next_chunk(codec, src);
            ||| codec_decoder_idle(codec) && src.len() >= 4 && n > codec_max_allowed_packet(codec)
                && r matches Err(MySqlStreamError::Codec(PacketCodecFault::PacketTooLarge))
            ||| src.len() >= 4 + n && s != codec_sequence_id(codec) && r matches Err(
                MySqlStreamError::Codec(PacketCodecFault::PacketsOutOfSync),
            )
        },
{
    let e = Seq::<u8>::empty();
    let src = step_source(inbound, event);
    let err = stream_fault(r);
    if codec_decoder_idle(codec) {
        if src.len() >= 4 {
            let len = announced_len(src);
            if len <= codec_max_allowed_packet(codec) && src.len() >= 4 + len {
                assert(plain_chunk_completes(codec, src[3], len, src, e, new_codec, err));
            }
        }
    } else {
        let (s, n) = codec_pending_chunk(codec)->0;
        if src.len() >= 4 + n {
            assert(plain_chunk_completes(codec, s, n as nat, src, e, new_codec, err));
        }
    }
}

} // verus!
