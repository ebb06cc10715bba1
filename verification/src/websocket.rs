//! The broadcast protocol, one client at a time.
//!
//! A client sends text messages; the server answers a request for the
//! snapshot with a binary frame, and the two other requests with a short
//! text. The functions here decide what a message means, what it does to the
//! session, and how a snapshot is framed. Receiving and sending, and turning
//! the snapshot into JSON, are done by the caller.

use std::collections::HashMap;
use std::io::Write;
use vstd::prelude::*;
use vstd::string::*;
use crate::text::{bytes_eq, decimal_u32, parse_u32, starts_with};

verus! {

broadcast use vstd::std_specs::hash::group_hash_axioms;

/// A client whose reported round trip is above this many milliseconds has
/// high latency.
pub const HIGH_LATENCY_MS: u32 = 100;

/// A snapshot with more entities than this is crowded.
pub const CROWDED_ENTITIES: usize = 5;

/// JSON longer than this many bytes is compressed as hard as possible.
pub const LARGE_JSON: usize = 20_000;

/// JSON longer than this many bytes is compressed at the default level.
pub const MEDIUM_JSON: usize = 5_000;

/// First byte of a frame whose payload is the JSON text itself.
pub const TAG_RAW: u8 = 0x00;

/// First byte of a frame whose payload is the gzip stream of the JSON text.
pub const TAG_GZIP: u8 = 0x01;

/// What a client's text message asks for.
#[derive(Clone, Copy, Debug, PartialEq, Eq, Structural)]
pub enum ClientMessage {
    /// `requestInfo`: send me the snapshot.
    RequestInfo,
    /// `toggleMoneyReveal`: flip the money reveal switch.
    ToggleMoneyReveal,
    /// `ping:` and a number: the round trip that the client measured, in
    /// milliseconds.
    Ping(u32),
    /// Anything else. It is ignored.
    Other,
}

/// The number that a ping reports: what follows `ping:`, where that is a
/// number in decimal that fits 32 bits.
pub open spec fn reported_ping(text: Seq<u8>) -> Option<u32> {
    if "ping:".spec_bytes().is_prefix_of(text) {
        decimal_u32(text.skip("ping:".spec_bytes().len() as int))
    } else {
        None
    }
}

/// The meaning of a message, by its bytes. A text that begins like a ping
/// and reports no number is like any other text.
pub open spec fn message_of(text: Seq<u8>) -> ClientMessage {
    if text == "requestInfo".spec_bytes() {
        ClientMessage::RequestInfo
    } else if text == "toggleMoneyReveal".spec_bytes() {
        ClientMessage::ToggleMoneyReveal
    } else if reported_ping(text) is Some {
        ClientMessage::Ping(reported_ping(text)->0)
    } else {
        ClientMessage::Other
    }
}

/// Reads a client's text message.
pub fn parse_message(text: &str) -> (r: ClientMessage)
    ensures
        r == message_of(text.spec_bytes()),
{
    let bytes = text.as_bytes();
    let prefix = "ping:".as_bytes();
    if bytes_eq(bytes, "requestInfo".as_bytes()) {
        ClientMessage::RequestInfo
    } else if bytes_eq(bytes, "toggleMoneyReveal".as_bytes()) {
        ClientMessage::ToggleMoneyReveal
    } else if starts_with(bytes, prefix) {
        match parse_u32(bytes, prefix.len()) {
            Some(ping_ms) => ClientMessage::Ping(ping_ms),
            None => ClientMessage::Other,
        }
    } else {
        ClientMessage::Other
    }
}

/// What the server is to do after a message.
#[derive(Clone, Copy, Debug, PartialEq, Eq, Structural)]
pub enum SessionAction {
    /// Send one snapshot frame.
    SendSnapshot,
    /// Flip the money reveal switch of the published snapshot and send the
    /// acknowledgement.
    ToggleMoneyReveal,
    /// Send `pong`.
    SendPong,
    /// Send nothing: the message is ignored, or its frame is skipped.
    Nothing,
}

/// What the server keeps about one connected client.
#[derive(Clone, Copy, Debug, PartialEq, Eq, Structural)]
pub struct ClientSession {
    pub id: u128,
    /// Number of entities in the snapshot last sent.
    pub last_entity_count: usize,
    /// Round trip last reported by the client, in milliseconds.
    pub ping_ms: u32,
    pub high_latency: bool,
    /// Number of snapshot requests, counted from the start of the session
    /// and anew from the request that switched frame skipping on. It starts
    /// again at zero after the largest number it can hold.
    pub frame_counter: u64,
    /// Once set, every second snapshot request goes unanswered, beginning
    /// with the one that follows the switch.
    pub skip_frames: bool,
}

impl ClientSession {
    /// The session of a client that has just connected.
    pub open spec fn start(id: u128) -> ClientSession {
        ClientSession {
            id,
            last_entity_count: 0,
            ping_ms: 0,
            high_latency: false,
            frame_counter: 0,
            skip_frames: false,
        }
    }

    /// The session after the client reported a round trip.
    pub open spec fn after_ping(self, ping_ms: u32) -> ClientSession {
        ClientSession { ping_ms, high_latency: ping_ms > HIGH_LATENCY_MS, ..self }
    }

    /// The session after one more snapshot request was counted.
    pub open spec fn after_request(self) -> ClientSession {
        ClientSession {
            frame_counter: if self.frame_counter == u64::MAX {
                0
            } else {
                (self.frame_counter + 1) as u64
            },
            ..self
        }
    }

    /// Whether the request just counted is answered: while frames are
    /// skipped, those with an odd count are not.
    pub open spec fn answers(self) -> bool {
        !(self.skip_frames && self.frame_counter % 2 != 0)
    }

    /// A snapshot with `count` entities, taken for sending, switches frame
    /// skipping on: it is crowded, the client's round trip is long, and
    /// frames are not skipped yet.
    pub open spec fn switches_skipping_on(self, count: usize) -> bool {
        !self.skip_frames && count > CROWDED_ENTITIES && self.ping_ms > HIGH_LATENCY_MS
    }

    /// The session after a snapshot with `count` entities was taken for
    /// sending. Frame skipping, once switched on, stays on for good; the
    /// requests are counted anew from the one that switched it on, so that
    /// the next one is the first to go unanswered.
    pub open spec fn after_entities(self, count: usize) -> ClientSession {
        if self.switches_skipping_on(count) {
            ClientSession {
                skip_frames: true,
                frame_counter: 0,
                last_entity_count: count,
                ..self
            }
        } else {
            ClientSession { last_entity_count: count, ..self }
        }
    }

    /// The session after a message.
    pub open spec fn after_message(self, message: ClientMessage) -> ClientSession {
        match message {
            ClientMessage::RequestInfo => self.after_request(),
            ClientMessage::Ping(ping_ms) => self.after_ping(ping_ms),
            _ => self,
        }
    }

    /// What the server does after a message, the session being as the
    /// message left it.
    pub open spec fn action_after(self, message: ClientMessage) -> SessionAction {
        match message {
            ClientMessage::RequestInfo => if self.answers() {
                SessionAction::SendSnapshot
            } else {
                SessionAction::Nothing
            },
            ClientMessage::ToggleMoneyReveal => SessionAction::ToggleMoneyReveal,
            ClientMessage::Ping(_) => SessionAction::SendPong,
            ClientMessage::Other => SessionAction::Nothing,
        }
    }

    pub fn new(id: u128) -> (r: ClientSession)
        ensures
            r == Self::start(id),
    {
        ClientSession {
            id,
            last_entity_count: 0,
            ping_ms: 0,
            high_latency: false,
            frame_counter: 0,
            skip_frames: false,
        }
    }

    /// Records the round trip that the client reported.
    pub fn on_ping(&mut self, ping_ms: u32)
        ensures
            *final(self) == old(self).after_ping(ping_ms),
    {
        self.ping_ms = ping_ms;
        self.high_latency = ping_ms > HIGH_LATENCY_MS;
    }

    /// Counts a snapshot request and answers whether it gets a frame.
    pub fn on_request_info(&mut self) -> (send: bool)
        ensures
            *final(self) == old(self).after_request(),
            send == final(self).answers(),
    {
        self.frame_counter = if self.frame_counter == u64::MAX {
            0
        } else {
            self.frame_counter + 1
        };
        !(self.skip_frames && self.frame_counter % 2 != 0)
    }

    /// Notes the size of the snapshot that is about to be sent.
    pub fn observe_entities(&mut self, count: usize)
        ensures
            *final(self) == old(self).after_entities(count),
    {
        if count > CROWDED_ENTITIES && !self.skip_frames && self.ping_ms > HIGH_LATENCY_MS {
            self.skip_frames = true;
            self.frame_counter = 0;
        }
        self.last_entity_count = count;
    }

    /// Takes a client's text message: updates the session and answers what
    /// the server is to do.
    pub fn on_text(&mut self, text: &str) -> (action: SessionAction)
        ensures
            *final(self) == old(self).after_message(message_of(text.spec_bytes())),
            action == final(self).action_after(message_of(text.spec_bytes())),
    {
        match parse_message(text) {
            ClientMessage::RequestInfo => {
                if self.on_request_info() {
                    SessionAction::SendSnapshot
                } else {
                    SessionAction::Nothing
                }
            },
            ClientMessage::ToggleMoneyReveal => SessionAction::ToggleMoneyReveal,
            ClientMessage::Ping(ping_ms) => {
                self.on_ping(ping_ms);
                SessionAction::SendPong
            },
            ClientMessage::Other => SessionAction::Nothing,
        }
    }
}

/// A text that is none of the three requests is ignored: the session stays
/// as it is and nothing is sent. So is a text that begins like a ping and
/// reports no number.
pub proof fn lemma_other_text_is_ignored(session: ClientSession, text: Seq<u8>)
    requires
        text != "requestInfo".spec_bytes(),
        text != "toggleMoneyReveal".spec_bytes(),
        reported_ping(text) is None,
    ensures
        message_of(text) == ClientMessage::Other,
        session.after_message(message_of(text)) == session,
        session.action_after(message_of(text)) == SessionAction::Nothing,
{
}

/// Frame skipping begins with the request that follows the switch: after
/// the snapshot that switched it on, the next request goes unanswered and
/// the one after it is answered.
pub proof fn lemma_skipping_begins_with_next_request(session: ClientSession, count: usize)
    requires
        session.switches_skipping_on(count),
    ensures
        session.after_entities(count).skip_frames,
        !session.after_entities(count).after_request().answers(),
        session.after_entities(count).after_request().after_request().answers(),
{
}

/// While frames are skipped, of any two requests in a row one is answered
/// and one is not; while they are not skipped, every request is answered.
pub proof fn lemma_every_second_request(session: ClientSession)
    ensures
        session.skip_frames ==> session.after_request().answers()
            != session.after_request().after_request().answers(),
        !session.skip_frames ==> session.after_request().answers(),
{
}

/// The bits that every random (version 4) UUID shares: version 4 and the
/// standard variant.
pub open spec fn is_random_uuid(id: u128) -> bool {
    id & 0xF000_C000_0000_0000_0000u128 == 0x4000_8000_0000_0000_0000u128
}

/// Draws a session id with `uuid::Uuid::new_v4` and hands it out as the
/// number that `Uuid::as_u128` gives for it. Nothing is claimed about the
/// id but the version and variant bits, which `new_v4` sets on whatever the
/// random source returned.
#[verifier::external_body]
fn new_session_id() -> (id: u128)
    ensures
        is_random_uuid(id),
{
    uuid::Uuid::new_v4().as_u128()
}

/// The sessions of all connected clients, by id.
pub struct SessionTable {
    sessions: HashMap<u128, ClientSession>,
}

impl View for SessionTable {
    type V = Map<u128, ClientSession>;

    closed spec fn view(&self) -> Map<u128, ClientSession> {
        self.sessions@
    }
}

impl SessionTable {
    /// The table after the session `id` took a message. A message for a
    /// session that is not in the table changes nothing.
    pub open spec fn after_text(table: Map<u128, ClientSession>, id: u128, text: Seq<u8>) -> Map<
        u128,
        ClientSession,
    > {
        if table.contains_key(id) {
            table.insert(id, table[id].after_message(message_of(text)))
        } else {
            table
        }
    }

    /// What the server does after the session `id` took a message, the table
    /// being as the message left it. A request for the snapshot from a
    /// session that is not in the table goes unanswered; the other messages
    /// are answered whoever sent them.
    pub open spec fn action_after(table: Map<u128, ClientSession>, id: u128, text: Seq<u8>)
        -> SessionAction {
        if table.contains_key(id) {
            table[id].action_after(message_of(text))
        } else if message_of(text) is RequestInfo {
            SessionAction::Nothing
        } else {
            ClientSession::start(id).action_after(message_of(text))
        }
    }

    /// The table after the session `id` took a snapshot with `count`
    /// entities for sending.
    pub open spec fn after_entities(table: Map<u128, ClientSession>, id: u128, count: usize)
        -> Map<u128, ClientSession> {
        if table.contains_key(id) {
            table.insert(id, table[id].after_entities(count))
        } else {
            table
        }
    }

    /// A table without sessions.
    pub fn new() -> (r: SessionTable)
        ensures
            r@ == Map::<u128, ClientSession>::empty(),
    {
        SessionTable { sessions: HashMap::new() }
    }

    /// Number of sessions.
    pub fn len(&self) -> (r: usize)
        ensures
            r == self@.len(),
    {
        self.sessions.len()
    }

    /// The session `id` as it stands, if it is in the table.
    pub fn get(&self, id: u128) -> (r: Option<ClientSession>)
        ensures
            r == (if self@.contains_key(id) {
                Some(self@[id])
            } else {
                None
            }),
    {
        match self.sessions.get(&id) {
            Some(session) => Some(*session),
            None => None,
        }
    }

    /// Enters a fresh session under the given id. A session that was there
    /// under this id is replaced.
    pub fn open_as(&mut self, id: u128)
        ensures
            final(self)@ == old(self)@.insert(id, ClientSession::start(id)),
    {
        self.sessions.insert(id, ClientSession::new(id));
    }

    /// Enters a fresh session for a client that has just connected, under a
    /// random id, and answers the id.
    pub fn open(&mut self) -> (id: u128)
        ensures
            is_random_uuid(id),
            final(self)@ == old(self)@.insert(id, ClientSession::start(id)),
    {
        let id = new_session_id();
        self.open_as(id);
        id
    }

    /// Removes the session of a client that is gone.
    pub fn close(&mut self, id: u128)
        ensures
            final(self)@ == old(self)@.remove(id),
    {
        self.sessions.remove(&id);
    }

    /// Hands a client's text message to its session and answers what the
    /// server is to do.
    pub fn on_text(&mut self, id: u128, text: &str) -> (action: SessionAction)
        ensures
            final(self)@ == Self::after_text(old(self)@, id, text.spec_bytes()),
            action == Self::action_after(final(self)@, id, text.spec_bytes()),
    {
        match self.get(id) {
            Some(session) => {
                let mut session = session;
                let action = session.on_text(text);
                self.sessions.insert(id, session);
                action
            },
            None => match parse_message(text) {
                ClientMessage::RequestInfo => SessionAction::Nothing,
                ClientMessage::ToggleMoneyReveal => SessionAction::ToggleMoneyReveal,
                ClientMessage::Ping(_) => SessionAction::SendPong,
                ClientMessage::Other => SessionAction::Nothing,
            },
        }
    }

    /// Notes for the session `id` the size of the snapshot that is about to
    /// be sent to it.
    pub fn observe_entities(&mut self, id: u128, count: usize)
        ensures
            final(self)@ == Self::after_entities(old(self)@, id, count),
    {
        match self.get(id) {
            Some(session) => {
                let mut session = session;
                session.observe_entities(count);
                self.sessions.insert(id, session);
            },
            None => {},
        }
    }
}

/// How hard a snapshot is compressed.
#[derive(Clone, Copy, Debug, PartialEq, Eq, Structural)]
pub enum CompressionLevel {
    Fast,
    Default,
    Best,
}

impl CompressionLevel {
    /// The level on the encoder's scale from 0 to 9.
    pub open spec fn number(self) -> u32 {
        match self {
            CompressionLevel::Fast => 1,
            CompressionLevel::Default => 6,
            CompressionLevel::Best => 9,
        }
    }

    /// The level for JSON of the given length: the best for large JSON and
    /// for clients with high latency, the default for JSON of medium length,
    /// the fast one for the rest.
    pub open spec fn for_json(json_len: nat, high_latency: bool) -> CompressionLevel {
        if json_len > LARGE_JSON || high_latency {
            CompressionLevel::Best
        } else if json_len > MEDIUM_JSON {
            CompressionLevel::Default
        } else {
            CompressionLevel::Fast
        }
    }

    pub fn level(self) -> (r: u32)
        ensures
            r == self.number(),
            r <= 9,
    {
        match self {
            CompressionLevel::Fast => 1,
            CompressionLevel::Default => 6,
            CompressionLevel::Best => 9,
        }
    }

    /// Picks the level for a snapshot.
    pub fn pick(json_len: usize, high_latency: bool) -> (r: CompressionLevel)
        ensures
            r == Self::for_json(json_len as nat, high_latency),
    {
        if json_len > LARGE_JSON || high_latency {
            CompressionLevel::Best
        } else if json_len > MEDIUM_JSON {
            CompressionLevel::Default
        } else {
            CompressionLevel::Fast
        }
    }
}

/// What the encoder answers for `data` at `level`: the gzip stream that it
/// writes, or nothing where it reports an error.
pub uninterp spec fn gzip_result(data: Seq<u8>, level: u32) -> Option<Seq<u8>>;

/// Compresses `data` into a gzip stream in memory with flate2's `GzEncoder`
/// at the given level: `write_all`, then `finish`; an error of either gives
/// `None`. The encoder writes into a vector, which takes every write, and
/// its header carries no time, file name or system: so what it answers, a
/// stream or an error, depends on the data and the level alone, and has a
/// name, [`gzip_result`]. Nothing is claimed of when it is a stream.
#[verifier::external_body]
fn gzip(data: &[u8], level: u32) -> (r: Option<Vec<u8>>)
    requires
        level <= 9,
    ensures
        stream_of(r) == gzip_result(data@, level),
{
    let mut encoder = flate2::write::GzEncoder::new(Vec::new(), flate2::Compression::new(level));
    match encoder.write_all(data) {
        Ok(()) => encoder.finish().ok(),
        Err(_) => None,
    }
}

/// The frame for a snapshot whose JSON text is `json`: the gzip stream behind
/// the gzip tag where there is one and it is shorter than the text, the text
/// itself behind the raw tag otherwise.
pub open spec fn frame_of(json: Seq<u8>, compressed: Option<Seq<u8>>) -> Seq<u8> {
    if compressed is Some && compressed->0.len() < json.len() {
        seq![TAG_GZIP] + compressed->0
    } else {
        seq![TAG_RAW] + json
    }
}

/// The bytes of a compressed stream, if there is one.
pub open spec fn stream_of(compressed: Option<Vec<u8>>) -> Option<Seq<u8>> {
    match compressed {
        Some(stream) => Some(stream@),
        None => None,
    }
}

/// A frame begins with one of the two tags. Behind the gzip tag stands the
/// compressed stream, which is then shorter than the JSON text; behind the
/// raw tag stands the text.
pub proof fn lemma_frame_shape(json: Seq<u8>, compressed: Option<Seq<u8>>)
    ensures
        frame_of(json, compressed).len() >= 1,
        frame_of(json, compressed)[0] == TAG_RAW || frame_of(json, compressed)[0] == TAG_GZIP,
        frame_of(json, compressed)[0] == TAG_GZIP ==> {
            &&& compressed is Some
            &&& frame_of(json, compressed).skip(1) == compressed->0
            &&& compressed->0.len() < json.len()
        },
        frame_of(json, compressed)[0] == TAG_RAW ==> frame_of(json, compressed).skip(1) == json,
{
    if compressed is Some && compressed->0.len() < json.len() {
        assert(frame_of(json, compressed).skip(1) =~= compressed->0);
    } else {
        assert(frame_of(json, compressed).skip(1) =~= json);
    }
}

fn append_bytes(out: &mut Vec<u8>, bytes: &[u8])
    ensures
        final(out)@ == old(out)@ + bytes@,
{
    let mut i: usize = 0;
    while i < bytes.len()
        invariant
            i <= bytes@.len(),
            out@ == old(out)@ + bytes@.take(i as int),
        decreases bytes@.len() - i,
    {
        out.push(bytes[i]);
        i += 1;
        assert(out@ =~= old(out)@ + bytes@.take(i as int));
    }
    assert(bytes@.take(i as int) =~= bytes@);
}

/// Frames a snapshot, given its JSON text and what compressing it gave.
pub fn build_frame(json: &[u8], compressed: Option<Vec<u8>>) -> (frame: Vec<u8>)
    ensures
        frame@ == frame_of(json@, stream_of(compressed)),
{
    let mut frame: Vec<u8> = Vec::new();
    match compressed {
        Some(stream) => {
            if stream.len() < json.len() {
                frame.push(TAG_GZIP);
                append_bytes(&mut frame, stream.as_slice());
            } else {
                frame.push(TAG_RAW);
                append_bytes(&mut frame, json);
            }
        },
        None => {
            frame.push(TAG_RAW);
            append_bytes(&mut frame, json);
        },
    }
    assert(frame@ =~= frame_of(json@, stream_of(compressed)));
    frame
}

/// The level, on the encoder's scale, at which the JSON text `json` is
/// compressed for a client with or without high latency.
pub open spec fn level_for(json: Seq<u8>, high_latency: bool) -> u32 {
    CompressionLevel::for_json(json.len(), high_latency).number()
}

/// The frame to send for a snapshot whose JSON text is `json`, to a client
/// with or without high latency: the frame of the text and of what the
/// encoder answers for it at the level picked for its length and the
/// client. Where the encoder reports an error the frame carries the text as
/// it is.
///
/// The frame begins with one of the two tags; behind the gzip tag stands
/// the gzip stream of the text, shorter than the text, and behind the raw
/// tag the text.
pub fn snapshot_frame(json: &str, high_latency: bool) -> (frame: Vec<u8>)
    ensures
        frame@ == frame_of(
            json.spec_bytes(),
            gzip_result(json.spec_bytes(), level_for(json.spec_bytes(), high_latency)),
        ),
        frame@.len() >= 1,
        frame@[0] == TAG_RAW || frame@[0] == TAG_GZIP,
        frame@[0] == TAG_RAW ==> frame@.skip(1) == json.spec_bytes(),
        frame@[0] == TAG_GZIP ==> {
            &&& Some(frame@.skip(1)) == gzip_result(
                json.spec_bytes(),
                level_for(json.spec_bytes(), high_latency),
            )
            &&& frame@.len() - 1 < json.spec_bytes().len()
        },
{
    let bytes = json.as_bytes();
    let level = CompressionLevel::pick(bytes.len(), high_latency);
    let compressed = gzip(bytes, level.level());
    proof {
        lemma_frame_shape(bytes@, stream_of(compressed));
    }
    build_frame(bytes, compressed)
}

/// The acknowledgement of a flipped money reveal switch.
pub open spec fn toggle_reply_text(enabled: bool) -> Seq<char> {
    if enabled {
        "{\"action\":\"toggleMoneyReveal\",\"status\":\"success\",\"enabled\":true}"@
    } else {
        "{\"action\":\"toggleMoneyReveal\",\"status\":\"success\",\"enabled\":false}"@
    }
}

/// The text sent to a client after it flipped the money reveal switch to
/// `enabled`.
pub fn toggle_reply(enabled: bool) -> (r: String)
    ensures
        r@ == toggle_reply_text(enabled),
{
    if enabled {
        "{\"action\":\"toggleMoneyReveal\",\"status\":\"success\",\"enabled\":true}".to_owned()
    } else {
        "{\"action\":\"toggleMoneyReveal\",\"status\":\"success\",\"enabled\":false}".to_owned()
    }
}

/// The text sent in answer to a ping.
pub fn pong() -> (r: String)
    ensures
        r@ == "pong"@,
{
    "pong".to_owned()
}

} // verus!
