//! Messages, the wire format, and the state of one peer connection.
//!
//! A [`Connection`] holds what the reading side and the sending side of one
//! socket share: the peer's display name, the liveness flag and the message
//! history. It owns no socket. The caller reads and writes, and reports each
//! outcome here; the functions below decide what the outcome does to the
//! state.

pub mod framing;
pub mod listener;

use framing::decode;
use framing::encode;
use framing::frame_bytes;
use framing::frame_content;
use std::time::SystemTime;
use vstd::prelude::*;

verus! {

/// The sender name of every message that this side sent.
pub const SELF_NAME: &'static str = "Me";

/// The display name of a connection whose socket would not tell its address.
pub const UNKNOWN_NAME: &'static str = "Err";

/// The most that one read takes from the socket. A frame is expected to
/// arrive within one read.
pub const CHUNK_SIZE: usize = 512;

/// A point in time of the system clock. It is carried, never inspected.
#[verifier::external_type_specification]
#[verifier::external_body]
pub struct ExSystemTime(SystemTime);

/// What a frame carries. On the wire each kind is one tag byte.
#[derive(Debug, PartialEq, Eq, Copy, Clone, Structural)]
pub enum MessageType {
    Text,
    NameChange,
    Encryption,
    Error,
}

/// The kind that a tag byte stands for, if any.
pub open spec fn kind_of_tag(byte: u8) -> Option<MessageType> {
    if byte == 0 {
        Some(MessageType::Text)
    } else if byte == 1 {
        Some(MessageType::NameChange)
    } else if byte == 2 {
        Some(MessageType::Encryption)
    } else if byte == 3 {
        Some(MessageType::Error)
    } else {
        None
    }
}

impl MessageType {
    /// The tag byte of this kind.
    pub open spec fn tag(self) -> u8 {
        match self {
            MessageType::Text => 0,
            MessageType::NameChange => 1,
            MessageType::Encryption => 2,
            MessageType::Error => 3,
        }
    }

    /// Maps a tag byte to its kind; a byte that stands for no kind gives `None`.
    pub fn from_u8(byte: u8) -> (kind: Option<MessageType>)
        ensures
            kind == kind_of_tag(byte),
    {
        match byte {
            0 => Some(MessageType::Text),
            1 => Some(MessageType::NameChange),
            2 => Some(MessageType::Encryption),
            3 => Some(MessageType::Error),
            _ => None,
        }
    }

    /// The tag byte that goes on the wire for this kind.
    pub fn to_u8(self) -> (byte: u8)
        ensures
            byte == self.tag(),
    {
        match self {
            MessageType::Text => 0,
            MessageType::NameChange => 1,
            MessageType::Encryption => 2,
            MessageType::Error => 3,
        }
    }
}

/// One entry of a connection's history.
#[derive(Debug)]
pub struct Message {
    pub time: SystemTime,
    pub sent_by_self: bool,
    pub sender_name: String,
    pub message_type: MessageType,
    pub content: String,
}

/// A message as contracts see it: its strings as sequences of characters.
pub ghost struct MessageView {
    pub time: SystemTime,
    pub sent_by_self: bool,
    pub sender_name: Seq<char>,
    pub message_type: MessageType,
    pub content: Seq<char>,
}

impl View for Message {
    type V = MessageView;

    open spec fn view(&self) -> MessageView {
        MessageView {
            time: self.time,
            sent_by_self: self.sent_by_self,
            sender_name: self.sender_name@,
            message_type: self.message_type,
            content: self.content@,
        }
    }
}

impl Clone for Message {
    fn clone(&self) -> (copy: Message)
        ensures
            copy@ == self@,
    {
        Message {
            time: self.time,
            sent_by_self: self.sent_by_self,
            sender_name: self.sender_name.clone(),
            message_type: self.message_type,
            content: self.content.clone(),
        }
    }
}

/// The entry for a message that the peer sent, under the name it had then.
pub open spec fn remote_message(
    sender: Seq<char>,
    message_type: MessageType,
    content: Seq<char>,
    time: SystemTime,
) -> MessageView {
    MessageView { time, sent_by_self: false, sender_name: sender, message_type, content }
}

/// The entry for something that this side did: the echo of a sent text, or
/// the report of a failed write.
pub open spec fn local_message(
    message_type: MessageType,
    content: Seq<char>,
    time: SystemTime,
) -> MessageView {
    MessageView { time, sent_by_self: true, sender_name: SELF_NAME@, message_type, content }
}

/// The views of the messages of a history, in order.
pub open spec fn history_view(messages: Seq<Message>) -> Seq<MessageView> {
    messages.map_values(|m: Message| m@)
}

/// The state of a connection as contracts see it.
pub ghost struct ConnectionView {
    pub name: Seq<char>,
    pub alive: bool,
    pub history: Seq<MessageView>,
}

impl ConnectionView {
    /// The state with one more entry at the end of the history.
    pub open spec fn with_message(self, message: MessageView) -> ConnectionView {
        ConnectionView { history: self.history.push(message), ..self }
    }

    /// The state under another display name.
    pub open spec fn renamed(self, name: Seq<char>) -> ConnectionView {
        ConnectionView { name, ..self }
    }

    /// The state once the connection is given up.
    pub open spec fn disconnected(self) -> ConnectionView {
        ConnectionView { alive: false, ..self }
    }

    /// The state after a message of the given kind and text has come in. A
    /// text or an error goes into the history under the peer's current name; a
    /// name change replaces that name and leaves the history alone; the
    /// encryption kind changes nothing.
    pub open spec fn after_message(
        self,
        message_type: MessageType,
        text: Seq<char>,
        time: SystemTime,
    ) -> ConnectionView {
        match message_type {
            MessageType::Text | MessageType::Error => self.with_message(
                remote_message(self.name, message_type, text, time),
            ),
            MessageType::NameChange => self.renamed(text),
            MessageType::Encryption => self,
        }
    }

    /// The state after a frame has come in. A frame of unknown kind is
    /// dropped.
    pub open spec fn after_data(self, data: Seq<u8>, time: SystemTime) -> ConnectionView
        recommends
            data.len() > 0,
    {
        match frame_content(data) {
            Ok((message_type, text)) => self.after_message(message_type, text, time),
            Err(_) => self,
        }
    }

    /// The state after one read of the socket. No bytes mean that the peer
    /// has closed; bytes are one frame; a failed read is put on record as an
    /// error of the peer's side and changes nothing else.
    pub open spec fn after_read(
        self,
        outcome: Result<Seq<u8>, Seq<char>>,
        time: SystemTime,
    ) -> ConnectionView {
        match outcome {
            Ok(data) => if data.len() == 0 {
                self.disconnected()
            } else {
                self.after_data(data, time)
            },
            Err(error) => self.with_message(
                remote_message(self.name, MessageType::Error, error, time),
            ),
        }
    }

    /// The frame to write when `text` is to be sent: none once the connection
    /// is given up.
    pub open spec fn frame_to_send(self, message_type: MessageType, text: Seq<char>) -> Option<
        Seq<u8>,
    > {
        if self.alive {
            Some(frame_bytes(message_type, text))
        } else {
            None
        }
    }

    /// The state after the frame for `text` was handed to the socket. A write
    /// that went through is echoed as a text of this side; one that failed is
    /// put on record as an error of this side. Neither touches the liveness
    /// flag, and a connection that was given up records nothing.
    pub open spec fn after_write(
        self,
        text: Seq<char>,
        outcome: Result<usize, Seq<char>>,
        time: SystemTime,
    ) -> ConnectionView {
        if !self.alive {
            self
        } else {
            match outcome {
                Ok(_) => self.with_message(local_message(MessageType::Text, text, time)),
                Err(error) => self.with_message(local_message(MessageType::Error, error, time)),
            }
        }
    }
}

impl ConnectionView {
    /// Whether this state can come after `earlier`: the history of `earlier`
    /// is still there, entry for entry, at the start of this one's, and the
    /// connection is not alive again after it was given up.
    pub open spec fn follows(self, earlier: ConnectionView) -> bool {
        &&& earlier.history.is_prefix_of(self.history)
        &&& self.alive ==> earlier.alive
    }
}

/// The name that a new connection goes by: the local address of its socket,
/// or `"Err"` where the socket would not tell it.
pub open spec fn initial_name(local_ip: Option<String>) -> Seq<char> {
    match local_ip {
        Some(ip) => ip@,
        None => UNKNOWN_NAME@,
    }
}

/// The view of a frame that may be there.
pub open spec fn frame_view(frame: Option<Vec<u8>>) -> Option<Seq<u8>> {
    match frame {
        Some(bytes) => Some(bytes@),
        None => None,
    }
}

/// The view of a read's outcome.
pub open spec fn read_view(outcome: Result<Vec<u8>, String>) -> Result<Seq<u8>, Seq<char>> {
    match outcome {
        Ok(data) => Ok(data@),
        Err(error) => Err(error@),
    }
}

/// The view of a write's outcome.
pub open spec fn write_view(outcome: Result<usize, String>) -> Result<usize, Seq<char>> {
    match outcome {
        Ok(written) => Ok(written),
        Err(error) => Err(error@),
    }
}

/// `SystemTime::now`: the time that the system clock shows when it is called.
/// Nothing is known of it beforehand.
#[verifier::external_body]
fn now() -> (time: SystemTime) {
    SystemTime::now()
}

/// What both sides of one socket share: the peer's display name, whether the
/// connection is still in use, and everything said over it so far.
pub struct Connection {
    name: String,
    is_alive: bool,
    messages: Vec<Message>,
}

impl View for Connection {
    type V = ConnectionView;

    closed spec fn view(&self) -> ConnectionView {
        ConnectionView {
            name: self.name@,
            alive: self.is_alive,
            history: history_view(self.messages@),
        }
    }
}

impl Connection {
    /// A connection over a socket that was just accepted or dialed. It is
    /// named after the socket's local address, or `"Err"` where the socket
    /// would not tell it; it is alive and nothing has been said yet.
    pub fn new(local_ip: Option<String>) -> (connection: Connection)
        ensures
            connection@.name == initial_name(local_ip),
            connection@.alive,
            connection@.history == Seq::<MessageView>::empty(),
    {
        let name = match local_ip {
            Some(ip) => ip,
            None => UNKNOWN_NAME.to_owned(),
        };
        let connection = Connection { name, is_alive: true, messages: Vec::new() };
        connection
    }

    /// The peer's current display name.
    pub fn get_name(&self) -> (name: String)
        ensures
            name@ == self@.name,
    {
        self.name.clone()
    }

    /// Whether the connection is still in use. The reading side asks this
    /// before each read and stops once it is false.
    pub fn is_alive(&self) -> (alive: bool)
        ensures
            alive == self@.alive,
    {
        self.is_alive
    }

    /// The history so far, oldest entry first.
    pub fn messages(&self) -> (messages: &Vec<Message>)
        ensures
            history_view(messages@) == self@.history,
    {
        &self.messages
    }

    /// Gives the connection up. The socket is not closed by this: a read that
    /// is under way still completes, and the reading side stops before the
    /// next one.
    pub fn disconnect(&mut self)
        ensures
            final(self)@ == old(self)@.disconnected(),
            final(self)@.follows(old(self)@),
    {
        self.is_alive = false;
    }

    /// Appends an entry to the history.
    fn push_message(&mut self, message: Message)
        ensures
            final(self)@ == old(self)@.with_message(message@),
    {
        self.messages.push(message);
        assert(history_view(self.messages@) =~= history_view(old(self).messages@).push(message@));
    }

    /// Puts a message of the peer on record, under the name the peer has now.
    pub fn register_incoming_message(
        &mut self,
        message: String,
        message_type: MessageType,
        time: SystemTime,
    )
        ensures
            final(self)@ == old(self)@.with_message(
                remote_message(old(self)@.name, message_type, message@, time),
            ),
    {
        let sender_name = self.name.clone();
        self.push_message(
            Message { time, sent_by_self: false, sender_name, message_type, content: message },
        );
    }

    /// Applies a decoded message of the peer to the state.
    pub fn handle_message(&mut self, message_type: MessageType, text: String, time: SystemTime)
        ensures
            final(self)@ == old(self)@.after_message(message_type, text@, time),
    {
        match message_type {
            MessageType::Text | MessageType::Error => {
                self.register_incoming_message(text, message_type, time);
            },
            MessageType::NameChange => {
                self.name = text;
            },
            MessageType::Encryption => {},
        }
    }

    /// Decodes one frame of the peer and applies it. A frame whose first byte
    /// stands for no kind is dropped and the connection goes on.
    pub fn handle_incoming_data(&mut self, data: Vec<u8>, time: SystemTime)
        requires
            data@.len() > 0,
        ensures
            final(self)@ == old(self)@.after_data(data@, time),
    {
        match decode(data.as_slice()) {
            Ok((message_type, text)) => {
                self.handle_message(message_type, text, time);
            },
            Err(_) => {},
        }
    }

    /// Takes the outcome of one read of the socket, as it was at `time`, and
    /// says whether the reading side is to read again.
    pub fn handle_read(&mut self, outcome: Result<Vec<u8>, String>, time: SystemTime) -> (again:
        bool)
        ensures
            final(self)@ == old(self)@.after_read(read_view(outcome), time),
            again == final(self)@.alive,
            outcome matches Ok(data) && data@.len() == 0 ==> !again,
            outcome matches Ok(data) && data@.len() == 0 ==> final(self)@ == old(
                self,
            )@.disconnected(),
            final(self)@.follows(old(self)@),
    {
        match outcome {
            Ok(data) => {
                if data.len() == 0 {
                    self.is_alive = false;
                } else {
                    self.handle_incoming_data(data, time);
                }
            },
            Err(error) => {
                self.register_incoming_message(error, MessageType::Error, time);
            },
        }
        self.is_alive
    }

    /// Takes the outcome of a read that has just returned: as
    /// [`Connection::handle_read`], with the time taken from the system clock.
    pub fn handle_read_now(&mut self, outcome: Result<Vec<u8>, String>) -> (again: bool)
        ensures
            exists|time: SystemTime|
                final(self)@ == #[trigger] old(self)@.after_read(read_view(outcome), time),
            again == final(self)@.alive,
            outcome matches Ok(data) && data@.len() == 0 ==> !again,
            outcome matches Ok(data) && data@.len() == 0 ==> final(self)@ == old(
                self,
            )@.disconnected(),
            final(self)@.follows(old(self)@),
    {
        let time = now();
        self.handle_read(outcome, time)
    }

    /// Decides what goes on the wire when `message` is to be sent: the frame
    /// to write, or nothing once the connection is given up. The state is
    /// left as it is; the outcome of the write goes to
    /// [`Connection::register_sent_message`] or
    /// [`Connection::register_sent_message_now`].
    pub fn send_message(&self, message: &str, message_type: MessageType) -> (frame: Option<
        Vec<u8>,
    >)
        ensures
            frame_view(frame) == self@.frame_to_send(message_type, message@),
            frame is Some <==> self@.alive,
    {
        if !self.is_alive {
            return None;
        }
        Some(encode(message_type, message))
    }

    /// Puts the outcome of writing the frame for `message` on record.
    pub fn register_sent_message(
        &mut self,
        message: String,
        outcome: Result<usize, String>,
        time: SystemTime,
    )
        ensures
            final(self)@ == old(self)@.after_write(message@, write_view(outcome), time),
            !old(self)@.alive ==> final(self)@ == old(self)@,
            final(self)@.follows(old(self)@),
    {
        if !self.is_alive {
            return ;
        }
        match outcome {
            Ok(_) => {
                self.push_message(
                    Message {
                        time,
                        sent_by_self: true,
                        sender_name: SELF_NAME.to_owned(),
                        message_type: MessageType::Text,
                        content: message,
                    },
                );
            },
            Err(error) => {
                self.push_message(
                    Message {
                        time,
                        sent_by_self: true,
                        sender_name: SELF_NAME.to_owned(),
                        message_type: MessageType::Error,
                        content: error,
                    },
                );
            },
        }
    }

    /// Puts the outcome of a write that has just returned on record: as
    /// [`Connection::register_sent_message`], with the time taken from the
    /// system clock.
    pub fn register_sent_message_now(&mut self, message: String, outcome: Result<usize, String>)
        ensures
            exists|time: SystemTime|
                final(self)@ == #[trigger] old(self)@.after_write(
                    message@,
                    write_view(outcome),
                    time,
                ),
            !old(self)@.alive ==> final(self)@ == old(self)@,
            final(self)@.follows(old(self)@),
    {
        let time = now();
        self.register_sent_message(message, outcome, time)
    }
}

/// No read brings a connection back to life, and none takes an entry out of
/// the history or alters one.
pub proof fn lemma_read_keeps_history(
    state: ConnectionView,
    outcome: Result<Seq<u8>, Seq<char>>,
    time: SystemTime,
)
    ensures
        state.after_read(outcome, time).follows(state),
{
}

/// No write brings a connection back to life, and none takes an entry out of
/// the history or alters one.
pub proof fn lemma_write_keeps_history(
    state: ConnectionView,
    text: Seq<char>,
    outcome: Result<usize, Seq<char>>,
    time: SystemTime,
)
    ensures
        state.after_write(text, outcome, time).follows(state),
{
}

/// A connection that was given up sends nothing: there is no frame to write,
/// and the outcome of a write leaves the state as it is.
pub proof fn lemma_no_send_after_disconnect(
    state: ConnectionView,
    message_type: MessageType,
    text: Seq<char>,
    outcome: Result<usize, Seq<char>>,
    time: SystemTime,
)
    requires
        !state.alive,
    ensures
        state.frame_to_send(message_type, text) is None,
        state.after_write(text, outcome, time) == state,
{
}

/// A read that returns no bytes gives the connection up and changes nothing
/// else; the reads that follow, if there were any, could not bring it back.
pub proof fn lemma_closed_read_disconnects(
    state: ConnectionView,
    time: SystemTime,
    later: Result<Seq<u8>, Seq<char>>,
    later_time: SystemTime,
)
    ensures
        state.after_read(Ok(Seq::empty()), time) == state.disconnected(),
        !state.after_read(Ok(Seq::empty()), time).after_read(later, later_time).alive,
{
}

} // verus!
