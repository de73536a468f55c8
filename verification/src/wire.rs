//! The wire format: envelopes, the chat message carried inside one, and the
//! event that an inbound frame stands for.
//!
//! A frame is JSON text. An envelope is the object
//! `{"messageType": .., "dataArray": .., "data": ..}`; a chat message is the
//! object `{"from": .., "message": ..}`, itself printed as text and carried in
//! the `data` member of a `message` envelope.
use crate::json::{
    items_value, json_model, json_models, json_parse, json_rendering, member, member_of,
    no_members, null_value, object_value, parse_document, put_member, render_document,
    text_value, without_members, Json,
};
use vstd::prelude::*;

verus! {

/// Why a frame was not understood, or could not be produced.
#[derive(Debug, Clone, Copy, PartialEq, Eq)]
pub enum WireError {
    /// The frame is not JSON text.
    Syntax,
    /// The frame is JSON, but not an envelope: it is no object, its
    /// `messageType` is missing or no string, or a payload member is present
    /// with a value of the wrong type.
    Shape,
    /// The envelope is of a kind that this client does not know.
    UnknownKind,
    /// A `message` envelope without `data`.
    NoText,
    /// The `data` of a `message` envelope is not JSON text.
    PayloadSyntax,
    /// The `data` of a `message` envelope is JSON, but not a chat message.
    PayloadShape,
    /// The JSON printer reported an error. It reports none on what this
    /// library hands it.
    Unprintable,
}

/// The kind of an envelope.
#[derive(Debug, Clone, Copy, PartialEq, Eq)]
pub enum MsgTypes {
    Users,
    Register,
    Message,
}

/// The text of a chat message: who said it, and what.
#[derive(Debug, PartialEq, Eq)]
pub struct ChatMessage {
    pub sender: String,
    pub body: String,
}

/// A chat message, as plain mathematics.
pub struct ChatMessageView {
    pub sender: Seq<char>,
    pub body: Seq<char>,
}

/// The wire message. `list` is meaningful for `Users`, `text` for `Register`
/// and `Message`; the other member is carried as it came.
#[derive(Debug, PartialEq, Eq)]
pub struct Envelope {
    pub kind: MsgTypes,
    pub list: Option<Vec<String>>,
    pub text: Option<String>,
}

/// An envelope, as plain mathematics.
pub struct EnvelopeView {
    pub kind: MsgTypes,
    pub list: Option<Seq<Seq<char>>>,
    pub text: Option<Seq<char>>,
}

/// What an inbound frame asks of the client.
#[derive(Debug, PartialEq, Eq)]
pub enum Event {
    /// The full list of who is present, in the server's order.
    Users(Vec<String>),
    /// One more chat message.
    Message(ChatMessage),
    /// A frame that asks for nothing: an echoed registration, or a kind this
    /// client does not know.
    Other,
}

/// An event, as plain mathematics.
pub enum EventView {
    Users(Seq<Seq<char>>),
    Message(ChatMessageView),
    Other,
}

/// What was read, by its view: the thing read, or why nothing was.
pub open spec fn seen<T: View>(outcome: Result<T, WireError>) -> Result<T::V, WireError> {
    match outcome {
        Ok(value) => Ok(value@),
        Err(error) => Err(error),
    }
}

/// The texts that a sequence of strings holds, one for one.
pub open spec fn texts(strings: Seq<String>) -> Seq<Seq<char>> {
    strings.map_values(|s: String| s@)
}

/// The name of the envelope member that holds the kind.
pub open spec fn kind_key() -> Seq<char> {
    "messageType"@
}

/// The name of the envelope member that holds the list payload.
pub open spec fn list_key() -> Seq<char> {
    "dataArray"@
}

/// The name of the envelope member that holds the text payload.
pub open spec fn text_key() -> Seq<char> {
    "data"@
}

/// The name of the chat message member that holds the sender.
pub open spec fn sender_key() -> Seq<char> {
    "from"@
}

/// The name of the chat message member that holds the body.
pub open spec fn body_key() -> Seq<char> {
    "message"@
}

/// A payload member that may be left out: `Some(None)` where it is missing or
/// `null`, `Some(Some(text))` where it is a string, `None` where it is
/// anything else.
pub open spec fn optional_text_of(document: Json, name: Seq<char>) -> Option<Option<Seq<char>>> {
    match member_of(document, name) {
        None => Some(None),
        Some(Json::Null) => Some(None),
        Some(Json::Text(text)) => Some(Some(text)),
        Some(_) => None,
    }
}

/// Whether every element is a string.
pub open spec fn all_text(items: Seq<Json>) -> bool {
    forall|i: int| 0 <= i < items.len() ==> (#[trigger] items[i]) is Text
}

/// The texts of a sequence of strings.
pub open spec fn item_texts(items: Seq<Json>) -> Seq<Seq<char>> {
    items.map_values(|item: Json| item->Text_0)
}

/// A list member that may be left out: `Some(None)` where it is missing or
/// `null`, `Some(Some(list))` where it is an array of strings, `None` where it
/// is anything else.
pub open spec fn optional_list_of(document: Json, name: Seq<char>) -> Option<
    Option<Seq<Seq<char>>>,
> {
    match member_of(document, name) {
        None => Some(None),
        Some(Json::Null) => Some(None),
        Some(Json::Items(items)) => if all_text(items) {
            Some(Some(item_texts(items)))
        } else {
            None
        },
        Some(_) => None,
    }
}

/// The envelope that a document denotes, or why it denotes none.
pub open spec fn envelope_of(document: Json) -> Result<EnvelopeView, WireError> {
    match member_of(document, kind_key()) {
        Some(Json::Text(name)) => match MsgTypes::named(name) {
            None => Err(WireError::UnknownKind),
            Some(kind) => match (
                optional_list_of(document, list_key()),
                optional_text_of(document, text_key()),
            ) {
                (Some(list), Some(text)) => Ok(EnvelopeView { kind, list, text }),
                _ => Err(WireError::Shape),
            },
        },
        _ => Err(WireError::Shape),
    }
}

/// The envelope that a frame denotes, or why it denotes none.
pub open spec fn envelope_of_frame(frame: Seq<char>) -> Result<EnvelopeView, WireError> {
    match json_parse(frame) {
        None => Err(WireError::Syntax),
        Some(document) => envelope_of(document),
    }
}

/// The chat message that a document denotes: an object whose `from` and
/// `message` are strings.
pub open spec fn message_of(document: Json) -> Option<ChatMessageView> {
    match (member_of(document, sender_key()), member_of(document, body_key())) {
        (Some(Json::Text(sender)), Some(Json::Text(body))) => Some(
            ChatMessageView { sender, body },
        ),
        _ => None,
    }
}

/// The chat message that a text payload denotes, or why it denotes none.
pub open spec fn message_of_text(text: Seq<char>) -> Result<ChatMessageView, WireError> {
    match json_parse(text) {
        None => Err(WireError::PayloadSyntax),
        Some(document) => match message_of(document) {
            Some(message) => Ok(message),
            None => Err(WireError::PayloadShape),
        },
    }
}

/// What an envelope asks of the client, given what its text payload was found
/// to hold.
pub open spec fn event_of(envelope: EnvelopeView, payload: Result<ChatMessageView, WireError>)
    -> Result<EventView, WireError> {
    match envelope.kind {
        MsgTypes::Users => Ok(
            EventView::Users(
                match envelope.list {
                    Some(names) => names,
                    None => Seq::empty(),
                },
            ),
        ),
        MsgTypes::Register => Ok(EventView::Other),
        MsgTypes::Message => match envelope.text {
            None => Err(WireError::NoText),
            Some(_) => match payload {
                Ok(message) => Ok(EventView::Message(message)),
                Err(error) => Err(error),
            },
        },
    }
}

/// What an envelope asks of the client. The text payload of a `message`
/// envelope is read as a chat message; for other kinds it is not looked at.
pub open spec fn event_of_envelope(envelope: EnvelopeView) -> Result<EventView, WireError> {
    event_of(
        envelope,
        match envelope.text {
            Some(text) => message_of_text(text),
            None => Err(WireError::NoText),
        },
    )
}

/// What a frame asks of the client, or why it is dropped. An envelope of an
/// unknown kind asks for nothing, whatever else it holds.
pub open spec fn event_of_frame(frame: Seq<char>) -> Result<EventView, WireError> {
    match envelope_of_frame(frame) {
        Ok(envelope) => event_of_envelope(envelope),
        Err(WireError::UnknownKind) => Ok(EventView::Other),
        Err(error) => Err(error),
    }
}

/// The envelope that registers `username` with the server.
pub open spec fn register_envelope(username: Seq<char>) -> EnvelopeView {
    EnvelopeView { kind: MsgTypes::Register, list: None, text: Some(username) }
}

/// The envelope that carries `text` to the chat.
pub open spec fn message_envelope(text: Seq<char>) -> EnvelopeView {
    EnvelopeView { kind: MsgTypes::Message, list: None, text: Some(text) }
}

/// The document that is sent for a list of strings.
pub open spec fn list_json(list: Seq<Seq<char>>) -> Json {
    Json::Items(list.map_values(|text: Seq<char>| Json::Text(text)))
}

/// The document that is sent for an envelope: all three members, a payload
/// that is left out as `null`.
pub open spec fn envelope_json(envelope: EnvelopeView) -> Json {
    Json::Object(
        without_members().insert(kind_key(), Json::Text(envelope.kind.wire_name())).insert(
            list_key(),
            match envelope.list {
                Some(list) => list_json(list),
                None => Json::Null,
            },
        ).insert(
            text_key(),
            match envelope.text {
                Some(text) => Json::Text(text),
                None => Json::Null,
            },
        ),
    )
}

/// The document that is sent for a chat message.
pub open spec fn message_json(message: ChatMessageView) -> Json {
    Json::Object(
        without_members().insert(sender_key(), Json::Text(message.sender)).insert(
            body_key(),
            Json::Text(message.body),
        ),
    )
}

/// Whether two string slices hold the same text.
fn same_text(a: &str, b: &str) -> (r: bool)
    ensures
        r == (a@ == b@),
{
    let left = a.to_owned();
    let right = b.to_owned();
    left == right
}

impl MsgTypes {
    /// The kind's name on the wire.
    pub open spec fn wire_name(self) -> Seq<char> {
        match self {
            MsgTypes::Users => "users"@,
            MsgTypes::Register => "register"@,
            MsgTypes::Message => "message"@,
        }
    }

    /// The kind that a name on the wire stands for.
    pub open spec fn named(name: Seq<char>) -> Option<MsgTypes> {
        if name == "users"@ {
            Some(MsgTypes::Users)
        } else if name == "register"@ {
            Some(MsgTypes::Register)
        } else if name == "message"@ {
            Some(MsgTypes::Message)
        } else {
            None
        }
    }

    /// The kind's name on the wire.
    pub fn name(&self) -> (r: &'static str)
        ensures
            r@ == self.wire_name(),
    {
        match self {
            MsgTypes::Users => "users",
            MsgTypes::Register => "register",
            MsgTypes::Message => "message",
        }
    }

    /// The kind that `name` stands for, if it stands for one.
    pub fn from_name(name: &str) -> (r: Option<MsgTypes>)
        ensures
            r == MsgTypes::named(name@),
    {
        if same_text(name, "users") {
            Some(MsgTypes::Users)
        } else if same_text(name, "register") {
            Some(MsgTypes::Register)
        } else if same_text(name, "message") {
            Some(MsgTypes::Message)
        } else {
            None
        }
    }
}

impl View for ChatMessage {
    type V = ChatMessageView;

    open spec fn view(&self) -> ChatMessageView {
        ChatMessageView { sender: self.sender@, body: self.body@ }
    }
}

impl View for Envelope {
    type V = EnvelopeView;

    open spec fn view(&self) -> EnvelopeView {
        EnvelopeView {
            kind: self.kind,
            list: match self.list {
                Some(list) => Some(texts(list@)),
                None => None,
            },
            text: match self.text {
                Some(text) => Some(text@),
                None => None,
            },
        }
    }
}

impl View for Event {
    type V = EventView;

    open spec fn view(&self) -> EventView {
        match self {
            Event::Users(names) => EventView::Users(texts(names@)),
            Event::Message(message) => EventView::Message(message@),
            Event::Other => EventView::Other,
        }
    }
}

/// A copy of a list of strings.
fn copy_texts(list: &Vec<String>) -> (r: Vec<String>)
    ensures
        texts(r@) == texts(list@),
{
    let mut copy: Vec<String> = Vec::new();
    let mut i: usize = 0;
    while i < list.len()
        invariant
            i <= list.len(),
            copy.len() == i,
            forall|k: int| 0 <= k < i ==> (#[trigger] copy@[k])@ == list@[k]@,
        decreases list.len() - i,
    {
        copy.push(list[i].clone());
        i += 1;
    }
    assert(texts(copy@) =~= texts(list@));
    copy
}

impl Clone for ChatMessage {
    fn clone(&self) -> (r: Self)
        ensures
            r@ == self@,
    {
        ChatMessage { sender: self.sender.clone(), body: self.body.clone() }
    }
}

impl Clone for Envelope {
    fn clone(&self) -> (r: Self)
        ensures
            r@ == self@,
    {
        Envelope {
            kind: self.kind,
            list: match &self.list {
                Some(list) => Some(copy_texts(list)),
                None => None,
            },
            text: match &self.text {
                Some(text) => Some(text.clone()),
                None => None,
            },
        }
    }
}

impl Clone for Event {
    fn clone(&self) -> (r: Self)
        ensures
            r@ == self@,
    {
        match self {
            Event::Users(names) => Event::Users(copy_texts(names)),
            Event::Message(message) => Event::Message(message.clone()),
            Event::Other => Event::Other,
        }
    }
}

/// Reads a payload member that may be left out.
fn optional_text(value: &serde_json::Value, name: &str) -> (r: Result<Option<String>, WireError>)
    ensures
        match r {
            Ok(found) => optional_text_of(json_model(*value), name@) == Some(
                match found {
                    Some(text) => Some(text@),
                    None => None,
                },
            ),
            Err(error) => error == WireError::Shape && optional_text_of(
                json_model(*value),
                name@,
            ).is_none(),
        },
{
    match member(value, name) {
        None => Ok(None),
        Some(found) => {
            if found.is_null() {
                Ok(None)
            } else {
                match found.as_str() {
                    Some(text) => Ok(Some(text.to_owned())),
                    None => Err(WireError::Shape),
                }
            }
        },
    }
}

/// Reads an array of strings.
fn text_items(items: &Vec<serde_json::Value>) -> (r: Option<Vec<String>>)
    ensures
        match r {
            Some(list) => all_text(json_models(items@)) && texts(list@) == item_texts(
                json_models(items@),
            ),
            None => !all_text(json_models(items@)),
        },
{
    let mut list: Vec<String> = Vec::new();
    let mut i: usize = 0;
    while i < items.len()
        invariant
            i <= items.len(),
            list.len() == i,
            forall|k: int| 0 <= k < i ==> json_model(#[trigger] items@[k]) == Json::Text(list@[k]@),
        decreases items.len() - i,
    {
        match items[i].as_str() {
            Some(text) => {
                list.push(text.to_owned());
            },
            None => {
                assert(!(json_models(items@)[i as int] is Text));
                return None;
            },
        }
        i += 1;
    }
    assert forall|k: int| 0 <= k < items.len() implies (#[trigger] json_models(
        items@,
    )[k]) is Text by {
        assert(json_model(items@[k]) == Json::Text(list@[k]@));
    }
    assert(texts(list@) =~= item_texts(json_models(items@))) by {
        assert forall|k: int| 0 <= k < items.len() implies texts(list@)[k] == item_texts(
            json_models(items@),
        )[k] by {
            assert(json_model(items@[k]) == Json::Text(list@[k]@));
        }
    }
    Some(list)
}

/// Reads a list member that may be left out.
fn optional_list(value: &serde_json::Value, name: &str) -> (r: Result<
    Option<Vec<String>>,
    WireError,
>)
    ensures
        match r {
            Ok(found) => optional_list_of(json_model(*value), name@) == Some(
                match found {
                    Some(list) => Some(texts(list@)),
                    None => None,
                },
            ),
            Err(error) => error == WireError::Shape && optional_list_of(
                json_model(*value),
                name@,
            ).is_none(),
        },
{
    match member(value, name) {
        None => Ok(None),
        Some(found) => {
            if found.is_null() {
                Ok(None)
            } else {
                match found.as_array() {
                    Some(items) => match text_items(items) {
                        Some(list) => Ok(Some(list)),
                        None => Err(WireError::Shape),
                    },
                    None => Err(WireError::Shape),
                }
            }
        },
    }
}

impl ChatMessage {
    /// The chat message that a parsed document denotes, if it denotes one.
    pub fn from_json(value: &serde_json::Value) -> (r: Option<ChatMessage>)
        ensures
            message_of(json_model(*value)) == match r {
                Some(message) => Some(message@),
                None => None,
            },
    {
        let sender = match member(value, "from") {
            Some(found) => match found.as_str() {
                Some(text) => text.to_owned(),
                None => {
                    return None;
                },
            },
            None => {
                return None;
            },
        };
        let body = match member(value, "message") {
            Some(found) => match found.as_str() {
                Some(text) => text.to_owned(),
                None => {
                    return None;
                },
            },
            None => {
                return None;
            },
        };
        Some(ChatMessage { sender, body })
    }

    /// Reads the text payload of a `message` envelope.
    pub fn decode(text: &str) -> (r: Result<ChatMessage, WireError>)
        ensures
            seen(r) == message_of_text(text@),
    {
        match parse_document(text) {
            Err(_) => Err(WireError::PayloadSyntax),
            Ok(value) => match ChatMessage::from_json(&value) {
                Some(message) => Ok(message),
                None => Err(WireError::PayloadShape),
            },
        }
    }

    /// The document that is sent for this chat message.
    pub fn to_json(&self) -> (r: serde_json::Value)
        ensures
            json_model(r) == message_json(self@),
    {
        let mut members = no_members();
        put_member(&mut members, "from".to_owned(), text_value(self.sender.clone()));
        put_member(&mut members, "message".to_owned(), text_value(self.body.clone()));
        object_value(members)
    }

    /// The text payload that carries this chat message: the printed document.
    /// There always is one.
    pub fn encode(&self) -> (r: Result<String, WireError>)
        ensures
            r matches Ok(text) && text@ == json_rendering(message_json(self@)),
    {
        let value = self.to_json();
        printed(render_document(&value))
    }
}

/// What a print attempt gave: the text as it came, or that there is none.
pub fn printed(outcome: Result<String, serde_json::Error>) -> (r: Result<String, WireError>)
    ensures
        match r {
            Ok(text) => outcome matches Ok(given) && given == text,
            Err(error) => outcome.is_err() && error == WireError::Unprintable,
        },
{
    match outcome {
        Ok(text) => Ok(text),
        Err(_) => Err(WireError::Unprintable),
    }
}

impl Envelope {
    /// The envelope that registers `username` with the server.
    pub fn register(username: &str) -> (r: Envelope)
        ensures
            r@ == register_envelope(username@),
    {
        Envelope { kind: MsgTypes::Register, list: None, text: Some(username.to_owned()) }
    }

    /// The envelope that carries `text` to the chat.
    pub fn message(text: &str) -> (r: Envelope)
        ensures
            r@ == message_envelope(text@),
    {
        Envelope { kind: MsgTypes::Message, list: None, text: Some(text.to_owned()) }
    }

    /// The envelope that a parsed document denotes, or why it denotes none.
    pub fn from_json(value: &serde_json::Value) -> (r: Result<Envelope, WireError>)
        ensures
            seen(r) == envelope_of(json_model(*value)),
    {
        let kind = match member(value, "messageType") {
            Some(found) => match found.as_str() {
                Some(name) => match MsgTypes::from_name(name) {
                    Some(kind) => kind,
                    None => {
                        return Err(WireError::UnknownKind);
                    },
                },
                None => {
                    return Err(WireError::Shape);
                },
            },
            None => {
                return Err(WireError::Shape);
            },
        };
        let list = optional_list(value, "dataArray");
        let text = optional_text(value, "data");
        match (list, text) {
            (Ok(list), Ok(text)) => Ok(Envelope { kind, list, text }),
            _ => Err(WireError::Shape),
        }
    }

    /// Reads a frame as an envelope.
    pub fn decode(frame: &str) -> (r: Result<Envelope, WireError>)
        ensures
            seen(r) == envelope_of_frame(frame@),
    {
        match parse_document(frame) {
            Err(_) => Err(WireError::Syntax),
            Ok(value) => Envelope::from_json(&value),
        }
    }

    /// The document that is sent for this envelope.
    pub fn to_json(&self) -> (r: serde_json::Value)
        ensures
            json_model(r) == envelope_json(self@),
    {
        let list = match &self.list {
            None => null_value(),
            Some(list) => {
                let mut items: Vec<serde_json::Value> = Vec::new();
                let mut i: usize = 0;
                while i < list.len()
                    invariant
                        i <= list.len(),
                        items.len() == i,
                        forall|k: int|
                            0 <= k < i ==> json_model(#[trigger] items@[k]) == Json::Text(
                                list@[k]@,
                            ),
                    decreases list.len() - i,
                {
                    items.push(text_value(list[i].clone()));
                    i += 1;
                }
                assert(json_models(items@) =~= texts(list@).map_values(
                    |text: Seq<char>| Json::Text(text),
                ));
                items_value(items)
            },
        };
        let text = match &self.text {
            None => null_value(),
            Some(text) => text_value(text.clone()),
        };
        let mut members = no_members();
        put_member(&mut members, "messageType".to_owned(), text_value(self.kind.name().to_owned()));
        put_member(&mut members, "dataArray".to_owned(), list);
        put_member(&mut members, "data".to_owned(), text);
        object_value(members)
    }

    /// The frame that carries this envelope: the printed document. There
    /// always is one.
    pub fn encode(&self) -> (r: Result<String, WireError>)
        ensures
            r matches Ok(frame) && frame@ == json_rendering(envelope_json(self@)),
    {
        let value = self.to_json();
        printed(render_document(&value))
    }
}

impl Event {
    /// What `envelope` asks of the client, given what its text payload was
    /// found to hold.
    pub fn from_parts(envelope: Envelope, payload: Result<ChatMessage, WireError>) -> (r: Result<
        Event,
        WireError,
    >)
        ensures
            seen(r) == event_of(envelope@, seen(payload)),
    {
        match envelope.kind {
            MsgTypes::Users => match envelope.list {
                Some(names) => Ok(Event::Users(names)),
                None => {
                    let names: Vec<String> = Vec::new();
                    assert(texts(names@) =~= Seq::<Seq<char>>::empty());
                    Ok(Event::Users(names))
                },
            },
            MsgTypes::Register => Ok(Event::Other),
            MsgTypes::Message => match envelope.text {
                None => Err(WireError::NoText),
                Some(_) => match payload {
                    Ok(message) => Ok(Event::Message(message)),
                    Err(error) => Err(error),
                },
            },
        }
    }

    /// What `envelope` asks of the client.
    pub fn from_envelope(envelope: Envelope) -> (r: Result<Event, WireError>)
        ensures
            seen(r) == event_of_envelope(envelope@),
    {
        let payload = match (&envelope.kind, &envelope.text) {
            (MsgTypes::Message, Some(text)) => ChatMessage::decode(text.as_str()),
            _ => Err(WireError::NoText),
        };
        Event::from_parts(envelope, payload)
    }

    /// Reads an inbound frame.
    pub fn decode(frame: &str) -> (r: Result<Event, WireError>)
        ensures
            seen(r) == event_of_frame(frame@),
    {
        match Envelope::decode(frame) {
            Ok(envelope) => Event::from_envelope(envelope),
            Err(WireError::UnknownKind) => Ok(Event::Other),
            Err(error) => Err(error),
        }
    }
}

/// Each kind is found again by its name on the wire.
pub proof fn lemma_kind_is_found_by_its_name(kind: MsgTypes)
    ensures
        MsgTypes::named(kind.wire_name()) == Some(kind),
{
    reveal_strlit("users");
    reveal_strlit("register");
    reveal_strlit("message");
    assert("users"@.len() == 5);
    assert("register"@.len() == 8);
    assert("message"@.len() == 7);
}

/// The document that is sent for an envelope denotes that envelope.
pub proof fn lemma_envelope_document_reads_back(envelope: EnvelopeView)
    ensures
        envelope_of(envelope_json(envelope)) == Ok::<EnvelopeView, WireError>(envelope),
{
    reveal_strlit("messageType");
    reveal_strlit("dataArray");
    reveal_strlit("data");
    assert(kind_key().len() == 11);
    assert(list_key().len() == 9);
    assert(text_key().len() == 4);
    lemma_kind_is_found_by_its_name(envelope.kind);
    let document = envelope_json(envelope);
    assert(member_of(document, kind_key()) == Some(Json::Text(envelope.kind.wire_name())));
    match envelope.list {
        Some(list) => {
            let items = list.map_values(|text: Seq<char>| Json::Text(text));
            assert(member_of(document, list_key()) == Some(Json::Items(items)));
            assert(all_text(items));
            assert(item_texts(items) =~= list);
        },
        None => {
            assert(member_of(document, list_key()) == Some(Json::Null));
        },
    }
    match envelope.text {
        Some(text) => {
            assert(member_of(document, text_key()) == Some(Json::Text(text)));
        },
        None => {
            assert(member_of(document, text_key()) == Some(Json::Null));
        },
    }
}

/// The document that is sent for a chat message denotes that chat message.
pub proof fn lemma_message_document_reads_back(message: ChatMessageView)
    ensures
        message_of(message_json(message)) == Some(message),
{
    reveal_strlit("from");
    reveal_strlit("message");
    assert(sender_key().len() == 4);
    assert(body_key().len() == 7);
    let document = message_json(message);
    assert(member_of(document, sender_key()) == Some(Json::Text(message.sender)));
    assert(member_of(document, body_key()) == Some(Json::Text(message.body)));
}

} // verus!
