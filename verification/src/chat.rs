//! The client's state and its update step.
use crate::json::{json_parse, json_rendering, member_of, Json};
use crate::wire::{
    envelope_json, event_of_frame, kind_key, message_envelope, register_envelope, texts,
    ChatMessage, ChatMessageView, Envelope, Event, EventView, MsgTypes, WireError,
};
use vstd::prelude::*;

verus! {

/// Someone present in the chat.
#[derive(Debug, PartialEq, Eq)]
pub struct Participant {
    pub display_name: String,
    pub avatar_url: String,
}

/// A participant, as plain mathematics.
pub struct ParticipantView {
    pub display_name: Seq<char>,
    pub avatar_url: Seq<char>,
}

/// What the client knows: who is present, and what was said, in the order of
/// arrival.
#[derive(Debug, PartialEq, Eq)]
pub struct Chat {
    participants: Vec<Participant>,
    history: Vec<ChatMessage>,
}

/// What the client knows, as plain mathematics.
pub struct ChatState {
    pub participants: Seq<ParticipantView>,
    pub history: Seq<ChatMessageView>,
}

/// What the client is told.
#[derive(Debug, PartialEq, Eq)]
pub enum Msg {
    /// A frame came from the server.
    HandleMsg(String),
    /// The user submitted the input field.
    SubmitMessage,
}

/// What an update asks of the caller.
#[derive(Debug, PartialEq, Eq)]
pub struct Update {
    /// Whether the state changed, so that it must be shown again.
    pub redraw: bool,
    /// A frame to send to the server.
    pub outbound: Option<String>,
    /// Whether the input field is to be emptied.
    pub clear_input: bool,
    /// Why an inbound frame was dropped.
    pub error: Option<WireError>,
}

/// The avatar that every participant is shown with.
pub open spec fn placeholder_avatar() -> Seq<char> {
    "/joebiden.png"@
}

/// The participants that a list of names stands for: one for each name, in
/// the order of the list, each with the placeholder avatar.
pub open spec fn roster(names: Seq<Seq<char>>) -> Seq<ParticipantView> {
    names.map_values(
        |name: Seq<char>| ParticipantView { display_name: name, avatar_url: placeholder_avatar() },
    )
}

/// The state before anything was received.
pub open spec fn initial() -> ChatState {
    ChatState { participants: Seq::empty(), history: Seq::empty() }
}

/// The state after an event.
pub open spec fn step(state: ChatState, event: EventView) -> ChatState {
    match event {
        EventView::Users(names) => ChatState {
            participants: roster(names),
            history: state.history,
        },
        EventView::Message(message) => ChatState {
            participants: state.participants,
            history: state.history.push(message),
        },
        EventView::Other => state,
    }
}

/// Whether the state must be shown again after an event.
pub open spec fn redraws(event: EventView) -> bool {
    !(event is Other)
}

/// The state after a sequence of events, taken in their order.
pub open spec fn run(state: ChatState, events: Seq<EventView>) -> ChatState
    decreases events.len(),
{
    if events.len() == 0 {
        state
    } else {
        step(run(state, events.drop_last()), events.last())
    }
}

/// The state after an inbound frame: a frame that is not understood is
/// dropped.
pub open spec fn receive(state: ChatState, frame: Seq<char>) -> ChatState {
    match event_of_frame(frame) {
        Ok(event) => step(state, event),
        Err(_) => state,
    }
}

/// Whether the state must be shown again after an inbound frame.
pub open spec fn receive_redraws(frame: Seq<char>) -> bool {
    match event_of_frame(frame) {
        Ok(event) => redraws(event),
        Err(_) => false,
    }
}

/// Why an inbound frame is dropped, if it is.
pub open spec fn receive_error(frame: Seq<char>) -> Option<WireError> {
    match event_of_frame(frame) {
        Ok(_) => None,
        Err(error) => Some(error),
    }
}

/// The views of a sequence of participants, one for one.
pub open spec fn participant_views(participants: Seq<Participant>) -> Seq<ParticipantView> {
    participants.map_values(|participant: Participant| participant@)
}

/// The views of a sequence of chat messages, one for one.
pub open spec fn message_views(messages: Seq<ChatMessage>) -> Seq<ChatMessageView> {
    messages.map_values(|message: ChatMessage| message@)
}

impl View for Participant {
    type V = ParticipantView;

    open spec fn view(&self) -> ParticipantView {
        ParticipantView { display_name: self.display_name@, avatar_url: self.avatar_url@ }
    }
}


/// A copy of a list of participants.
fn copy_participants(participants: &Vec<Participant>) -> (r: Vec<Participant>)
    ensures
        participant_views(r@) == participant_views(participants@),
{
    let mut copy: Vec<Participant> = Vec::new();
    let mut i: usize = 0;
    while i < participants.len()
        invariant
            i <= participants.len(),
            copy.len() == i,
            forall|k: int| 0 <= k < i ==> (#[trigger] copy@[k])@ == participants@[k]@,
        decreases participants.len() - i,
    {
        copy.push(participants[i].clone());
        i += 1;
    }
    assert(participant_views(copy@) =~= participant_views(participants@));
    copy
}

/// A copy of a list of chat messages.
fn copy_messages(messages: &Vec<ChatMessage>) -> (r: Vec<ChatMessage>)
    ensures
        message_views(r@) == message_views(messages@),
{
    let mut copy: Vec<ChatMessage> = Vec::new();
    let mut i: usize = 0;
    while i < messages.len()
        invariant
            i <= messages.len(),
            copy.len() == i,
            forall|k: int| 0 <= k < i ==> (#[trigger] copy@[k])@ == messages@[k]@,
        decreases messages.len() - i,
    {
        copy.push(messages[i].clone());
        i += 1;
    }
    assert(message_views(copy@) =~= message_views(messages@));
    copy
}

impl Clone for Participant {
    fn clone(&self) -> (r: Self)
        ensures
            r@ == self@,
    {
        Participant {
            display_name: self.display_name.clone(),
            avatar_url: self.avatar_url.clone(),
        }
    }
}

impl Clone for Chat {
    fn clone(&self) -> (r: Self)
        ensures
            r.state() == self.state(),
    {
        Chat {
            participants: copy_participants(&self.participants),
            history: copy_messages(&self.history),
        }
    }
}

impl Clone for Msg {
    fn clone(&self) -> (r: Self)
        ensures
            r == self,
    {
        match self {
            Msg::HandleMsg(frame) => Msg::HandleMsg(frame.clone()),
            Msg::SubmitMessage => Msg::SubmitMessage,
        }
    }
}

impl Clone for Update {
    fn clone(&self) -> (r: Self)
        ensures
            r == self,
    {
        Update {
            redraw: self.redraw,
            outbound: match &self.outbound {
                Some(frame) => Some(frame.clone()),
                None => None,
            },
            clear_input: self.clear_input,
            error: self.error,
        }
    }
}

impl Participant {
    /// The participant of that name, with the placeholder avatar.
    pub fn named(name: &str) -> (r: Participant)
        ensures
            r@ == (ParticipantView { display_name: name@, avatar_url: placeholder_avatar() }),
    {
        Participant { display_name: name.to_owned(), avatar_url: "/joebiden.png".to_owned() }
    }
}

impl Chat {
    /// The state that this value holds.
    pub closed spec fn state(&self) -> ChatState {
        ChatState {
            participants: participant_views(self.participants@),
            history: message_views(self.history@),
        }
    }

    /// The state before anything was received.
    pub fn new() -> (r: Chat)
        ensures
            r.state() == initial(),
    {
        let r = Chat { participants: Vec::new(), history: Vec::new() };
        assert(r.state().participants =~= Seq::empty());
        assert(r.state().history =~= Seq::empty());
        r
    }

    /// Starts a client for `username`: the empty state, and the frame to send,
    /// which registers the name with the server. There always is a frame.
    pub fn create(username: &str) -> (r: (Chat, Result<String, WireError>))
        ensures
            r.0.state() == initial(),
            r.1 matches Ok(frame) && frame@ == json_rendering(
                envelope_json(register_envelope(username@)),
            ),
    {
        let frame = Envelope::register(username).encode();
        (Chat::new(), frame)
    }

    /// Who is present, in the server's order.
    pub fn participants(&self) -> (r: &Vec<Participant>)
        ensures
            participant_views(r@) == self.state().participants,
    {
        &self.participants
    }

    /// What was said, in the order of arrival.
    pub fn history(&self) -> (r: &Vec<ChatMessage>)
        ensures
            message_views(r@) == self.state().history,
    {
        &self.history
    }

    /// Takes an event in: a list of names replaces the participants, a chat
    /// message is added at the end of the history, anything else changes
    /// nothing. Returns whether the state must be shown again.
    pub fn apply(&mut self, event: Event) -> (redraw: bool)
        ensures
            final(self).state() == step(old(self).state(), event@),
            redraw == redraws(event@),
    {
        match event {
            Event::Users(names) => {
                let mut participants: Vec<Participant> = Vec::new();
                let mut i: usize = 0;
                while i < names.len()
                    invariant
                        i <= names.len(),
                        participants.len() == i,
                        forall|k: int|
                            0 <= k < i ==> (#[trigger] participants@[k])@ == roster(
                                texts(names@),
                            )[k],
                    decreases names.len() - i,
                {
                    participants.push(Participant::named(names[i].as_str()));
                    i += 1;
                }
                assert(participant_views(participants@) =~= roster(texts(names@)));
                self.participants = participants;
                true
            },
            Event::Message(message) => {
                let ghost before = self.history@;
                self.history.push(message);
                assert(message_views(self.history@) =~= message_views(before).push(message@));
                true
            },
            Event::Other => false,
        }
    }

    /// One step of the client.
    ///
    /// A frame from the server is read and taken in; a frame that is not
    /// understood is dropped, and `error` says why. On a submit, `input` is the
    /// value of the input field, or `None` where there is no field. With a
    /// field, exactly one `message` frame is handed out, which carries the
    /// value as it is, and the field is to be emptied; without one, nothing
    /// happens. Either way the state stays as it is: what was submitted is
    /// shown once the server sends it back.
    pub fn update(&mut self, msg: Msg, input: Option<&str>) -> (r: Update)
        ensures
            match msg {
                Msg::HandleMsg(frame) => {
                    &&& final(self).state() == receive(old(self).state(), frame@)
                    &&& r.redraw == receive_redraws(frame@)
                    &&& r.error == receive_error(frame@)
                    &&& r.outbound.is_none()
                    &&& !r.clear_input
                },
                Msg::SubmitMessage => {
                    &&& final(self).state() == old(self).state()
                    &&& !r.redraw
                    &&& r.error.is_none()
                    &&& match input {
                        Some(text) => {
                            &&& r.clear_input
                            &&& r.outbound matches Some(frame) && frame@ == json_rendering(
                                envelope_json(message_envelope(text@)),
                            )
                        },
                        None => !r.clear_input && r.outbound.is_none(),
                    }
                },
            },
    {
        match msg {
            Msg::HandleMsg(frame) => match Event::decode(frame.as_str()) {
                Ok(event) => {
                    let redraw = self.apply(event);
                    Update { redraw, outbound: None, clear_input: false, error: None }
                },
                Err(error) => Update {
                    redraw: false,
                    outbound: None,
                    clear_input: false,
                    error: Some(error),
                },
            },
            Msg::SubmitMessage => match input {
                None => Update { redraw: false, outbound: None, clear_input: false, error: None },
                Some(text) => match Envelope::message(text).encode() {
                    Ok(frame) => Update {
                        redraw: false,
                        outbound: Some(frame),
                        clear_input: true,
                        error: None,
                    },
                    Err(error) => Update {
                        redraw: false,
                        outbound: None,
                        clear_input: true,
                        error: Some(error),
                    },
                },
            },
        }
    }
}

/// The list of names of the last `Users` event, if there is such an event.
pub open spec fn last_list(events: Seq<EventView>) -> Option<Seq<Seq<char>>>
    decreases events.len(),
{
    if events.len() == 0 {
        None
    } else {
        match events.last() {
            EventView::Users(names) => Some(names),
            _ => last_list(events.drop_last()),
        }
    }
}

/// The chat messages of the `Message` events, in the order of the events.
pub open spec fn said(events: Seq<EventView>) -> Seq<ChatMessageView>
    decreases events.len(),
{
    if events.len() == 0 {
        Seq::empty()
    } else {
        match events.last() {
            EventView::Message(message) => said(events.drop_last()).push(message),
            _ => said(events.drop_last()),
        }
    }
}

/// The kind that a frame names, where it is an object whose `messageType` is a
/// string.
pub open spec fn frame_kind(frame: Seq<char>) -> Option<Seq<char>> {
    match json_parse(frame) {
        Some(document) => match member_of(document, kind_key()) {
            Some(Json::Text(name)) => Some(name),
            _ => None,
        },
        None => None,
    }
}

/// The events of the frames that are understood, in the order of the frames.
pub open spec fn understood(frames: Seq<Seq<char>>) -> Seq<EventView>
    decreases frames.len(),
{
    if frames.len() == 0 {
        Seq::empty()
    } else {
        match event_of_frame(frames.last()) {
            Ok(event) => understood(frames.drop_last()).push(event),
            Err(_) => understood(frames.drop_last()),
        }
    }
}

/// The state after a sequence of inbound frames, taken in their order.
pub open spec fn receive_all(state: ChatState, frames: Seq<Seq<char>>) -> ChatState
    decreases frames.len(),
{
    if frames.len() == 0 {
        state
    } else {
        receive(receive_all(state, frames.drop_last()), frames.last())
    }
}

/// A list of names becomes the participants as it stands: as many, in the same
/// order, a name that occurs twice twice, each with the placeholder avatar.
pub proof fn lemma_roster_keeps_the_list(names: Seq<Seq<char>>)
    ensures
        roster(names).len() == names.len(),
        forall|i: int|
            0 <= i < names.len() ==> (#[trigger] roster(names)[i]).display_name == names[i]
                && roster(names)[i].avatar_url == placeholder_avatar(),
{
}

/// After any sequence of events the participants are those of the last list
/// of names received, and the ones from before where no list was received.
pub proof fn lemma_participants_follow_the_last_list(state: ChatState, events: Seq<EventView>)
    ensures
        run(state, events).participants == match last_list(events) {
            Some(names) => roster(names),
            None => state.participants,
        },
    decreases events.len(),
{
    if events.len() > 0 {
        lemma_participants_follow_the_last_list(state, events.drop_last());
    }
}

/// After a sequence of `Users` events the participants are exactly the list
/// of the last one, whatever the earlier ones held, and the history is as
/// before.
pub proof fn lemma_users_events_replace_the_participants(
    state: ChatState,
    events: Seq<EventView>,
)
    requires
        events.len() > 0,
        forall|i: int| 0 <= i < events.len() ==> (#[trigger] events[i]) is Users,
    ensures
        run(state, events).participants == roster(events.last()->Users_0),
        run(state, events).history == state.history,
    decreases events.len(),
{
    if events.len() > 1 {
        lemma_users_events_replace_the_participants(state, events.drop_last());
    } else {
        assert(run(state, events.drop_last()) == state);
    }
}

/// After any sequence of events the history is the one from before, followed
/// by the chat messages received, in the order of arrival.
pub proof fn lemma_history_grows_by_what_was_said(state: ChatState, events: Seq<EventView>)
    ensures
        run(state, events).history == state.history + said(events),
    decreases events.len(),
{
    if events.len() == 0 {
        assert(state.history + said(events) =~= state.history);
    } else {
        lemma_history_grows_by_what_was_said(state, events.drop_last());
        let before = events.drop_last();
        match events.last() {
            EventView::Message(message) => {
                assert(state.history + said(before).push(message) =~= (state.history + said(
                    before,
                )).push(message));
            },
            _ => {},
        }
    }
}

/// After a sequence of `Message` events the history is longer by one entry
/// for each event: the old entries stay where they were, and the new ones
/// follow in the order of arrival, none left out and none merged.
pub proof fn lemma_message_events_extend_the_history(state: ChatState, events: Seq<EventView>)
    requires
        forall|i: int| 0 <= i < events.len() ==> (#[trigger] events[i]) is Message,
    ensures
        run(state, events).history.len() == state.history.len() + events.len(),
        forall|i: int|
            0 <= i < state.history.len() ==> run(state, events).history[i] == state.history[i],
        forall|i: int|
            0 <= i < events.len() ==> run(state, events).history[state.history.len() + i]
                == (#[trigger] events[i])->Message_0,
        run(state, events).participants == state.participants,
    decreases events.len(),
{
    if events.len() > 0 {
        let before = events.drop_last();
        lemma_message_events_extend_the_history(state, before);
        assert(events.last() is Message);
        assert forall|i: int| 0 <= i < events.len() implies run(
            state,
            events,
        ).history[state.history.len() + i] == (#[trigger] events[i])->Message_0 by {
            if i < before.len() {
                assert(before[i] == events[i]);
            }
        }
    }
}

/// An event that asks for nothing leaves the state as it is and asks for no
/// redraw.
pub proof fn lemma_other_events_change_nothing(state: ChatState)
    ensures
        step(state, EventView::Other) == state,
        !redraws(EventView::Other),
{
}

/// A frame that names a kind other than `users` and `message`, be it
/// `register` or a kind this client does not know, leaves the state as it is
/// and asks for no redraw.
pub proof fn lemma_other_kinds_change_nothing(state: ChatState, frame: Seq<char>)
    requires
        frame_kind(frame) matches Some(name) && name != MsgTypes::Users.wire_name() && name
            != MsgTypes::Message.wire_name(),
    ensures
        receive(state, frame) == state,
        !receive_redraws(frame),
{
}

/// A frame that asks for no redraw has left the state as it was.
pub proof fn lemma_no_redraw_means_no_change(state: ChatState, frame: Seq<char>)
    requires
        !receive_redraws(frame),
    ensures
        receive(state, frame) == state,
{
}

/// A sequence of inbound frames acts as the events of those among them that
/// are understood: the participants are those of the last list of names
/// received, and the history grew by the chat messages received, one entry for
/// each, in the order of arrival. A frame that is dropped counts for nothing.
pub proof fn lemma_frames_act_as_their_events(state: ChatState, frames: Seq<Seq<char>>)
    ensures
        receive_all(state, frames) == run(state, understood(frames)),
        receive_all(state, frames).participants == match last_list(understood(frames)) {
            Some(names) => roster(names),
            None => state.participants,
        },
        receive_all(state, frames).history == state.history + said(understood(frames)),
    decreases frames.len(),
{
    if frames.len() > 0 {
        let before = frames.drop_last();
        lemma_frames_act_as_their_events(state, before);
        match event_of_frame(frames.last()) {
            Ok(event) => {
                let events = understood(before).push(event);
                assert(events.drop_last() =~= understood(before));
                assert(events.last() == event);
            },
            Err(_) => {},
        }
    }
    lemma_participants_follow_the_last_list(state, understood(frames));
    lemma_history_grows_by_what_was_said(state, understood(frames));
}

} // verus!
