//! What is shown: the participant panel and the message feed, as plain
//! values for a renderer to turn into markup.
use crate::chat::{
    participant_views, placeholder_avatar, Chat, ChatState, Participant, ParticipantView,
};
use crate::wire::{ChatMessage, ChatMessageView};
use vstd::prelude::*;
use vstd::string::StrSliceExecFns;

verus! {

/// One entry of the participant panel.
#[derive(Debug, PartialEq, Eq)]
pub struct ParticipantCard {
    pub name: String,
    pub avatar: String,
    pub status: String,
}

/// A panel entry, as plain mathematics.
pub struct ParticipantCardView {
    pub name: Seq<char>,
    pub avatar: Seq<char>,
    pub status: Seq<char>,
}

/// How the body of a chat message is shown.
#[derive(Debug, PartialEq, Eq)]
pub enum Body {
    /// As the image at this address.
    Image(String),
    /// As this text.
    Text(String),
}

/// How a body is shown, as plain mathematics.
pub enum BodyView {
    Image(Seq<char>),
    Text(Seq<char>),
}

/// One entry of the message feed.
#[derive(Debug, PartialEq, Eq)]
pub struct FeedEntry {
    pub avatar: String,
    pub sender: String,
    pub body: Body,
}

/// A feed entry, as plain mathematics.
pub struct FeedEntryView {
    pub avatar: Seq<char>,
    pub sender: Seq<char>,
    pub body: BodyView,
}

/// All that is shown.
#[derive(Debug, PartialEq, Eq)]
pub struct Scene {
    pub participants: Vec<ParticipantCard>,
    pub feed: Vec<FeedEntry>,
}

/// All that is shown, as plain mathematics.
pub struct SceneView {
    pub participants: Seq<ParticipantCardView>,
    pub feed: Seq<FeedEntryView>,
}

/// The line shown under every participant's name.
pub open spec fn status_line() -> Seq<char> {
    "Hi there!"@
}

/// The avatar shown for a sender who is not among the participants.
pub open spec fn fallback_avatar() -> Seq<char> {
    placeholder_avatar()
}

/// The ending by which a body is taken for the address of an image.
pub open spec fn image_suffix() -> Seq<char> {
    seq!['.', 'g', 'i', 'f']
}

/// Whether a body is shown as an image: whether it ends in `.gif`.
pub open spec fn is_image_reference(body: Seq<char>) -> bool {
    body.len() >= 4 && body.subrange(body.len() - 4, body.len() as int) == image_suffix()
}

/// The avatar of the first participant called `name`, if there is one.
pub open spec fn avatar_of(participants: Seq<ParticipantView>, name: Seq<char>) -> Option<
    Seq<char>,
>
    decreases participants.len(),
{
    if participants.len() == 0 {
        None
    } else if participants[0].display_name == name {
        Some(participants[0].avatar_url)
    } else {
        avatar_of(participants.drop_first(), name)
    }
}

/// The panel entry of a participant.
pub open spec fn card_of(participant: ParticipantView) -> ParticipantCardView {
    ParticipantCardView {
        name: participant.display_name,
        avatar: participant.avatar_url,
        status: status_line(),
    }
}

/// How a body is shown.
pub open spec fn body_of(body: Seq<char>) -> BodyView {
    if is_image_reference(body) {
        BodyView::Image(body)
    } else {
        BodyView::Text(body)
    }
}

/// The feed entry of a chat message: the sender's avatar is looked up among
/// the participants, and is the fallback where the sender is not found.
pub open spec fn entry_of(participants: Seq<ParticipantView>, message: ChatMessageView)
    -> FeedEntryView {
    FeedEntryView {
        avatar: match avatar_of(participants, message.sender) {
            Some(avatar) => avatar,
            None => fallback_avatar(),
        },
        sender: message.sender,
        body: body_of(message.body),
    }
}

/// What is shown for a state: a panel entry for each participant and a feed
/// entry for each chat message, both in the order of the state.
pub open spec fn scene_of(state: ChatState) -> SceneView {
    SceneView {
        participants: state.participants.map_values(
            |participant: ParticipantView| card_of(participant),
        ),
        feed: state.history.map_values(
            |message: ChatMessageView| entry_of(state.participants, message),
        ),
    }
}

/// The views of a sequence of panel entries, one for one.
pub open spec fn card_views(cards: Seq<ParticipantCard>) -> Seq<ParticipantCardView> {
    cards.map_values(|card: ParticipantCard| card@)
}

/// The views of a sequence of feed entries, one for one.
pub open spec fn entry_views(entries: Seq<FeedEntry>) -> Seq<FeedEntryView> {
    entries.map_values(|entry: FeedEntry| entry@)
}

impl View for ParticipantCard {
    type V = ParticipantCardView;

    open spec fn view(&self) -> ParticipantCardView {
        ParticipantCardView { name: self.name@, avatar: self.avatar@, status: self.status@ }
    }
}

impl View for Body {
    type V = BodyView;

    open spec fn view(&self) -> BodyView {
        match self {
            Body::Image(address) => BodyView::Image(address@),
            Body::Text(text) => BodyView::Text(text@),
        }
    }
}

impl View for FeedEntry {
    type V = FeedEntryView;

    open spec fn view(&self) -> FeedEntryView {
        FeedEntryView { avatar: self.avatar@, sender: self.sender@, body: self.body@ }
    }
}

impl View for Scene {
    type V = SceneView;

    open spec fn view(&self) -> SceneView {
        SceneView {
            participants: card_views(self.participants@),
            feed: entry_views(self.feed@),
        }
    }
}

/// A copy of a list of panel entries.
fn copy_cards(cards: &Vec<ParticipantCard>) -> (r: Vec<ParticipantCard>)
    ensures
        card_views(r@) == card_views(cards@),
{
    let mut copy: Vec<ParticipantCard> = Vec::new();
    let mut i: usize = 0;
    while i < cards.len()
        invariant
            i <= cards.len(),
            copy.len() == i,
            forall|k: int| 0 <= k < i ==> (#[trigger] copy@[k])@ == cards@[k]@,
        decreases cards.len() - i,
    {
        copy.push(cards[i].clone());
        i += 1;
    }
    assert(card_views(copy@) =~= card_views(cards@));
    copy
}

/// A copy of a list of feed entries.
fn copy_entries(entries: &Vec<FeedEntry>) -> (r: Vec<FeedEntry>)
    ensures
        entry_views(r@) == entry_views(entries@),
{
    let mut copy: Vec<FeedEntry> = Vec::new();
    let mut i: usize = 0;
    while i < entries.len()
        invariant
            i <= entries.len(),
            copy.len() == i,
            forall|k: int| 0 <= k < i ==> (#[trigger] copy@[k])@ == entries@[k]@,
        decreases entries.len() - i,
    {
        copy.push(entries[i].clone());
        i += 1;
    }
    assert(entry_views(copy@) =~= entry_views(entries@));
    copy
}

impl Clone for ParticipantCard {
    fn clone(&self) -> (r: Self)
        ensures
            r@ == self@,
    {
        ParticipantCard {
            name: self.name.clone(),
            avatar: self.avatar.clone(),
            status: self.status.clone(),
        }
    }
}

impl Clone for Body {
    fn clone(&self) -> (r: Self)
        ensures
            r@ == self@,
    {
        match self {
            Body::Image(address) => Body::Image(address.clone()),
            Body::Text(text) => Body::Text(text.clone()),
        }
    }
}

impl Clone for FeedEntry {
    fn clone(&self) -> (r: Self)
        ensures
            r@ == self@,
    {
        FeedEntry {
            avatar: self.avatar.clone(),
            sender: self.sender.clone(),
            body: self.body.clone(),
        }
    }
}

impl Clone for Scene {
    fn clone(&self) -> (r: Self)
        ensures
            r@ == self@,
    {
        Scene { participants: copy_cards(&self.participants), feed: copy_entries(&self.feed) }
    }
}

/// Whether a body is shown as an image.
pub fn is_image(body: &str) -> (r: bool)
    ensures
        r == is_image_reference(body@),
{
    let n = body.unicode_len();
    if n < 4 {
        return false;
    }
    let found = body.get_char(n - 4) == '.' && body.get_char(n - 3) == 'g' && body.get_char(n - 2)
        == 'i' && body.get_char(n - 1) == 'f';
    proof {
        let tail = body@.subrange(n - 4, n as int);
        assert(tail.len() == 4);
        assert(tail[0] == body@[n - 4]);
        assert(tail[1] == body@[n - 3]);
        assert(tail[2] == body@[n - 2]);
        assert(tail[3] == body@[n - 1]);
        if found {
            assert(tail =~= image_suffix());
        }
    }
    found
}

/// The avatar of the first of `participants` called `name`, if there is one.
pub fn find_avatar(participants: &Vec<Participant>, name: &str) -> (r: Option<String>)
    ensures
        match r {
            Some(avatar) => avatar_of(participant_views(participants@), name@) == Some(
                avatar@,
            ),
            None => avatar_of(participant_views(participants@), name@).is_none(),
        },
{
    let ghost all = participant_views(participants@);
    let wanted = name.to_owned();
    let mut i: usize = 0;
    assert(all.skip(0) =~= all);
    while i < participants.len()
        invariant
            i <= participants.len(),
            all == participant_views(participants@),
            wanted@ == name@,
            avatar_of(all, name@) == avatar_of(all.skip(i as int), name@),
        decreases participants.len() - i,
    {
        proof {
            assert(all.skip(i as int)[0] == participants@[i as int]@);
            assert(all.skip(i as int).drop_first() =~= all.skip(i + 1));
        }
        if participants[i].display_name == wanted {
            return Some(participants[i].avatar_url.clone());
        }
        i += 1;
    }
    None
}

impl Chat {
    /// The avatar of the first participant called `name`, if there is one.
    pub fn avatar(&self, name: &str) -> (r: Option<String>)
        ensures
            match r {
                Some(avatar) => avatar_of(self.state().participants, name@) == Some(avatar@),
                None => avatar_of(self.state().participants, name@).is_none(),
            },
    {
        find_avatar(self.participants(), name)
    }

    /// What is shown for the state.
    pub fn view(&self) -> (r: Scene)
        ensures
            r@ == scene_of(self.state()),
    {
        let participants = self.participants();
        let history = self.history();
        let mut cards: Vec<ParticipantCard> = Vec::new();
        let mut i: usize = 0;
        while i < participants.len()
            invariant
                i <= participants.len(),
                cards.len() == i,
                forall|k: int|
                    0 <= k < i ==> (#[trigger] cards@[k])@ == card_of(participants@[k]@),
            decreases participants.len() - i,
        {
            cards.push(
                ParticipantCard {
                    name: participants[i].display_name.clone(),
                    avatar: participants[i].avatar_url.clone(),
                    status: "Hi there!".to_owned(),
                },
            );
            i += 1;
        }
        let mut feed: Vec<FeedEntry> = Vec::new();
        let mut j: usize = 0;
        while j < history.len()
            invariant
                j <= history.len(),
                feed.len() == j,
                forall|k: int|
                    0 <= k < j ==> (#[trigger] feed@[k])@ == entry_of(
                        participant_views(participants@),
                        history@[k]@,
                    ),
            decreases history.len() - j,
        {
            let message = &history[j];
            let avatar = match find_avatar(participants, message.sender.as_str()) {
                Some(avatar) => avatar,
                None => "/joebiden.png".to_owned(),
            };
            let body = if is_image(message.body.as_str()) {
                Body::Image(message.body.clone())
            } else {
                Body::Text(message.body.clone())
            };
            feed.push(FeedEntry { avatar, sender: message.sender.clone(), body });
            j += 1;
        }
        let scene = Scene { participants: cards, feed };
        assert(scene@.participants =~= scene_of(self.state()).participants);
        assert(scene@.feed =~= scene_of(self.state()).feed);
        scene
    }
}

/// A sender who is among the participants is shown with the avatar of the
/// first participant of that name.
pub proof fn lemma_present_sender_is_found(participants: Seq<ParticipantView>, name: Seq<char>)
    requires
        exists|i: int| 0 <= i < participants.len() && participants[i].display_name == name,
    ensures
        avatar_of(participants, name).is_some(),
        exists|i: int|
            0 <= i < participants.len() && participants[i].display_name == name && avatar_of(
                participants,
                name,
            ) == Some(participants[i].avatar_url) && forall|k: int|
                0 <= k < i ==> participants[k].display_name != name,
    decreases participants.len(),
{
    let found = choose|i: int| 0 <= i < participants.len() && participants[i].display_name == name;
    if participants[0].display_name == name {
        assert(avatar_of(participants, name) == Some(participants[0].avatar_url));
    } else {
        let rest = participants.drop_first();
        assert(rest[found - 1] == participants[found]);
        lemma_present_sender_is_found(rest, name);
        let at = choose|i: int|
            0 <= i < rest.len() && rest[i].display_name == name && avatar_of(rest, name) == Some(
                rest[i].avatar_url,
            ) && forall|k: int| 0 <= k < i ==> rest[k].display_name != name;
        assert(participants[at + 1] == rest[at]);
        assert forall|k: int| 0 <= k < at + 1 implies participants[k].display_name != name by {
            if k > 0 {
                assert(participants[k] == rest[k - 1]);
            }
        }
    }
}

/// A sender who is not among the participants is not found, and the feed
/// shows the fallback avatar for what that sender said.
pub proof fn lemma_absent_sender_gets_the_fallback(
    participants: Seq<ParticipantView>,
    message: ChatMessageView,
)
    requires
        forall|i: int|
            0 <= i < participants.len() ==> participants[i].display_name != message.sender,
    ensures
        avatar_of(participants, message.sender).is_none(),
        entry_of(participants, message).avatar == fallback_avatar(),
    decreases participants.len(),
{
    if participants.len() > 0 {
        let rest = participants.drop_first();
        assert forall|i: int| 0 <= i < rest.len() implies rest[i].display_name
            != message.sender by {
            assert(rest[i] == participants[i + 1]);
        }
        lemma_absent_sender_gets_the_fallback(rest, message);
    }
}

} // verus!
