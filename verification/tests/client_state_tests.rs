use chat_dispatch::channel::Channel;
use chat_dispatch::current_state::CurrentState;
use chat_dispatch::message::Message;
use chat_dispatch::user::User;
use chat_dispatch::view_data::ViewData;

fn new_user(id: &str, name: &str) -> User {
    User { id: id.to_string(), name: name.to_string() }
}

fn new_channel(name: &str) -> Channel {
    Channel {
        id: "banana".to_string(),
        name: name.to_string(),
        members: Some(vec!["Timon".to_string()]),
        is_member: false,
        is_general: false,
    }
}

fn channel_with_id(id: &str, name: &str) -> Channel {
    Channel {
        id: id.to_string(),
        name: name.to_string(),
        members: Some(vec![]),
        is_member: false,
        is_general: false,
    }
}

fn new_state() -> CurrentState {
    CurrentState::new(
        new_user("U023BECGF", "bobby"),
        vec![channel_with_id("zyx", "General")],
        vec![new_user("xyz", "Matijs")],
    )
}

fn incoming(user: Option<&str>, text: &str, channel: Option<&str>) -> Message {
    Message {
        text: Some(text.to_string()),
        user_id: user.map(|id| id.to_string()),
        channel_id: channel.map(|id| id.to_string()),
        user: None,
        channel: None,
    }
}

#[test]
fn test_id_to_user() {
    let state = new_state();
    let user = state.user_id_to_user("xyz");
    assert_eq!(user.unwrap().name, "Matijs");
}

#[test]
fn test_id_to_channel() {
    let state = new_state();
    let channel = state.channel_id_to_channel("zyx");
    assert_eq!(channel.unwrap().name, "General");
}

#[test]
fn test_parse_incoming_message() {
    let state = new_state();
    let raw = incoming(Some("xyz"), "Bananas!", Some("zyx"));

    let message = state.parse_incoming_message(raw);
    assert_eq!(message.channel.unwrap().name, "General");
    assert_eq!(message.user.unwrap().name, "Matijs");
}

#[test]
fn test_update_unread_channels() {
    let mut view_data = ViewData::new(new_channel("Dev"));
    let mut other_view_data = ViewData::new(new_channel("General"));
    other_view_data.has_unread = true;
    view_data.update_unread(&vec![other_view_data]);
    assert_eq!(view_data.unread_channels.first().unwrap().name, "General");

    let mut other_view_data = ViewData::new(new_channel("General"));
    let other_view_data2 = ViewData::new(new_channel("Knor"));
    other_view_data.has_unread = true;
    view_data.update_unread(&vec![other_view_data, other_view_data2]);
    assert_eq!(view_data.unread_channels.len(), 1);
}

#[test]
fn test_add_debug() {
    let mut view_data = ViewData::new(new_channel("Dev"));
    view_data.add_debug("test".to_string());
    let message = view_data.messages.last().unwrap();
    assert_eq!(message.text.as_ref().unwrap(), "test")
}

#[test]
fn a_new_state_holds_its_parts() {
    let state = new_state();
    assert_eq!(state.me.name, "bobby");
    assert_eq!(state.me.id, "U023BECGF");
    assert_eq!(state.users[0].name, "Matijs");
    assert_eq!(state.channels[0].name, "General");
    assert_eq!(state.users.len(), 1);
    assert_eq!(state.channels.len(), 1);
}

#[test]
fn an_unknown_identifier_finds_nothing() {
    let state = new_state();
    assert_eq!(state.user_id_to_user("zyx"), None);
    assert_eq!(state.channel_id_to_channel("xyz"), None);
    assert_eq!(state.user_id_to_user(""), None);
    assert_eq!(state.user_id_to_user("xy"), None);
    assert_eq!(state.user_id_to_user("xyzz"), None);
    let empty = CurrentState::new(new_user("me", "me"), vec![], vec![]);
    assert_eq!(empty.user_id_to_user("me"), None);
    assert_eq!(empty.channel_id_to_channel("zyx"), None);
}

#[test]
fn the_first_of_two_with_one_identifier_is_found() {
    let state = CurrentState::new(
        new_user("me", "me"),
        vec![
            channel_with_id("a", "first"),
            channel_with_id("b", "second"),
            channel_with_id("b", "third"),
            channel_with_id("c", "fourth"),
        ],
        vec![new_user("u", "early"), new_user("v", "middle"), new_user("u", "late")],
    );
    assert_eq!(state.channel_id_to_channel("b").unwrap().name, "second");
    assert_eq!(state.channel_id_to_channel("c").unwrap().name, "fourth");
    assert_eq!(state.channel_id_to_channel("a").unwrap().name, "first");
    assert_eq!(state.user_id_to_user("u").unwrap().name, "early");
    assert_eq!(state.user_id_to_user("v").unwrap().name, "middle");
}

#[test]
fn a_message_keeps_text_and_identifiers() {
    let state = new_state();
    let message = state.parse_incoming_message(incoming(Some("xyz"), "Bananas!", Some("zyx")));
    assert_eq!(message.text, Some("Bananas!".to_string()));
    assert_eq!(message.user_id, Some("xyz".to_string()));
    assert_eq!(message.channel_id, Some("zyx".to_string()));
    assert_eq!(message.user, Some(new_user("xyz", "Matijs")));
    assert_eq!(message.channel, Some(channel_with_id("zyx", "General")));
}

#[test]
fn an_unknown_identifier_leaves_the_reference_empty() {
    let state = new_state();
    let mut raw = incoming(Some("nobody"), "Who?", Some("nowhere"));
    raw.user = Some(new_user("old", "stale"));
    raw.channel = Some(new_channel("stale"));
    let message = state.parse_incoming_message(raw);
    assert_eq!(message.user, None);
    assert_eq!(message.channel, None);
    assert_eq!(message.text, Some("Who?".to_string()));
}

#[test]
fn a_message_without_identifiers_keeps_what_it_came_with() {
    let state = new_state();
    let mut raw = incoming(None, "As I was", None);
    raw.user = Some(new_user("old", "kept"));
    raw.channel = Some(new_channel("kept too"));
    let message = state.parse_incoming_message(raw);
    assert_eq!(message.user.unwrap().name, "kept");
    assert_eq!(message.channel.unwrap().name, "kept too");

    let bare = state.parse_incoming_message(incoming(None, "bare", None));
    assert_eq!(bare.user, None);
    assert_eq!(bare.channel, None);
    assert_eq!(bare.user_id, None);
    assert_eq!(bare.channel_id, None);
}

#[test]
fn a_message_may_name_only_one_of_the_two() {
    let state = new_state();
    let only_user = state.parse_incoming_message(incoming(Some("xyz"), "hi", None));
    assert_eq!(only_user.user.unwrap().name, "Matijs");
    assert_eq!(only_user.channel, None);
    let only_channel = state.parse_incoming_message(incoming(None, "hi", Some("zyx")));
    assert_eq!(only_channel.user, None);
    assert_eq!(only_channel.channel.unwrap().name, "General");
}

#[test]
fn a_new_view_is_empty() {
    let view_data = ViewData::new(new_channel("Dev"));
    assert_eq!(view_data.channel, new_channel("Dev"));
    assert!(view_data.messages.is_empty());
    assert!(view_data.unread_channels.is_empty());
    assert!(!view_data.has_unread);
    assert_eq!(view_data.clock, 0);
}

#[test]
fn messages_are_shown_in_the_order_they_were_added() {
    let mut view_data = ViewData::new(new_channel("Dev"));
    view_data.add_message(incoming(Some("xyz"), "one", Some("zyx")));
    view_data.add_debug("two".to_string());
    view_data.add_message(incoming(None, "three", None));
    let texts: Vec<String> = view_data.messages.iter().map(|m| m.text.clone().unwrap()).collect();
    assert_eq!(texts, vec!["one", "two", "three"]);
    assert_eq!(view_data.messages[0].user_id, Some("xyz".to_string()));
    assert_eq!(view_data.messages[1], Message::debug("two".to_string()));
    assert_eq!(view_data.channel.name, "Dev");
    assert!(!view_data.has_unread);
}

#[test]
fn a_debug_message_names_nobody() {
    let message = Message::debug("test".to_string());
    assert_eq!(message.text, Some("test".to_string()));
    assert_eq!(message.user_id, None);
    assert_eq!(message.channel_id, None);
    assert_eq!(message.user, None);
    assert_eq!(message.channel, None);
}

#[test]
fn unread_channels_come_in_the_order_of_the_views() {
    let mut view_data = ViewData::new(new_channel("Dev"));
    view_data.has_unread = true;
    view_data.add_debug("kept".to_string());
    let mut views = vec![
        ViewData::new(new_channel("General")),
        ViewData::new(new_channel("Knor")),
        ViewData::new(new_channel("Random")),
        ViewData::new(new_channel("Ops")),
    ];
    views[0].has_unread = true;
    views[2].has_unread = true;
    views[3].has_unread = true;
    view_data.update_unread(&views);
    let names: Vec<&str> = view_data.unread_channels.iter().map(|c| c.name.as_str()).collect();
    assert_eq!(names, vec!["General", "Random", "Ops"]);
    assert_eq!(view_data.unread_channels[1], new_channel("Random"));
    assert_eq!(view_data.messages.len(), 1);
    assert_eq!(view_data.channel.name, "Dev");
    assert!(view_data.has_unread);

    views[0].has_unread = false;
    views[2].has_unread = false;
    views[3].has_unread = false;
    view_data.update_unread(&views);
    assert!(view_data.unread_channels.is_empty());
    view_data.update_unread(&vec![]);
    assert!(view_data.unread_channels.is_empty());
}

#[test]
fn clones_equal_their_originals() {
    let channel = new_channel("Dev");
    assert_eq!(channel.clone(), channel);
    let without_members = Channel { members: None, is_general: true, ..new_channel("Dev") };
    assert_eq!(without_members.clone(), without_members);
    let user = new_user("xyz", "Matijs");
    assert_eq!(user.clone(), user);
    let mut message = incoming(Some("xyz"), "Bananas!", Some("zyx"));
    message.user = Some(user);
    message.channel = Some(channel);
    assert_eq!(message.clone(), message);
}
