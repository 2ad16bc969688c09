use voynich_term::chat::{Chat, ChatList, ChatMessage};
use voynich_term::peer::PeerId;
use voynich_term::peer_map::PeerMap;

fn peer(name: &str) -> PeerId {
    PeerId::new(name.to_string())
}

fn names(list: &ChatList) -> Vec<String> {
    list.names().iter().map(|id| id.as_str().to_string()).collect()
}

#[test]
fn peer_id_same_compares_the_text() {
    assert!(peer("abc").same(&peer("abc")));
    assert!(!peer("abc").same(&peer("abd")));
    assert!(!peer("abc").same(&peer("ab")));
    assert_eq!(peer("abc").clone(), peer("abc"));
    assert_eq!(peer("abc").as_str(), "abc");
}

#[test]
fn chat_message_new_keeps_its_parts() {
    let message = ChatMessage::new(&peer("me"), &peer("you"), "hi".to_string(), 1700000000);
    assert_eq!(message.date, 1700000000);
    assert_eq!(message.sender, peer("me"));
    assert_eq!(message.recipient, peer("you"));
    assert_eq!(message.message, "hi");
    assert_eq!(message.clone(), message);
}

#[test]
fn chat_appends_messages_in_order() {
    let mut chat = Chat::new(&peer("you"));
    assert_eq!(chat.id(), "you");
    assert!(chat.messages().is_empty());
    for i in 0..300 {
        chat.add_message(ChatMessage::new(&peer("me"), &peer("you"), format!("m{}", i), i));
    }
    assert_eq!(chat.messages().len(), 300);
    assert_eq!(chat.messages()[0].message, "m0");
    assert_eq!(chat.messages()[299].message, "m299");
}

#[test]
fn chat_list_starts_empty() {
    let list = ChatList::new();
    assert!(names(&list).is_empty());
    assert_eq!(list.current_index(), None);
    assert_eq!(list.current(), None);
    let list = ChatList::default();
    assert_eq!(list.current_index(), None);
}

#[test]
fn chat_list_add_selects_the_new_tab() {
    let mut list = ChatList::new();
    list.add(&peer("a"));
    assert_eq!(list.current_index(), Some(0));
    list.add(&peer("b"));
    assert_eq!(list.current_index(), Some(1));
    assert_eq!(list.current(), Some(&peer("b")));
    assert_eq!(names(&list), vec!["a", "b"]);
}

#[test]
fn chat_list_next_and_prev_wrap_around() {
    let mut list = ChatList::new();
    list.add(&peer("a"));
    list.add(&peer("b"));
    list.add(&peer("c"));
    assert_eq!(list.next_chat(), Some(&peer("a")));
    assert_eq!(list.current_index(), Some(0));
    assert_eq!(list.next_chat(), Some(&peer("b")));
    assert_eq!(list.prev_chat(), Some(&peer("a")));
    assert_eq!(list.prev_chat(), Some(&peer("c")));
    assert_eq!(list.current_index(), Some(2));
}

#[test]
fn chat_list_next_and_prev_without_tabs() {
    let mut list = ChatList::new();
    assert_eq!(list.next_chat(), None);
    assert_eq!(list.prev_chat(), None);
    assert_eq!(list.current_index(), None);
}

#[test]
fn chat_list_remove_fills_the_gap_with_the_last_tab() {
    let mut list = ChatList::new();
    list.add(&peer("a"));
    list.add(&peer("b"));
    list.add(&peer("c"));
    list.add(&peer("d"));
    list.remove(&peer("b"));
    assert_eq!(names(&list), vec!["a", "d", "c"]);
    assert_eq!(list.current_index(), Some(2));
    assert_eq!(list.current(), Some(&peer("c")));
}

#[test]
fn chat_list_remove_before_the_selection_keeps_the_index_behind() {
    let mut list = ChatList::new();
    list.add(&peer("a"));
    list.add(&peer("b"));
    list.add(&peer("c"));
    list.prev_chat();
    list.prev_chat();
    assert_eq!(list.current_index(), Some(0));
    list.remove(&peer("c"));
    assert_eq!(names(&list), vec!["a", "b"]);
    assert_eq!(list.current_index(), Some(0));
}

#[test]
fn chat_list_remove_of_the_first_selected_tab_drops_the_selection() {
    let mut list = ChatList::new();
    list.add(&peer("a"));
    list.add(&peer("b"));
    list.prev_chat();
    list.remove(&peer("a"));
    assert_eq!(names(&list), vec!["b"]);
    assert_eq!(list.current_index(), None);
    assert_eq!(list.current(), None);
}

#[test]
fn chat_list_remove_without_a_selection_keeps_none() {
    let mut list = ChatList::new();
    list.add(&peer("a"));
    list.add(&peer("b"));
    list.add(&peer("c"));
    list.prev_chat();
    list.prev_chat();
    list.remove(&peer("a"));
    assert_eq!(list.current_index(), None);
    list.remove(&peer("b"));
    assert_eq!(names(&list), vec!["c"]);
    assert_eq!(list.current_index(), None);
}

#[test]
fn chat_list_remove_of_the_last_tab_empties_the_list() {
    let mut list = ChatList::new();
    list.add(&peer("a"));
    list.remove(&peer("a"));
    assert!(names(&list).is_empty());
    assert_eq!(list.current_index(), None);
}

#[test]
fn chat_list_remove_of_an_unknown_peer_changes_nothing() {
    let mut list = ChatList::new();
    list.add(&peer("a"));
    list.remove(&peer("z"));
    assert_eq!(names(&list), vec!["a"]);
    assert_eq!(list.current_index(), Some(0));
}

#[test]
fn chat_list_remove_takes_the_first_of_two_tabs_of_a_peer() {
    let mut list = ChatList::new();
    list.add(&peer("a"));
    list.add(&peer("b"));
    list.add(&peer("a"));
    list.remove(&peer("a"));
    assert_eq!(names(&list), vec!["a", "b"]);
    assert_eq!(list.current_index(), Some(1));
}

#[test]
fn peer_map_insert_get_remove() {
    let mut map: PeerMap<Chat> = PeerMap::new();
    assert_eq!(map.len(), 0);
    assert!(!map.contains_key(&peer("a")));
    map.insert(peer("a"), Chat::new(&peer("a")));
    map.insert(peer("b"), Chat::new(&peer("b")));
    assert_eq!(map.len(), 2);
    assert!(map.contains_key(&peer("a")));
    assert_eq!(map.get(&peer("b")).map(|chat| chat.id()), Some("b".to_string()));
    assert!(map.get(&peer("c")).is_none());
    let removed = map.remove(&peer("a"));
    assert_eq!(removed.map(|chat| chat.id()), Some("a".to_string()));
    assert!(map.remove(&peer("a")).is_none());
    assert_eq!(map.len(), 1);
    assert!(!map.contains_key(&peer("a")));
    assert!(map.contains_key(&peer("b")));
}

#[test]
fn peer_map_insert_replaces_the_value() {
    let mut map: PeerMap<Chat> = PeerMap::new();
    let mut chat = Chat::new(&peer("a"));
    chat.add_message(ChatMessage::new(&peer("a"), &peer("me"), "hello".to_string(), 1));
    map.insert(peer("a"), chat);
    assert_eq!(map.get(&peer("a")).map(|chat| chat.messages().len()), Some(1));
    map.insert(peer("a"), Chat::new(&peer("a")));
    assert_eq!(map.len(), 1);
    assert_eq!(map.get(&peer("a")).map(|chat| chat.messages().len()), Some(0));
}
