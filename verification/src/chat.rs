use crate::peer::PeerId;
use vstd::prelude::*;

verus! {

/// One message of a conversation, with the second it was written in
/// (counted from the Unix epoch).
#[derive(Debug, PartialEq, Eq)]
pub struct ChatMessage {
    pub date: i64,
    pub sender: PeerId,
    pub recipient: PeerId,
    pub message: String,
}

pub struct ChatMessageView {
    pub date: int,
    pub sender: Seq<char>,
    pub recipient: Seq<char>,
    pub message: Seq<char>,
}

impl View for ChatMessage {
    type V = ChatMessageView;

    open spec fn view(&self) -> ChatMessageView {
        ChatMessageView {
            date: self.date as int,
            sender: self.sender@,
            recipient: self.recipient@,
            message: self.message@,
        }
    }
}

impl ChatMessage {
    pub fn new(sender: &PeerId, recipient: &PeerId, message: String, date: i64) -> (made: Self)
        ensures
            made@ == (ChatMessageView {
                date: date as int,
                sender: sender@,
                recipient: recipient@,
                message: message@,
            }),
    {
        ChatMessage { date, sender: sender.clone(), recipient: recipient.clone(), message }
    }
}

impl Clone for ChatMessage {
    fn clone(&self) -> (copy: Self)
        ensures
            copy@ == self@,
    {
        ChatMessage {
            date: self.date,
            sender: self.sender.clone(),
            recipient: self.recipient.clone(),
            message: self.message.clone(),
        }
    }
}

/// The messages as their views.
pub open spec fn messages_view(messages: Seq<ChatMessage>) -> Seq<ChatMessageView> {
    messages.map_values(|message: ChatMessage| message@)
}

/// The conversation with one peer: every message sent to it or received
/// from it, oldest first.
#[derive(Debug)]
pub struct Chat {
    id: PeerId,
    messages: Vec<ChatMessage>,
}

pub struct ChatView {
    pub id: Seq<char>,
    pub messages: Seq<ChatMessageView>,
}

impl View for Chat {
    type V = ChatView;

    closed spec fn view(&self) -> ChatView {
        ChatView { id: self.id@, messages: messages_view(self.messages@) }
    }
}

impl Chat {
    /// An empty conversation with `id`.
    pub fn new(id: &PeerId) -> (chat: Self)
        ensures
            chat@ == (ChatView { id: id@, messages: Seq::empty() }),
    {
        let chat = Chat { id: id.clone(), messages: Vec::new() };
        assert(chat@.messages =~= Seq::empty());
        chat
    }

    /// Appends `message` to the conversation.
    pub fn add_message(&mut self, message: ChatMessage)
        ensures
            final(self)@ == (ChatView {
                id: old(self)@.id,
                messages: old(self)@.messages.push(message@),
            }),
    {
        self.messages.push(message);
        assert(messages_view(self.messages@) =~= messages_view(old(self).messages@).push(
            message@,
        ));
    }

    /// The peer's identity as text.
    pub fn id(&self) -> (text: String)
        ensures
            text@ == self@.id,
    {
        self.id.as_str().to_owned()
    }

    /// The messages, oldest first.
    pub fn messages(&self) -> (messages: &Vec<ChatMessage>)
        ensures
            messages_view(messages@) == self@.messages,
    {
        &self.messages
    }
}

/// The open conversations in the order of their tabs, with the tab that is
/// selected.
#[derive(Debug)]
pub struct ChatList {
    list: Vec<PeerId>,
    current_index: Option<usize>,
}

pub struct ChatListView {
    pub list: Seq<Seq<char>>,
    pub current_index: Option<nat>,
}

/// The index of the first occurrence of `id`, if it occurs.
pub open spec fn first_index(list: Seq<Seq<char>>, id: Seq<char>) -> Option<nat>
    decreases list.len(),
{
    if list.len() == 0 {
        None
    } else {
        match first_index(list.drop_last(), id) {
            Some(i) => Some(i),
            None => if list.last() == id {
                Some((list.len() - 1) as nat)
            } else {
                None
            },
        }
    }
}

impl ChatListView {
    /// A selected tab is one of the tabs.
    pub open spec fn wf(self) -> bool {
        self.current_index matches Some(i) ==> i < self.list.len()
    }

    /// The selected peer.
    pub open spec fn current(self) -> Option<Seq<char>> {
        match self.current_index {
            Some(i) => if i < self.list.len() {
                Some(self.list[i as int])
            } else {
                None
            },
            None => None,
        }
    }

    /// A new tab at the end, and selected.
    pub open spec fn add(self, id: Seq<char>) -> ChatListView {
        ChatListView { list: self.list.push(id), current_index: Some(self.list.len()) }
    }

    /// Without the first tab of `id`: the last tab takes its place. A
    /// selection at or behind that place moves one tab to the left, and is
    /// dropped where it was the first tab.
    pub open spec fn remove(self, id: Seq<char>) -> ChatListView {
        match first_index(self.list, id) {
            None => self,
            Some(index) => {
                let list = self.list.update(index as int, self.list.last()).drop_last();
                ChatListView {
                    list,
                    current_index: if list.len() == 0 {
                        None
                    } else {
                        match self.current_index {
                            Some(current) => if current >= index {
                                if current == 0 {
                                    None
                                } else {
                                    Some((current - 1) as nat)
                                }
                            } else {
                                Some(current)
                            },
                            None => None,
                        }
                    },
                }
            },
        }
    }

    /// The selection moved one tab to the right, from the last to the first.
    pub open spec fn next_chat(self) -> ChatListView {
        match self.current_index {
            Some(index) => ChatListView {
                list: self.list,
                current_index: if index + 1 == self.list.len() {
                    Some(0)
                } else {
                    Some(index + 1)
                },
            },
            None => self,
        }
    }

    /// The selection moved one tab to the left, from the first to the last.
    pub open spec fn prev_chat(self) -> ChatListView {
        match self.current_index {
            Some(index) => ChatListView {
                list: self.list,
                current_index: if index == 0 {
                    Some((self.list.len() - 1) as nat)
                } else {
                    Some((index - 1) as nat)
                },
            },
            None => self,
        }
    }
}

/// The identities as their views.
pub open spec fn ids_view(ids: Seq<PeerId>) -> Seq<Seq<char>> {
    ids.map_values(|id: PeerId| id@)
}

impl View for ChatList {
    type V = ChatListView;

    closed spec fn view(&self) -> ChatListView {
        ChatListView {
            list: ids_view(self.list@),
            current_index: match self.current_index {
                Some(i) => Some(i as nat),
                None => None,
            },
        }
    }
}

/// What `first_index` finds: the first place where `id` stands.
pub proof fn lemma_first_index(list: Seq<Seq<char>>, id: Seq<char>)
    ensures
        match first_index(list, id) {
            Some(i) => i < list.len() && list[i as int] == id && forall|j: int|
                0 <= j < i ==> list[j] != id,
            None => forall|j: int| 0 <= j < list.len() ==> list[j] != id,
        },
    decreases list.len(),
{
    if list.len() > 0 {
        let front = list.drop_last();
        lemma_first_index(front, id);
        assert(forall|j: int| 0 <= j < front.len() ==> front[j] == list[j]);
    }
}

impl ChatList {
    /// A selected tab is one of the tabs.
    #[verifier::type_invariant]
    pub open spec fn inv(self) -> bool {
        self@.wf()
    }

    pub fn new() -> (chats: Self)
        ensures
            chats@ == (ChatListView { list: Seq::empty(), current_index: None }),
            chats@.wf(),
    {
        let chats = ChatList { list: Vec::new(), current_index: None };
        assert(chats@.list =~= Seq::empty());
        chats
    }

    /// The peers in the order of their tabs.
    pub fn names(&self) -> (names: &Vec<PeerId>)
        ensures
            ids_view(names@) == self@.list,
            self@.wf(),
    {
        proof {
            use_type_invariant(self);
        }
        &self.list
    }

    /// Hands the tabs out and leaves an empty list.
    fn take_list(&mut self) -> (list: Vec<PeerId>)
        ensures
            ids_view(list@) == old(self)@.list,
            list@ == old(self).list@,
            final(self)@.list.len() == 0,
    {
        let mut list: Vec<PeerId> = Vec::new();
        self.current_index = None;
        core::mem::swap(&mut self.list, &mut list);
        list
    }

    /// Opens a tab for `id` behind the others and selects it.
    pub fn add(&mut self, id: &PeerId)
        ensures
            final(self)@ == old(self)@.add(id@),
            final(self)@.wf(),
    {
        let mut list = self.take_list();
        let ghost before = ids_view(list@);
        list.push(id.clone());
        assert(ids_view(list@) =~= before.push(id@));
        let index = list.len() - 1;
        *self = ChatList { list, current_index: Some(index) };
    }

    fn position(&self, id: &PeerId) -> (found: Option<usize>)
        ensures
            match found {
                Some(i) => first_index(self@.list, id@) == Some(i as nat) && i < self.list.len(),
                None => first_index(self@.list, id@) is None,
            },
    {
        let mut i: usize = 0;
        while i < self.list.len()
            invariant
                i <= self.list.len(),
                forall|j: int| 0 <= j < i ==> (#[trigger] self.list[j])@ != id@,
            decreases self.list.len() - i,
        {
            if self.list[i].same(id) {
                assert(ids_view(self.list@)[i as int] == id@);
                assert(forall|j: int| 0 <= j < i ==> ids_view(self.list@)[j] == self.list[j]@);
                proof {
                    lemma_first_index(self@.list, id@);
                }
                return Some(i);
            }
            i += 1;
        }
        assert(forall|j: int|
            0 <= j < self.list.len() ==> ids_view(self.list@)[j] == self.list[j]@);
        proof {
            lemma_first_index(self@.list, id@);
        }
        None
    }

    /// Closes the first tab of `id`, if it has one.
    pub fn remove(&mut self, id: &PeerId)
        ensures
            final(self)@ == old(self)@.remove(id@),
            final(self)@.wf(),
    {
        proof {
            use_type_invariant(&*self);
        }
        match self.position(id) {
            Some(index) => {
                let current_index = self.current_index;
                let mut list = self.take_list();
                let ghost before = ids_view(list@);
                list.swap_remove(index);
                assert(ids_view(list@) =~= before.update(index as int, before.last()).drop_last());
                let current_index = if list.is_empty() {
                    None
                } else {
                    match current_index {
                        Some(current) => {
                            if current >= index {
                                if current == 0 {
                                    None
                                } else {
                                    Some(current - 1)
                                }
                            } else {
                                Some(current)
                            }
                        },
                        None => None,
                    }
                };
                *self = ChatList { list, current_index };
            },
            None => {},
        }
    }

    /// The selected peer.
    pub fn current(&self) -> (id: Option<&PeerId>)
        ensures
            match id {
                Some(id) => self@.current() == Some(id@),
                None => self@.current() is None,
            },
            self@.wf(),
    {
        proof {
            use_type_invariant(self);
        }
        match self.current_index {
            Some(index) => {
                if index < self.list.len() {
                    assert(ids_view(self.list@)[index as int] == self.list[index as int]@);
                    Some(&self.list[index])
                } else {
                    None
                }
            },
            None => None,
        }
    }

    /// The index of the selected tab.
    pub fn current_index(&self) -> (index: Option<usize>)
        ensures
            match index {
                Some(i) => self@.current_index == Some(i as nat),
                None => self@.current_index is None,
            },
            self@.wf(),
    {
        proof {
            use_type_invariant(self);
        }
        self.current_index
    }

    /// Selects the tab to the right, or the first one from the last.
    pub fn next_chat(&mut self) -> (id: Option<&PeerId>)
        ensures
            final(self)@ == old(self)@.next_chat(),
            final(self)@.wf(),
            match id {
                Some(id) => final(self)@.current() == Some(id@),
                None => final(self)@.current() is None,
            },
    {
        proof {
            use_type_invariant(&*self);
        }
        match self.current_index {
            Some(index) => {
                if index == self.list.len() - 1 {
                    self.current_index = Some(0);
                } else {
                    self.current_index = Some(index + 1);
                }
            },
            None => {},
        }
        self.current()
    }

    /// Selects the tab to the left, or the last one from the first.
    pub fn prev_chat(&mut self) -> (id: Option<&PeerId>)
        ensures
            final(self)@ == old(self)@.prev_chat(),
            final(self)@.wf(),
            match id {
                Some(id) => final(self)@.current() == Some(id@),
                None => final(self)@.current() is None,
            },
    {
        proof {
            use_type_invariant(&*self);
        }
        match self.current_index {
            Some(index) => {
                if index == 0 {
                    self.current_index = Some(self.list.len() - 1);
                } else {
                    self.current_index = Some(index - 1);
                }
            },
            None => {},
        }
        self.current()
    }
}

impl Default for ChatList {
    fn default() -> (chats: Self)
        ensures
            chats@ == (ChatListView { list: Seq::empty(), current_index: None }),
            chats@.wf(),
    {
        ChatList::new()
    }
}

} // verus!
