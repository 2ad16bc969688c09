use crate::chat::{Chat, ChatList, ChatListView, ChatMessage, ChatMessageView, ChatView};
use crate::peer::PeerId;
use crate::peer_map::PeerMap;
use crate::theme::{message_id_colors, random_color, Color};
use vstd::prelude::*;

verus! {

/// A connection that a peer has asked for and the user has not yet answered,
/// with the answer that is selected at the moment.
#[derive(Debug)]
pub struct ConnectionContext {
    pub connection_address: PeerId,
    pub accept_selected: bool,
}

pub struct ConnectionContextView {
    pub connection_address: Seq<char>,
    pub accept_selected: bool,
}

impl View for ConnectionContext {
    type V = ConnectionContextView;

    open spec fn view(&self) -> ConnectionContextView {
        ConnectionContextView {
            connection_address: self.connection_address@,
            accept_selected: self.accept_selected,
        }
    }
}

impl ConnectionContext {
    /// The question whether to accept `address`, with "accept" selected.
    pub fn new(address: &PeerId) -> (context: Self)
        ensures
            context@ == (ConnectionContextView {
                connection_address: address@,
                accept_selected: true,
            }),
    {
        ConnectionContext { connection_address: address.clone(), accept_selected: true }
    }
}

/// Everything the interface shows and decides on.
pub struct AppContext {
    pub id: PeerId,
    pub onion_service_address: String,
    pub should_quit: bool,
    pub chat_list: ChatList,
    pub chats: PeerMap<Chat>,
    pub show_command_popup: bool,
    pub system_messages_scroll: usize,
    pub cursor_location: Option<(u16, u16)>,
    pub show_welcome_popup: bool,
    pub connection_context: Option<ConnectionContext>,
    pub message_colors: PeerMap<Color>,
}

pub struct AppContextView {
    pub id: Seq<char>,
    pub onion_service_address: Seq<char>,
    pub should_quit: bool,
    pub chat_list: ChatListView,
    pub chats: Map<Seq<char>, ChatView>,
    pub show_command_popup: bool,
    pub system_messages_scroll: nat,
    pub cursor_location: Option<(u16, u16)>,
    pub show_welcome_popup: bool,
    pub connection_context: Option<ConnectionContextView>,
    pub message_colors: Map<Seq<char>, Color>,
}

impl AppContextView {
    /// The state at the start: no conversation, no window open, nothing
    /// asked.
    pub open spec fn initial(id: Seq<char>, onion_service_address: Seq<char>) -> AppContextView {
        AppContextView {
            id,
            onion_service_address,
            should_quit: false,
            chat_list: ChatListView { list: Seq::empty(), current_index: None },
            chats: Map::empty(),
            show_command_popup: false,
            system_messages_scroll: 0,
            cursor_location: None,
            show_welcome_popup: false,
            connection_context: None,
            message_colors: Map::empty(),
        }
    }

    /// What holds of the state between any two steps: the two popups are
    /// never shown together, and the peers with a colour are those with a
    /// conversation.
    pub open spec fn inv(self) -> bool {
        &&& !(self.show_command_popup && self.show_welcome_popup)
        &&& self.message_colors.dom() == self.chats.dom()
        &&& self.chat_list.wf()
    }

    /// The command window shown if it was hidden, hidden if it was shown.
    /// Showing it hides the welcome window.
    pub open spec fn toggle_command_popup(self) -> AppContextView {
        AppContextView {
            show_command_popup: !self.show_command_popup,
            show_welcome_popup: self.show_command_popup && self.show_welcome_popup,
            ..self
        }
    }

    /// The welcome window shown if it was hidden, hidden if it was shown.
    /// Showing it hides the command window.
    pub open spec fn toggle_welcome_popup(self) -> AppContextView {
        AppContextView {
            show_welcome_popup: !self.show_welcome_popup,
            show_command_popup: self.show_welcome_popup && self.show_command_popup,
            ..self
        }
    }

    /// With a fresh conversation with `id`, in a new tab that is selected,
    /// shown in `color`.
    pub open spec fn add_new_chat(self, id: Seq<char>, color: Color) -> AppContextView {
        AppContextView {
            chat_list: self.chat_list.add(id),
            chats: self.chats.insert(id, ChatView { id, messages: Seq::empty() }),
            message_colors: self.message_colors.insert(id, color),
            ..self
        }
    }

    /// Without the conversation with `id`, its first tab and its colour.
    pub open spec fn remove_chat(self, id: Seq<char>) -> AppContextView {
        AppContextView {
            chat_list: self.chat_list.remove(id),
            chats: self.chats.remove(id),
            message_colors: self.message_colors.remove(id),
            ..self
        }
    }

    /// With `message` at the end of the conversation with `peer`, where
    /// there is one.
    pub open spec fn add_message(self, peer: Seq<char>, message: ChatMessageView) -> AppContextView {
        if self.chats.contains_key(peer) {
            AppContextView {
                chats: self.chats.insert(
                    peer,
                    ChatView {
                        id: self.chats[peer].id,
                        messages: self.chats[peer].messages.push(message),
                    },
                ),
                ..self
            }
        } else {
            self
        }
    }
}

impl View for AppContext {
    type V = AppContextView;

    open spec fn view(&self) -> AppContextView {
        AppContextView {
            id: self.id@,
            onion_service_address: self.onion_service_address@,
            should_quit: self.should_quit,
            chat_list: self.chat_list@,
            chats: self.chats@,
            show_command_popup: self.show_command_popup,
            system_messages_scroll: self.system_messages_scroll as nat,
            cursor_location: self.cursor_location,
            show_welcome_popup: self.show_welcome_popup,
            connection_context: match self.connection_context {
                Some(context) => Some(context@),
                None => None,
            },
            message_colors: self.message_colors@,
        }
    }
}

impl AppContext {
    /// The state at the start: no conversation, no window open, nothing
    /// asked.
    pub fn new(id: PeerId, onion_service_address: String) -> (context: Self)
        ensures
            context@.inv(),
            context@ == AppContextView::initial(id@, onion_service_address@),
    {
        AppContext {
            id,
            onion_service_address,
            should_quit: false,
            chat_list: ChatList::new(),
            chats: PeerMap::new(),
            show_command_popup: false,
            system_messages_scroll: 0,
            cursor_location: None,
            show_welcome_popup: false,
            connection_context: None,
            message_colors: PeerMap::new(),
        }
    }

    /// Shows the command window if it was hidden, and then hides the welcome
    /// window; hides the command window if it was shown.
    pub fn toggle_command_popup(&mut self)
        ensures
            final(self)@ == old(self)@.toggle_command_popup(),
            final(self)@.show_command_popup ==> !final(self)@.show_welcome_popup,
            !final(self)@.show_command_popup ==> final(self)@.show_welcome_popup == old(
                self,
            )@.show_welcome_popup,
    {
        self.show_command_popup = !self.show_command_popup;
        if self.show_command_popup {
            self.show_welcome_popup = false;
        }
    }

    /// Shows the welcome window if it was hidden, and then hides the command
    /// window; hides the welcome window if it was shown.
    pub fn toggle_welcome_popup(&mut self)
        ensures
            final(self)@ == old(self)@.toggle_welcome_popup(),
            final(self)@.show_welcome_popup ==> !final(self)@.show_command_popup,
            !final(self)@.show_welcome_popup ==> final(self)@.show_command_popup == old(
                self,
            )@.show_command_popup,
    {
        self.show_welcome_popup = !self.show_welcome_popup;
        if self.show_welcome_popup {
            self.show_command_popup = false;
        }
    }

    /// Starts a conversation with `id`: a new tab, selected; an empty
    /// history; and a colour picked at random.
    pub fn add_new_chat(&mut self, id: &PeerId)
        ensures
            final(self)@.message_colors.contains_key(id@),
            message_id_colors().contains(final(self)@.message_colors[id@]),
            final(self)@ == old(self)@.add_new_chat(id@, final(self)@.message_colors[id@]),
            old(self)@.inv() ==> final(self)@.inv(),
    {
        self.chat_list.add(id);
        self.chats.insert(id.clone(), Chat::new(id));
        self.add_id(id.clone());
        assert(final(self)@.message_colors =~= old(self)@.message_colors.insert(
            id@,
            final(self)@.message_colors[id@],
        ));
    }

    /// Gives `id` the colour `color`.
    pub fn set_color(&mut self, id: PeerId, color: Color)
        ensures
            final(self)@ == (AppContextView {
                message_colors: old(self)@.message_colors.insert(id@, color),
                ..old(self)@
            }),
    {
        self.message_colors.insert(id, color);
    }

    /// Gives `id` a colour picked at random.
    pub fn add_id(&mut self, id: PeerId)
        ensures
            final(self)@.message_colors.contains_key(id@),
            message_id_colors().contains(final(self)@.message_colors[id@]),
            final(self)@ == (AppContextView {
                message_colors: old(self)@.message_colors.insert(
                    id@,
                    final(self)@.message_colors[id@],
                ),
                ..old(self)@
            }),
    {
        let color = random_color();
        self.set_color(id, color);
    }

    /// The colour of `id`, if it has one.
    pub fn get_color(&self, id: &PeerId) -> (color: Option<&Color>)
        ensures
            match color {
                Some(c) => self@.message_colors.contains_key(id@) && self@.message_colors[id@]
                    == *c,
                None => !self@.message_colors.contains_key(id@),
            },
    {
        self.message_colors.get(id)
    }

    /// Takes the colour of `id` away.
    pub fn remove_id(&mut self, id: &PeerId)
        ensures
            final(self)@ == (AppContextView {
                message_colors: old(self)@.message_colors.remove(id@),
                ..old(self)@
            }),
    {
        self.message_colors.remove(id);
    }

    /// Ends the conversation with `id`: its first tab, its history and its
    /// colour go. Without such a conversation nothing changes but a stale
    /// tab or colour of `id`.
    pub fn remove_chat(&mut self, id: &PeerId)
        ensures
            final(self)@ == old(self)@.remove_chat(id@),
            old(self)@.inv() ==> final(self)@.inv(),
    {
        self.chat_list.remove(id);
        self.chats.remove(id);
        self.remove_id(id);
    }

    /// Appends `message` to the conversation with `peer`. Without such a
    /// conversation the message is dropped.
    pub fn add_message(&mut self, peer: &PeerId, message: ChatMessage) -> (kept: bool)
        ensures
            final(self)@ == old(self)@.add_message(peer@, message@),
            kept == old(self)@.chats.contains_key(peer@),
            old(self)@.inv() ==> final(self)@.inv(),
    {
        match self.chats.remove(peer) {
            Some(chat) => {
                let mut chat = chat;
                chat.add_message(message);
                self.chats.insert(peer.clone(), chat);
                assert(self.chats@ =~= old(self)@.chats.insert(
                    peer@,
                    ChatView {
                        id: old(self)@.chats[peer@].id,
                        messages: old(self)@.chats[peer@].messages.push(message@),
                    },
                ));
                assert(self.chats@.dom() =~= old(self)@.chats.dom());
                true
            },
            None => {
                assert(self.chats@ =~= old(self)@.chats);
                false
            },
        }
    }
}

/// Starting, ending and extending a conversation keep what holds of the
/// state between two steps.
pub proof fn lemma_chats_keep_invariant(
    context: AppContextView,
    id: Seq<char>,
    color: Color,
    message: ChatMessageView,
)
    requires
        context.inv(),
    ensures
        context.add_new_chat(id, color).inv(),
        context.remove_chat(id).inv(),
        context.add_message(id, message).inv(),
{
    let chat = ChatView { id, messages: Seq::empty() };
    assert(context.message_colors.insert(id, color).dom() =~= context.chats.insert(id, chat).dom());
    assert(context.message_colors.remove(id).dom() =~= context.chats.remove(id).dom());
    crate::chat::lemma_first_index(context.chat_list.list, id);
    if context.chats.contains_key(id) {
        assert(context.add_message(id, message).chats.dom() =~= context.chats.dom());
    }
}

/// Showing one popup hides the other; hiding one leaves the other as it was.
pub proof fn lemma_popups_exclude(context: AppContextView)
    ensures
        !context.show_command_popup ==> context.toggle_command_popup().show_command_popup
            && !context.toggle_command_popup().show_welcome_popup,
        !context.show_welcome_popup ==> context.toggle_welcome_popup().show_welcome_popup
            && !context.toggle_welcome_popup().show_command_popup,
        context.show_command_popup ==> !context.toggle_command_popup().show_command_popup
            && context.toggle_command_popup().show_welcome_popup == context.show_welcome_popup,
        context.show_welcome_popup ==> !context.toggle_welcome_popup().show_welcome_popup
            && context.toggle_welcome_popup().show_command_popup == context.show_command_popup,
        !(context.toggle_command_popup().show_command_popup
            && context.toggle_command_popup().show_welcome_popup),
        !(context.toggle_welcome_popup().show_command_popup
            && context.toggle_welcome_popup().show_welcome_popup),
{
}

} // verus!
