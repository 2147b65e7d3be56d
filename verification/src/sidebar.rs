//! The chat sidebar: which chats and users it lists while searching and
//! while not, in which order, and what selecting an entry leads to.
use vstd::prelude::*;
use vstd::string::*;
use crate::telegram::{
    find_chat, get_chat, lemma_find_chat_finds_the_id, lemma_find_chat_gives_first_entry,
    private_user_id, ChatEntry, ChatType,
};

verus! {

/// An entry of the sidebar's list: a chat of the session's chat list, a user
/// of its user list, or anything else.
#[derive(PartialEq, Eq, Structural, Clone, Copy, Debug)]
pub enum SidebarItem {
    Chat(ChatEntry),
    User { id: i64 },
    Other,
}

/// A chat of a session: the session's client id and the chat's id. Chat ids
/// are told apart within one session only.
#[derive(PartialEq, Eq, Structural, Clone, Copy, Debug)]
pub struct ChatKey {
    pub client_id: i32,
    pub chat_id: i64,
}

/// How two entries of the list compare: whether the first goes before
/// (`Smaller`), with (`Equal`) or after (`Larger`) the second.
#[derive(PartialEq, Eq, Structural, Clone, Copy, Debug)]
pub enum ListOrder {
    Smaller,
    Equal,
    Larger,
}

/// The order of the sidebar's list: chats first, by decreasing `order`,
/// then everything else, unordered among itself.
pub open spec fn item_order(a: SidebarItem, b: SidebarItem) -> ListOrder {
    match (a, b) {
        (SidebarItem::Chat(x), SidebarItem::Chat(y)) => if y.order < x.order {
            ListOrder::Smaller
        } else if y.order == x.order {
            ListOrder::Equal
        } else {
            ListOrder::Larger
        },
        (SidebarItem::Chat(_), _) => ListOrder::Smaller,
        (_, SidebarItem::Chat(_)) => ListOrder::Larger,
        _ => ListOrder::Equal,
    }
}

/// The opposite comparison.
pub open spec fn reversed(o: ListOrder) -> ListOrder {
    match o {
        ListOrder::Smaller => ListOrder::Larger,
        ListOrder::Equal => ListOrder::Equal,
        ListOrder::Larger => ListOrder::Smaller,
    }
}

/// What a search asks for.
#[derive(PartialEq, Eq, Clone, Debug)]
pub enum SearchStep {
    /// Filter the list again.
    Refilter,
    /// Nothing: there is no list to filter.
    Idle,
    /// Send the searches for chats and for contacts with `query`, each for
    /// at most `limit` results, to the client `client_id`.
    Request { client_id: i32, query: String, limit: i32 },
}

/// What setting the selected chat leads to.
#[derive(PartialEq, Eq, Structural, Clone, Copy, Debug)]
pub enum SelectionUpdate {
    /// Nothing: that chat was selected already.
    Unchanged,
    /// The selected chat changed, and this is announced; where no chat is
    /// selected any more, the list's selection is cleared (`unselect_row`).
    Changed { unselect_row: bool },
}

/// What selecting an entry of the list leads to.
#[derive(PartialEq, Eq, Structural, Clone, Copy, Debug)]
pub enum ItemSelected {
    /// The selected chat was set, with this outcome.
    Chat(SelectionUpdate),
    /// A private chat with the user `user_id` is to be created by the client
    /// `client_id`, and then selected.
    CreatePrivateChat { client_id: i32, user_id: i64 },
}

/// What a change in the positions of the session's chats leads to.
#[derive(PartialEq, Eq, Structural, Clone, Copy, Debug)]
pub enum ListRefresh {
    /// Nothing: there is no list.
    Nothing,
    /// Filter the list again and sort it again, for the chats' new orders.
    RefilterAndResort,
}

/// What setting the session leads to.
#[derive(PartialEq, Eq, Structural, Clone, Copy, Debug)]
pub enum SessionUpdate {
    /// Nothing: that session was set already.
    Unchanged,
    /// The session changed, and this is announced; for a session (not for
    /// none) the list, its filter, order and selection are made anew
    /// (`install_models`).
    Replaced { install_models: bool },
}

/// The sidebar's state. Sessions are told apart by their client id, chats
/// by their session's client id and their id (`ChatKey`).
pub struct Sidebar {
    compact: bool,
    search_mode: bool,
    selected_chat: Option<ChatKey>,
    session: Option<i32>,
    list_session: Option<i32>,
    searched_chats: Vec<i64>,
    searched_users: Vec<i64>,
    already_searched_users: Vec<i64>,
}

/// The view of the sidebar.
pub struct SidebarView {
    /// Whether the compact layout is used.
    pub compact: bool,
    /// Whether the search bar is shown.
    pub search_mode: bool,
    pub selected_chat: Option<ChatKey>,
    /// The client id of the session.
    pub session: Option<i32>,
    /// The client id of the session that the list with its filter, order
    /// and selection was last made for; none before the first session.
    pub list_session: Option<i32>,
    /// The chats that the current search found.
    pub searched_chats: Seq<i64>,
    /// The users that the current search found among the contacts.
    pub searched_users: Seq<i64>,
    /// The users that the current search found as the other side of a
    /// private chat that it found.
    pub already_searched_users: Seq<i64>,
}

impl View for Sidebar {
    type V = SidebarView;

    closed spec fn view(&self) -> SidebarView {
        SidebarView {
            compact: self.compact,
            search_mode: self.search_mode,
            selected_chat: self.selected_chat,
            session: self.session,
            list_session: self.list_session,
            searched_chats: self.searched_chats@,
            searched_users: self.searched_users@,
            already_searched_users: self.already_searched_users@,
        }
    }
}

/// The sidebar's invariant: a set session has its list, made for it.
pub open spec fn well_formed(v: SidebarView) -> bool {
    v.session matches Some(c) ==> v.list_session == Some(c)
}

/// Whether the list with its filter, order and selection exists.
pub open spec fn has_list(v: SidebarView) -> bool {
    v.list_session is Some
}

/// Whether the list shows `item`: while searching (`searching`, the search
/// entry is not empty), the chats that the search found and the users that
/// it found among the contacts but not already as a found private chat;
/// otherwise the chats that are in the main chat list (`order > 0`).
pub open spec fn item_shown(v: SidebarView, searching: bool, item: SidebarItem) -> bool {
    if searching {
        match item {
            SidebarItem::Chat(c) => v.searched_chats.contains(c.id),
            SidebarItem::User { id } => !v.already_searched_users.contains(id)
                && v.searched_users.contains(id),
            SidebarItem::Other => false,
        }
    } else {
        match item {
            SidebarItem::Chat(c) => c.order > 0,
            _ => false,
        }
    }
}

/// The sidebar as a new search leaves it: with no search result.
pub open spec fn search_started(v: SidebarView) -> SidebarView {
    SidebarView {
        searched_chats: Seq::empty(),
        searched_users: Seq::empty(),
        already_searched_users: Seq::empty(),
        ..v
    }
}

/// Whether `step` is what a search for `query` asks for.
pub open spec fn is_search_step(v: SidebarView, query: Seq<char>, step: SearchStep) -> bool {
    if query.len() == 0 {
        if has_list(v) {
            step == SearchStep::Refilter
        } else {
            step == SearchStep::Idle
        }
    } else {
        step matches SearchStep::Request { client_id, query: q, limit } && client_id == v.session->0
            && q@ == query && limit == 100
    }
}

/// The user that the chat `id` of `chats` is the private chat with, if any.
pub open spec fn chat_partner(chats: Seq<ChatEntry>, id: i64) -> Option<i64> {
    match find_chat(chats, id) {
        Some(c) => private_user_id(c.chat_type),
        None => None,
    }
}

/// `chat_partner` as a function of the chat id.
pub open spec fn chat_partner_fn(chats: Seq<ChatEntry>) -> spec_fn(i64) -> Option<i64> {
    |id: i64| chat_partner(chats, id)
}

/// The users that the chats `ids` of `chats` are the private chats with, in
/// the order of `ids`.
pub open spec fn chat_partners(ids: Seq<i64>, chats: Seq<ChatEntry>) -> Seq<i64> {
    ids.filter_map(chat_partner_fn(chats))
}

/// The sidebar after the chat search found `ids`, looked up in `chats`.
/// Results that come while there is no list are dropped.
pub open spec fn chats_found(v: SidebarView, ids: Seq<i64>, chats: Seq<ChatEntry>) -> SidebarView {
    if has_list(v) {
        SidebarView {
            already_searched_users: v.already_searched_users + chat_partners(ids, chats),
            searched_chats: v.searched_chats + ids,
            ..v
        }
    } else {
        v
    }
}

/// The sidebar after the contact search found `ids`. Results that come
/// while there is no list are dropped.
pub open spec fn contacts_found(v: SidebarView, ids: Seq<i64>) -> SidebarView {
    if has_list(v) {
        SidebarView { searched_users: v.searched_users + ids, ..v }
    } else {
        v
    }
}

/// The chat `chat_id` of the session that the list was made for.
pub open spec fn list_chat(v: SidebarView, chat_id: i64) -> ChatKey {
    ChatKey { client_id: v.list_session->0, chat_id }
}

/// What setting the selected chat from `current` to `chat` leads to.
pub open spec fn selection_update(current: Option<ChatKey>, chat: Option<ChatKey>) -> SelectionUpdate {
    if current == chat {
        SelectionUpdate::Unchanged
    } else {
        SelectionUpdate::Changed { unselect_row: chat is None }
    }
}

/// Whether setting the selected chat to `chat` can go ahead: clearing the
/// selection needs the list.
pub open spec fn can_select(v: SidebarView, chat: Option<ChatKey>) -> bool {
    chat is None && v.selected_chat != chat ==> has_list(v)
}

/// The chat that a chat id of `chats` stands for, by its id.
pub open spec fn chat_key_in(client_id: i32, chats: Seq<ChatEntry>, id: i64) -> Option<ChatKey> {
    match find_chat(chats, id) {
        Some(c) => Some(ChatKey { client_id, chat_id: c.id }),
        None => None,
    }
}

/// Whether `ids` holds `id`.
fn holds_id(ids: &Vec<i64>, id: i64) -> (r: bool)
    ensures
        r == ids@.contains(id),
{
    let n = ids.len();
    let mut i: usize = 0;
    while i < n
        invariant
            n == ids@.len(),
            i <= n,
            forall|j: int| 0 <= j < i ==> ids@[j] != id,
        decreases n - i,
    {
        if ids[i] == id {
            assert(ids@[i as int] == id);
            return true;
        }
        i = i + 1;
    }
    false
}

/// Appends `more` to `ids`.
fn push_all(ids: &mut Vec<i64>, more: &Vec<i64>)
    ensures
        final(ids)@ == old(ids)@ + more@,
{
    let n = more.len();
    let mut i: usize = 0;
    while i < n
        invariant
            n == more@.len(),
            i <= n,
            ids@ == old(ids)@ + more@.take(i as int),
        decreases n - i,
    {
        ids.push(more[i]);
        i = i + 1;
        assert(more@.take(i as int) =~= more@.take(i - 1).push(more@[i - 1]));
        assert(ids@ =~= old(ids)@ + more@.take(i as int));
    }
    assert(more@.take(n as int) =~= more@);
}

impl Sidebar {
    /// A sidebar with no session, no selection and no search.
    pub fn new() -> (r: Self)
        ensures
            well_formed(r@),
            r@ == (SidebarView {
                compact: false,
                search_mode: false,
                selected_chat: None,
                session: None,
                list_session: None,
                searched_chats: Seq::empty(),
                searched_users: Seq::empty(),
                already_searched_users: Seq::empty(),
            }),
    {
        Sidebar {
            compact: false,
            search_mode: false,
            selected_chat: None,
            session: None,
            list_session: None,
            searched_chats: Vec::new(),
            searched_users: Vec::new(),
            already_searched_users: Vec::new(),
        }
    }

    /// Whether the compact layout is used.
    pub fn compact(&self) -> (r: bool)
        ensures
            r == self@.compact,
    {
        self.compact
    }

    /// Sets whether the compact layout is used.
    pub fn set_compact(&mut self, compact: bool)
        ensures
            well_formed(old(self)@) ==> well_formed(final(self)@),
            final(self)@ == (SidebarView { compact, ..old(self)@ }),
    {
        self.compact = compact;
    }

    /// Whether the search bar is shown.
    pub fn search_mode(&self) -> (r: bool)
        ensures
            r == self@.search_mode,
    {
        self.search_mode
    }

    /// Shows the search bar (whose entry then takes the focus).
    pub fn begin_chats_search(&mut self)
        ensures
            well_formed(old(self)@) ==> well_formed(final(self)@),
            final(self)@ == (SidebarView { search_mode: true, ..old(self)@ }),
    {
        self.search_mode = true;
    }

    /// Follows the search bar: whether it is shown (`search_mode`), as the
    /// bar itself changed it.
    pub fn set_search_mode(&mut self, search_mode: bool)
        ensures
            well_formed(old(self)@) ==> well_formed(final(self)@),
            final(self)@ == (SidebarView { search_mode, ..old(self)@ }),
    {
        self.search_mode = search_mode;
    }

    /// The client id of the session, if one is set.
    pub fn session(&self) -> (r: Option<i32>)
        ensures
            r == self@.session,
    {
        self.session
    }

    /// The selected chat, if any.
    pub fn selected_chat(&self) -> (r: Option<ChatKey>)
        ensures
            r == self@.selected_chat,
    {
        self.selected_chat
    }

    /// Starts a search for `query`: forgets the results of any search
    /// before; an empty query only filters the list again (where there is
    /// one); any other asks for chats and contacts matching it, at most 100
    /// of each, from the session's client. A query without a session is
    /// refused (there is no client to ask).
    pub fn search(&mut self, query: &str) -> (r: SearchStep)
        requires
            query@.len() > 0 ==> old(self)@.session is Some,
        ensures
            well_formed(old(self)@) ==> well_formed(final(self)@),
            final(self)@ == search_started(old(self)@),
            is_search_step(old(self)@, query@, r),
            query@.len() == 0 && has_list(old(self)@) ==> r == SearchStep::Refilter,
            query@.len() == 0 && !has_list(old(self)@) ==> r == SearchStep::Idle,
    {
        self.searched_chats = Vec::new();
        self.searched_users = Vec::new();
        self.already_searched_users = Vec::new();
        if query.is_empty() {
            if self.list_session.is_some() {
                SearchStep::Refilter
            } else {
                SearchStep::Idle
            }
        } else {
            let client_id = match self.session {
                Some(c) => c,
                None => {
                    assert(false);
                    0
                },
            };
            SearchStep::Request { client_id, query: String::from_str(query), limit: 100 }
        }
    }

    /// Takes in the chats `chat_ids` that the chat search found, looked up
    /// in the session's chat list `chats`: they are listed, and the users of
    /// those that are private chats are kept from being listed a second
    /// time as contacts. Tells whether the list is to be filtered again;
    /// without a list the results are dropped.
    pub fn on_chats_found(&mut self, chat_ids: &Vec<i64>, chats: &Vec<ChatEntry>) -> (r: bool)
        ensures
            well_formed(old(self)@) ==> well_formed(final(self)@),
            final(self)@ == chats_found(old(self)@, chat_ids@, chats@),
            r == has_list(old(self)@),
            forall|k: int, user_id: i64|
                #![trigger chat_ids@[k], final(self)@.already_searched_users.contains(user_id)]
                has_list(old(self)@) && 0 <= k < chat_ids@.len() && (find_chat(chats@, chat_ids@[k]) matches Some(c)
                    && c.chat_type == (ChatType::Private { user_id }))
                    ==> final(self)@.already_searched_users.contains(user_id),
    {
        if self.list_session.is_none() {
            return false;
        }
        let n = chat_ids.len();
        let ghost before = self@;
        let ghost start = self.already_searched_users@;
        let ghost f = chat_partner_fn(chats@);
        let mut i: usize = 0;
        while i < n
            invariant
                n == chat_ids@.len(),
                i <= n,
                f == chat_partner_fn(chats@),
                self@ == (SidebarView { already_searched_users: self.already_searched_users@, ..before }),
                self.already_searched_users@ == start + chat_ids@.take(i as int).filter_map(f),
            decreases n - i,
        {
            let id = chat_ids[i];
            proof {
                chat_ids@.lemma_filter_map_take_succ(f, i as int);
            }
            match get_chat(chats, id) {
                Some(chat) => match chat.chat_type {
                    ChatType::Private { user_id } => {
                        self.already_searched_users.push(user_id);
                    },
                    _ => {},
                },
                None => {},
            }
            i = i + 1;
            assert(self.already_searched_users@ =~= start + chat_ids@.take(i as int).filter_map(f));
        }
        assert(chat_ids@.take(n as int) =~= chat_ids@);
        push_all(&mut self.searched_chats, chat_ids);
        proof {
            assert forall|k: int, user_id: i64|
                #![trigger chat_ids@[k], self@.already_searched_users.contains(user_id)]
                0 <= k < chat_ids@.len() && (find_chat(chats@, chat_ids@[k]) matches Some(c)
                    && c.chat_type == (ChatType::Private { user_id })) implies self@.already_searched_users.contains(
                user_id,
            ) by {
                lemma_partner_is_collected(chat_ids@, chats@, k, user_id);
                let ps = chat_partners(chat_ids@, chats@);
                let m = choose|m: int| 0 <= m < ps.len() && ps[m] == user_id;
                assert((start + ps)[start.len() + m] == user_id);
            }
        }
        true
    }

    /// Takes in the users `user_ids` that the contact search found. Tells
    /// whether the list is to be filtered again; without a list the results
    /// are dropped.
    pub fn on_contacts_found(&mut self, user_ids: &Vec<i64>) -> (r: bool)
        ensures
            well_formed(old(self)@) ==> well_formed(final(self)@),
            final(self)@ == contacts_found(old(self)@, user_ids@),
            r == has_list(old(self)@),
    {
        if self.list_session.is_none() {
            return false;
        }
        push_all(&mut self.searched_users, user_ids);
        true
    }

    /// Whether the list shows `item`, where `searching` tells whether the
    /// search entry holds any text.
    pub fn shows_item(&self, searching: bool, item: &SidebarItem) -> (r: bool)
        ensures
            r == item_shown(self@, searching, *item),
    {
        if searching {
            match item {
                SidebarItem::Chat(chat) => holds_id(&self.searched_chats, chat.id),
                SidebarItem::User { id } => !holds_id(&self.already_searched_users, *id)
                    && holds_id(&self.searched_users, *id),
                SidebarItem::Other => false,
            }
        } else {
            match item {
                SidebarItem::Chat(chat) => chat.order > 0,
                _ => false,
            }
        }
    }

    /// How two entries of the list compare.
    pub fn compare_items(a: &SidebarItem, b: &SidebarItem) -> (r: ListOrder)
        ensures
            r == item_order(*a, *b),
    {
        match (a, b) {
            (SidebarItem::Chat(x), SidebarItem::Chat(y)) => {
                if y.order < x.order {
                    ListOrder::Smaller
                } else if y.order == x.order {
                    ListOrder::Equal
                } else {
                    ListOrder::Larger
                }
            },
            (SidebarItem::Chat(_), _) => ListOrder::Smaller,
            (_, SidebarItem::Chat(_)) => ListOrder::Larger,
            _ => ListOrder::Equal,
        }
    }

    /// Sets the selected chat. Clearing the selection is refused where there
    /// is no list yet (there is no selection to clear).
    pub fn set_selected_chat(&mut self, chat: Option<ChatKey>) -> (r: SelectionUpdate)
        requires
            can_select(old(self)@, chat),
        ensures
            well_formed(old(self)@) ==> well_formed(final(self)@),
            r == selection_update(old(self)@.selected_chat, chat),
            old(self)@.selected_chat != chat ==> r == (SelectionUpdate::Changed {
                unselect_row: chat is None,
            }),
            old(self)@.selected_chat == chat ==> r == SelectionUpdate::Unchanged,
            final(self)@ == (SidebarView { selected_chat: chat, ..old(self)@ }),
    {
        if self.selected_chat == chat {
            return SelectionUpdate::Unchanged;
        }
        let unselect_row = chat.is_none();
        self.selected_chat = chat;
        SelectionUpdate::Changed { unselect_row }
    }

    /// The client id of the session that the list was made for.
    fn list_client_id(&self) -> (r: i32)
        requires
            has_list(self@),
        ensures
            r == self@.list_session->0,
    {
        match self.list_session {
            Some(c) => c,
            None => {
                assert(false);
                0
            },
        }
    }

    /// Handles a change of the list's selection to `item` (`None`: nothing
    /// selected): a chat becomes the selected chat, a user leads to the
    /// creation of a private chat with them by the client of the session
    /// that the list was made for, no selection clears the selected chat.
    /// Any other kind of entry is refused (the list holds only chats and
    /// users), and so is a user without a list (only the list selects).
    pub fn on_item_selected(&mut self, item: Option<SidebarItem>) -> (r: ItemSelected)
        requires
            !(item matches Some(SidebarItem::Other)),
            item matches Some(SidebarItem::User { .. }) ==> has_list(old(self)@),
            item is Some ==> has_list(old(self)@),
            item is None ==> can_select(old(self)@, None),
        ensures
            well_formed(old(self)@) ==> well_formed(final(self)@),
            match item {
                Some(SidebarItem::Chat(c)) => {
                    &&& r == ItemSelected::Chat(
                        selection_update(old(self)@.selected_chat, Some(list_chat(old(self)@, c.id))),
                    )
                    &&& final(self)@ == (SidebarView {
                        selected_chat: Some(list_chat(old(self)@, c.id)),
                        ..old(self)@
                    })
                },
                Some(SidebarItem::User { id }) => {
                    &&& r == ItemSelected::CreatePrivateChat {
                        client_id: old(self)@.list_session->0,
                        user_id: id,
                    }
                    &&& final(self)@ == old(self)@
                },
                _ => {
                    &&& r == ItemSelected::Chat(selection_update(old(self)@.selected_chat, None))
                    &&& final(self)@ == (SidebarView { selected_chat: None, ..old(self)@ })
                },
            },
    {
        match item {
            Some(SidebarItem::Chat(chat)) => {
                let client_id = self.list_client_id();
                ItemSelected::Chat(self.set_selected_chat(Some(ChatKey { client_id, chat_id: chat.id })))
            },
            Some(SidebarItem::User { id }) => {
                let client_id = self.list_client_id();
                ItemSelected::CreatePrivateChat { client_id, user_id: id }
            },
            Some(SidebarItem::Other) => {
                assert(false);
                ItemSelected::Chat(SelectionUpdate::Unchanged)
            },
            None => ItemSelected::Chat(self.set_selected_chat(None)),
        }
    }

    /// Selects the private chat `chat_id` that was created for a selected
    /// user, as the session's chat list `chats` has it: where the list does
    /// not hold it, no chat is selected.
    pub fn on_private_chat_created(&mut self, chat_id: i64, chats: &Vec<ChatEntry>) -> (r:
        SelectionUpdate)
        requires
            has_list(old(self)@),
            can_select(old(self)@, chat_key_in(old(self)@.list_session->0, chats@, chat_id)),
        ensures
            well_formed(old(self)@) ==> well_formed(final(self)@),
            r == selection_update(
                old(self)@.selected_chat,
                chat_key_in(old(self)@.list_session->0, chats@, chat_id),
            ),
            final(self)@ == (SidebarView {
                selected_chat: chat_key_in(old(self)@.list_session->0, chats@, chat_id),
                ..old(self)@
            }),
            (exists|j: int| 0 <= j < chats@.len() && (#[trigger] chats@[j]).id == chat_id)
                ==> final(self)@.selected_chat == Some(
                ChatKey { client_id: old(self)@.list_session->0, chat_id },
            ),
            !(exists|j: int| 0 <= j < chats@.len() && (#[trigger] chats@[j]).id == chat_id)
                ==> final(self)@.selected_chat is None,
    {
        proof {
            lemma_find_chat_finds_the_id(chats@, chat_id);
        }
        let client_id = self.list_client_id();
        let chat = match get_chat(chats, chat_id) {
            Some(c) => Some(ChatKey { client_id, chat_id: c.id }),
            None => None,
        };
        self.set_selected_chat(chat)
    }

    /// Handles a change in the positions (orders) of the chats of the
    /// session's chat list: where there is a list, it is filtered and
    /// sorted again, so that it shows the chats that `item_shown` admits for
    /// their new orders, in the order of `item_order`.
    pub fn on_chat_positions_changed(&self) -> (r: ListRefresh)
        ensures
            r == (if has_list(self@) {
                ListRefresh::RefilterAndResort
            } else {
                ListRefresh::Nothing
            }),
    {
        if self.list_session.is_some() {
            ListRefresh::RefilterAndResort
        } else {
            ListRefresh::Nothing
        }
    }

    /// Sets the session, by its client id (`None`: no session). A session
    /// makes the list anew.
    pub fn set_session(&mut self, session: Option<i32>) -> (r: SessionUpdate)
        ensures
            well_formed(old(self)@) ==> well_formed(final(self)@),
            old(self)@.session == session ==> r == SessionUpdate::Unchanged && final(self)@ == old(
                self,
            )@,
            old(self)@.session != session ==> r == (SessionUpdate::Replaced {
                install_models: session is Some,
            }) && final(self)@ == (SidebarView {
                session,
                list_session: if session is Some {
                    session
                } else {
                    old(self)@.list_session
                },
                ..old(self)@
            }),
    {
        if self.session == session {
            return SessionUpdate::Unchanged;
        }
        let install_models = session.is_some();
        if install_models {
            self.list_session = session;
        }
        self.session = session;
        SessionUpdate::Replaced { install_models }
    }
}

impl Default for Sidebar {
    fn default() -> (r: Self)
        ensures
            well_formed(r@),
            r@ == (SidebarView {
                compact: false,
                search_mode: false,
                selected_chat: None,
                session: None,
                list_session: None,
                searched_chats: Seq::empty(),
                searched_users: Seq::empty(),
                already_searched_users: Seq::empty(),
            }),
    {
        Sidebar::new()
    }
}

/// The list's order is antisymmetric: comparing the other way round gives
/// the opposite answer, and an entry goes with itself.
pub proof fn lemma_item_order_antisymmetric(a: SidebarItem, b: SidebarItem)
    ensures
        item_order(b, a) == reversed(item_order(a, b)),
        item_order(a, a) == ListOrder::Equal,
{
}

/// The list's order is transitive: what goes no later than an entry that
/// goes no later than a third goes no later than the third.
pub proof fn lemma_item_order_transitive(a: SidebarItem, b: SidebarItem, c: SidebarItem)
    requires
        item_order(a, b) != ListOrder::Larger,
        item_order(b, c) != ListOrder::Larger,
    ensures
        item_order(a, c) != ListOrder::Larger,
        item_order(a, b) == ListOrder::Equal && item_order(b, c) == ListOrder::Equal ==> item_order(
            a,
            c,
        ) == ListOrder::Equal,
{
}

/// Chats are listed before users, and among chats the one with the greater
/// `order` comes first.
pub proof fn lemma_chats_first_by_order(x: ChatEntry, y: ChatEntry, user_id: i64)
    ensures
        item_order(SidebarItem::Chat(x), SidebarItem::User { id: user_id }) == ListOrder::Smaller,
        item_order(SidebarItem::User { id: user_id }, SidebarItem::Chat(x)) == ListOrder::Larger,
        x.order > y.order ==> item_order(SidebarItem::Chat(x), SidebarItem::Chat(y))
            == ListOrder::Smaller,
{
}

/// While the search entry is empty, the list shows exactly the chats of the
/// main chat list, whatever was searched before.
pub proof fn lemma_idle_list_shows_main_chats(v: SidebarView, item: SidebarItem)
    ensures
        item_shown(v, false, item) <==> (item matches SidebarItem::Chat(c) && c.order > 0),
{
}

/// A new search forgets the results of the one before: until its own
/// results come, nothing is shown while searching.
pub proof fn lemma_new_search_shows_nothing(v: SidebarView, item: SidebarItem)
    ensures
        !item_shown(search_started(v), true, item),
{
}

/// Every chat that the chat search found is shown while searching, where
/// there is a list to take the results in.
pub proof fn lemma_found_chats_are_shown(
    v: SidebarView,
    ids: Seq<i64>,
    chats: Seq<ChatEntry>,
    chat: ChatEntry,
)
    requires
        has_list(v),
        ids.contains(chat.id),
    ensures
        item_shown(chats_found(v, ids, chats), true, SidebarItem::Chat(chat)),
{
    let k = choose|k: int| 0 <= k < ids.len() && ids[k] == chat.id;
    assert((v.searched_chats + ids)[v.searched_chats.len() + k] == chat.id);
}

/// A user whom the chat search found as the other side of a private chat is
/// not listed a second time as a contact while searching, whichever of the
/// two searches answers first.
pub proof fn lemma_private_chat_partner_listed_once(
    v: SidebarView,
    chat_ids: Seq<i64>,
    chats: Seq<ChatEntry>,
    user_ids: Seq<i64>,
    user_id: i64,
)
    requires
        has_list(v),
        chat_partners(chat_ids, chats).contains(user_id),
    ensures
        !item_shown(
            contacts_found(chats_found(v, chat_ids, chats), user_ids),
            true,
            SidebarItem::User { id: user_id },
        ),
        !item_shown(
            chats_found(contacts_found(v, user_ids), chat_ids, chats),
            true,
            SidebarItem::User { id: user_id },
        ),
{
    let partners = chat_partners(chat_ids, chats);
    let k = choose|k: int| 0 <= k < partners.len() && partners[k] == user_id;
    let all = v.already_searched_users + partners;
    assert(all[v.already_searched_users.len() + k] == user_id);
    assert(all.contains(user_id));
}

/// A response to a search: the chats that the chat search found, or the
/// users that the contact search found.
pub enum SearchResponse {
    Chats(Seq<i64>),
    Contacts(Seq<i64>),
}

/// The sidebar after one response, with the chats looked up in `chats`.
pub open spec fn after_response(v: SidebarView, r: SearchResponse, chats: Seq<ChatEntry>) -> SidebarView {
    match r {
        SearchResponse::Chats(ids) => chats_found(v, ids, chats),
        SearchResponse::Contacts(ids) => contacts_found(v, ids),
    }
}

/// The sidebar after the responses `rs`, in the order they came.
pub open spec fn after_responses(v: SidebarView, rs: Seq<SearchResponse>, chats: Seq<ChatEntry>) -> SidebarView
    decreases rs.len(),
{
    if rs.len() == 0 {
        v
    } else {
        after_response(after_responses(v, rs.drop_last(), chats), rs.last(), chats)
    }
}

/// The chats that the chat-search responses among `rs` found, in order.
pub open spec fn found_chat_ids(rs: Seq<SearchResponse>) -> Seq<i64>
    decreases rs.len(),
{
    if rs.len() == 0 {
        Seq::empty()
    } else {
        found_chat_ids(rs.drop_last()) + match rs.last() {
            SearchResponse::Chats(ids) => ids,
            SearchResponse::Contacts(_) => Seq::empty(),
        }
    }
}

/// The users that the contact-search responses among `rs` found, in order.
pub open spec fn found_user_ids(rs: Seq<SearchResponse>) -> Seq<i64>
    decreases rs.len(),
{
    if rs.len() == 0 {
        Seq::empty()
    } else {
        found_user_ids(rs.drop_last()) + match rs.last() {
            SearchResponse::Chats(_) => Seq::empty(),
            SearchResponse::Contacts(ids) => ids,
        }
    }
}

/// The private-chat partners of two runs of chats are those of the first
/// run followed by those of the second.
proof fn lemma_chat_partners_concat(a: Seq<i64>, b: Seq<i64>, chats: Seq<ChatEntry>)
    ensures
        chat_partners(a + b, chats) == chat_partners(a, chats) + chat_partners(b, chats),
    decreases b.len(),
{
    let f = chat_partner_fn(chats);
    if b.len() == 0 {
        assert(a + b =~= a);
        assert(b.filter_map(f) =~= Seq::<i64>::empty());
        assert(chat_partners(a, chats) + chat_partners(b, chats) =~= chat_partners(a, chats));
    } else {
        lemma_chat_partners_concat(a, b.drop_last(), chats);
        assert((a + b).drop_last() =~= a + b.drop_last());
        assert((a + b).last() == b.last());
        let tail = match f(b.last()) {
            Some(s) => seq![s],
            None => Seq::<i64>::empty(),
        };
        assert((a + b).filter_map(f) =~= (a + b.drop_last()).filter_map(f) + tail);
        assert(b.filter_map(f) =~= b.drop_last().filter_map(f) + tail);
        assert(chat_partners(a + b, chats) =~= chat_partners(a, chats) + chat_partners(b, chats));
    }
}

/// After a new search and any responses to it, the search results are
/// exactly what the responses found, and the list stays.
pub proof fn lemma_search_results_are_the_responses(
    v: SidebarView,
    rs: Seq<SearchResponse>,
    chats: Seq<ChatEntry>,
)
    requires
        has_list(v),
    ensures
        after_responses(search_started(v), rs, chats).searched_chats == found_chat_ids(rs),
        after_responses(search_started(v), rs, chats).searched_users == found_user_ids(rs),
        after_responses(search_started(v), rs, chats).already_searched_users == chat_partners(
            found_chat_ids(rs),
            chats,
        ),
        after_responses(search_started(v), rs, chats).list_session == v.list_session,
    decreases rs.len(),
{
    if rs.len() == 0 {
        assert(chat_partners(Seq::<i64>::empty(), chats) =~= Seq::<i64>::empty());
    } else {
        let prev = rs.drop_last();
        lemma_search_results_are_the_responses(v, prev, chats);
        let w = after_responses(search_started(v), prev, chats);
        match rs.last() {
            SearchResponse::Chats(ids) => {
                lemma_chat_partners_concat(found_chat_ids(prev), ids, chats);
                assert(found_user_ids(rs) =~= found_user_ids(prev));
            },
            SearchResponse::Contacts(ids) => {
                assert(found_chat_ids(rs) =~= found_chat_ids(prev));
            },
        }
    }
}

/// A sidebar with a session has a list, made for that session.
pub proof fn lemma_session_has_its_list(v: SidebarView)
    requires
        well_formed(v),
        v.session is Some,
    ensures
        has_list(v),
        v.list_session == v.session,
{
}

/// A search shows exactly its own results: after a new search and any
/// responses to it, while searching, the list shows the chats that the
/// chat search found and the users that the contact search found, except
/// those that it found as the other side of a found private chat; nothing
/// found before the search is shown.
pub proof fn lemma_search_shows_exactly_its_results(
    v: SidebarView,
    rs: Seq<SearchResponse>,
    chats: Seq<ChatEntry>,
    item: SidebarItem,
)
    requires
        well_formed(v),
        v.session is Some,
    ensures
        item_shown(after_responses(search_started(v), rs, chats), true, item) <==> match item {
            SidebarItem::Chat(c) => found_chat_ids(rs).contains(c.id),
            SidebarItem::User { id } => found_user_ids(rs).contains(id) && !chat_partners(
                found_chat_ids(rs),
                chats,
            ).contains(id),
            SidebarItem::Other => false,
        },
{
    lemma_session_has_its_list(v);
    lemma_search_results_are_the_responses(v, rs, chats);
}

/// Where the chat `ids[k]` is, in `chats`, the private chat with `user_id`,
/// the partners collected from `ids` hold `user_id`.
proof fn lemma_partner_is_collected(ids: Seq<i64>, chats: Seq<ChatEntry>, k: int, user_id: i64)
    requires
        0 <= k < ids.len(),
        find_chat(chats, ids[k]) matches Some(c) && c.chat_type == (ChatType::Private { user_id }),
    ensures
        chat_partners(ids, chats).contains(user_id),
    decreases ids.len(),
{
    let f = chat_partner_fn(chats);
    assert(f(ids[k]) == Some(user_id));
    let tail = match f(ids.last()) {
        Some(s) => seq![s],
        None => Seq::<i64>::empty(),
    };
    ids.lemma_filter_map_take_succ(f, ids.len() - 1);
    assert(ids.take(ids.len() as int) =~= ids);
    assert(ids.take(ids.len() - 1) =~= ids.drop_last());
    assert(chat_partners(ids, chats) =~= chat_partners(ids.drop_last(), chats) + tail);
    if k == ids.len() - 1 {
        assert(tail[0] == user_id);
        assert(chat_partners(ids, chats)[chat_partners(ids.drop_last(), chats).len() as int] == user_id);
    } else {
        assert(ids.drop_last()[k] == ids[k]);
        lemma_partner_is_collected(ids.drop_last(), chats, k, user_id);
        let ps = chat_partners(ids.drop_last(), chats);
        let m = choose|m: int| 0 <= m < ps.len() && ps[m] == user_id;
        assert(chat_partners(ids, chats)[m] == user_id);
    }
}

/// A user whose private chat the chat search found is not shown as a
/// contact while searching, whatever that chat's order and whichever search
/// answers first: where entry `j` of the chat list is the first with the
/// found id `found`, and it is the private chat with `user_id`.
pub proof fn lemma_found_private_chat_hides_its_user(
    v: SidebarView,
    chat_ids: Seq<i64>,
    chats: Seq<ChatEntry>,
    user_ids: Seq<i64>,
    found: int,
    j: int,
    user_id: i64,
)
    requires
        has_list(v),
        0 <= found < chat_ids.len(),
        0 <= j < chats.len(),
        chats[j].id == chat_ids[found],
        forall|i: int| 0 <= i < j ==> chats[i].id != chat_ids[found],
        chats[j].chat_type == (ChatType::Private { user_id }),
    ensures
        !item_shown(
            contacts_found(chats_found(v, chat_ids, chats), user_ids),
            true,
            SidebarItem::User { id: user_id },
        ),
        !item_shown(
            chats_found(contacts_found(v, user_ids), chat_ids, chats),
            true,
            SidebarItem::User { id: user_id },
        ),
{
    lemma_find_chat_gives_first_entry(chats, chat_ids[found], j);
    lemma_partner_is_collected(chat_ids, chats, found, user_id);
    lemma_private_chat_partner_listed_once(v, chat_ids, chats, user_ids, user_id);
}

/// Setting the selected chat is announced exactly when it changes, and the
/// list's row is unselected exactly when no chat is selected any more.
pub proof fn lemma_selection_announced_on_change(current: Option<ChatKey>, chat: Option<ChatKey>)
    ensures
        current != chat ==> selection_update(current, chat) == (SelectionUpdate::Changed {
            unselect_row: chat is None,
        }),
        current == chat ==> selection_update(current, chat) == SelectionUpdate::Unchanged,
{
}

/// The chat created for a selected user is selected whenever the session's
/// chat list holds an entry of its id, whatever that entry's order; nothing
/// is selected only where no entry has the id.
pub proof fn lemma_created_chat_is_selected(client_id: i32, chats: Seq<ChatEntry>, chat_id: i64)
    ensures
        (exists|j: int| 0 <= j < chats.len() && (#[trigger] chats[j]).id == chat_id) ==> chat_key_in(
            client_id,
            chats,
            chat_id,
        ) == Some(ChatKey { client_id, chat_id }),
        !(exists|j: int| 0 <= j < chats.len() && (#[trigger] chats[j]).id == chat_id) ==> chat_key_in(
            client_id,
            chats,
            chat_id,
        ) is None,
{
    lemma_find_chat_finds_the_id(chats, chat_id);
}

/// Clearing the search entry filters the list again wherever there is a
/// list, whatever an earlier search left; without a list it does nothing.
pub proof fn lemma_cleared_search_refilters(v: SidebarView, step: SearchStep)
    requires
        is_search_step(v, Seq::empty(), step),
    ensures
        has_list(v) ==> step == SearchStep::Refilter,
        !has_list(v) ==> step == SearchStep::Idle,
{
}

/// Selecting the chat that is selected already changes nothing.
pub proof fn lemma_reselecting_changes_nothing(v: SidebarView, chat: Option<ChatKey>)
    requires
        v.selected_chat == chat,
    ensures
        selection_update(v.selected_chat, chat) == SelectionUpdate::Unchanged,
        (SidebarView { selected_chat: chat, ..v }) == v,
{
}

} // verus!
