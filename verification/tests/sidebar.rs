use telegrand::sidebar::{ChatKey, ItemSelected, ListOrder, ListRefresh, SearchStep, SelectionUpdate, SessionUpdate, Sidebar, SidebarItem};
use telegrand::telegram::{get_chat, ChatEntry, ChatType};

fn key(client_id: i32, chat_id: i64) -> ChatKey {
    ChatKey { client_id, chat_id }
}

fn chat(id: i64, order: i64, chat_type: ChatType) -> ChatEntry {
    ChatEntry { id, order, chat_type }
}

fn chat_list() -> Vec<ChatEntry> {
    vec![
        chat(1, 50, ChatType::Private { user_id: 100 }),
        chat(2, 0, ChatType::BasicGroup { basic_group_id: 9 }),
        chat(3, 70, ChatType::Supergroup { supergroup_id: 8, is_channel: true }),
        chat(4, 10, ChatType::Secret { secret_chat_id: 5, user_id: 101 }),
    ]
}

fn with_session(client_id: i32) -> Sidebar {
    let mut s = Sidebar::new();
    assert_eq!(s.set_session(Some(client_id)), SessionUpdate::Replaced { install_models: true });
    s
}

#[test]
fn new_sidebar_is_empty() {
    let s = Sidebar::new();
    assert_eq!(s.session(), None);
    assert_eq!(s.selected_chat(), None);
    assert!(!s.compact());
    assert!(!s.search_mode());
}

#[test]
fn compact_property_is_kept() {
    let mut s = Sidebar::new();
    s.set_compact(true);
    assert!(s.compact());
    s.set_compact(false);
    assert!(!s.compact());
}

#[test]
fn begin_chats_search_shows_the_search_bar() {
    let mut s = Sidebar::new();
    s.begin_chats_search();
    assert!(s.search_mode());
}

#[test]
fn chat_lookup_by_id() {
    let chats = chat_list();
    assert_eq!(get_chat(&chats, 3).map(|c| c.order), Some(70));
    assert!(get_chat(&chats, 99).is_none());
}

#[test]
fn setting_a_session() {
    let mut s = Sidebar::new();
    assert_eq!(s.set_session(None), SessionUpdate::Unchanged);
    assert_eq!(s.set_session(Some(3)), SessionUpdate::Replaced { install_models: true });
    assert_eq!(s.session(), Some(3));
    assert_eq!(s.set_session(Some(3)), SessionUpdate::Unchanged);
    assert_eq!(s.set_session(None), SessionUpdate::Replaced { install_models: false });
    assert_eq!(s.session(), None);
}

#[test]
fn idle_list_shows_main_chats_only() {
    let s = with_session(1);
    for c in chat_list() {
        assert_eq!(s.shows_item(false, &SidebarItem::Chat(c)), c.order > 0);
    }
    assert!(!s.shows_item(false, &SidebarItem::User { id: 100 }));
    assert!(!s.shows_item(false, &SidebarItem::Other));
}

#[test]
fn empty_query_refilters_where_there_is_a_list() {
    let mut bare = Sidebar::new();
    assert_eq!(bare.search(""), SearchStep::Idle);
    let mut s = with_session(1);
    assert_eq!(s.search(""), SearchStep::Refilter);
}

#[test]
fn query_asks_the_sessions_client() {
    let mut s = with_session(6);
    assert_eq!(s.search("ali"), SearchStep::Request { client_id: 6, query: "ali".to_string(), limit: 100 });
}

#[test]
fn search_results_are_shown_and_partners_listed_once() {
    let mut s = with_session(6);
    let _ = s.search("a");
    assert!(s.on_chats_found(&vec![1, 3, 4, 99], &chat_list()));
    assert!(s.on_contacts_found(&vec![100, 101, 102]));
    assert!(s.shows_item(true, &SidebarItem::Chat(chat_list()[0])));
    assert!(s.shows_item(true, &SidebarItem::Chat(chat_list()[2])));
    assert!(!s.shows_item(true, &SidebarItem::Chat(chat_list()[1])));
    // User 100 is the other side of the private chat 1, found by the chat search.
    assert!(!s.shows_item(true, &SidebarItem::User { id: 100 }));
    // The secret chat's user is not taken for a private chat's.
    assert!(s.shows_item(true, &SidebarItem::User { id: 101 }));
    assert!(s.shows_item(true, &SidebarItem::User { id: 102 }));
    assert!(!s.shows_item(true, &SidebarItem::User { id: 103 }));
    assert!(!s.shows_item(true, &SidebarItem::Other));
}

#[test]
fn partner_is_hidden_whichever_search_answers_first() {
    let mut s = with_session(6);
    let _ = s.search("a");
    assert!(s.on_contacts_found(&vec![100]));
    assert!(s.shows_item(true, &SidebarItem::User { id: 100 }));
    assert!(s.on_chats_found(&vec![1], &chat_list()));
    assert!(!s.shows_item(true, &SidebarItem::User { id: 100 }));
}

#[test]
fn new_search_forgets_the_old_results() {
    let mut s = with_session(6);
    let _ = s.search("a");
    s.on_chats_found(&vec![3], &chat_list());
    s.on_contacts_found(&vec![102]);
    let _ = s.search("b");
    assert!(!s.shows_item(true, &SidebarItem::Chat(chat_list()[2])));
    assert!(!s.shows_item(true, &SidebarItem::User { id: 102 }));
}

#[test]
fn results_without_a_list_are_dropped() {
    let mut s = Sidebar::new();
    assert!(!s.on_chats_found(&vec![3], &chat_list()));
    assert!(!s.on_contacts_found(&vec![102]));
    assert!(!s.shows_item(true, &SidebarItem::Chat(chat_list()[2])));
    assert!(!s.shows_item(true, &SidebarItem::User { id: 102 }));
}

#[test]
fn chats_come_first_by_decreasing_order() {
    let c = chat_list();
    let a = SidebarItem::Chat(c[0]);
    let b = SidebarItem::Chat(c[2]);
    let u = SidebarItem::User { id: 1 };
    let v = SidebarItem::User { id: 2 };
    assert_eq!(Sidebar::compare_items(&b, &a), ListOrder::Smaller);
    assert_eq!(Sidebar::compare_items(&a, &b), ListOrder::Larger);
    assert_eq!(Sidebar::compare_items(&a, &a), ListOrder::Equal);
    assert_eq!(Sidebar::compare_items(&a, &u), ListOrder::Smaller);
    assert_eq!(Sidebar::compare_items(&u, &a), ListOrder::Larger);
    assert_eq!(Sidebar::compare_items(&u, &v), ListOrder::Equal);
    assert_eq!(Sidebar::compare_items(&SidebarItem::Other, &u), ListOrder::Equal);
}

#[test]
fn sorting_with_the_list_order() {
    let c = chat_list();
    let mut items = vec![
        SidebarItem::User { id: 1 },
        SidebarItem::Chat(c[1]),
        SidebarItem::Chat(c[0]),
        SidebarItem::User { id: 2 },
        SidebarItem::Chat(c[2]),
    ];
    items.sort_by(|a, b| match Sidebar::compare_items(a, b) {
        ListOrder::Smaller => std::cmp::Ordering::Less,
        ListOrder::Equal => std::cmp::Ordering::Equal,
        ListOrder::Larger => std::cmp::Ordering::Greater,
    });
    assert_eq!(
        items,
        vec![
            SidebarItem::Chat(c[2]),
            SidebarItem::Chat(c[0]),
            SidebarItem::Chat(c[1]),
            SidebarItem::User { id: 1 },
            SidebarItem::User { id: 2 },
        ]
    );
}

#[test]
fn selecting_chats() {
    let mut s = with_session(6);
    assert_eq!(s.set_selected_chat(Some(key(6, 3))), SelectionUpdate::Changed { unselect_row: false });
    assert_eq!(s.selected_chat(), Some(key(6, 3)));
    assert_eq!(s.set_selected_chat(Some(key(6, 3))), SelectionUpdate::Unchanged);
    assert_eq!(s.set_selected_chat(None), SelectionUpdate::Changed { unselect_row: true });
    assert_eq!(s.selected_chat(), None);
    assert_eq!(s.set_selected_chat(None), SelectionUpdate::Unchanged);
}

#[test]
fn selecting_list_entries() {
    let mut s = with_session(6);
    let c = chat_list();
    assert_eq!(
        s.on_item_selected(Some(SidebarItem::Chat(c[0]))),
        ItemSelected::Chat(SelectionUpdate::Changed { unselect_row: false })
    );
    assert_eq!(s.selected_chat(), Some(key(6, 1)));
    assert_eq!(s.on_item_selected(Some(SidebarItem::User { id: 55 })), ItemSelected::CreatePrivateChat { client_id: 6, user_id: 55 });
    assert_eq!(s.selected_chat(), Some(key(6, 1)));
    assert_eq!(s.on_item_selected(None), ItemSelected::Chat(SelectionUpdate::Changed { unselect_row: true }));
    assert_eq!(s.selected_chat(), None);
}

#[test]
fn created_private_chat_is_selected_if_listed() {
    let mut s = with_session(6);
    assert_eq!(s.on_private_chat_created(4, &chat_list()), SelectionUpdate::Changed { unselect_row: false });
    assert_eq!(s.selected_chat(), Some(key(6, 4)));
    assert_eq!(s.on_private_chat_created(77, &chat_list()), SelectionUpdate::Changed { unselect_row: true });
    assert_eq!(s.selected_chat(), None);
}

#[test]
fn chat_positions_changes_refresh_the_list() {
    let s = Sidebar::new();
    assert_eq!(s.on_chat_positions_changed(), ListRefresh::Nothing);
    let mut s = with_session(2);
    assert_eq!(s.on_chat_positions_changed(), ListRefresh::RefilterAndResort);
    // The list stays after the session is unset, and so does its refresh.
    s.set_session(None);
    assert_eq!(s.on_chat_positions_changed(), ListRefresh::RefilterAndResort);
    // A chat whose order became 0 is no longer shown when not searching.
    assert!(s.shows_item(false, &SidebarItem::Chat(chat(1, 50, ChatType::Private { user_id: 100 }))));
    assert!(!s.shows_item(false, &SidebarItem::Chat(chat(1, 0, ChatType::Private { user_id: 100 }))));
}

#[test]
fn private_chat_is_created_by_the_lists_client() {
    let mut s = with_session(8);
    assert_eq!(s.on_item_selected(Some(SidebarItem::User { id: 5 })), ItemSelected::CreatePrivateChat { client_id: 8, user_id: 5 });
    s.set_session(None);
    assert_eq!(s.on_item_selected(Some(SidebarItem::User { id: 5 })), ItemSelected::CreatePrivateChat { client_id: 8, user_id: 5 });
    s.set_session(Some(9));
    assert_eq!(s.on_item_selected(Some(SidebarItem::User { id: 5 })), ItemSelected::CreatePrivateChat { client_id: 9, user_id: 5 });
}

#[test]
fn search_shows_exactly_its_responses() {
    let mut s = with_session(6);
    let _ = s.search("old");
    s.on_chats_found(&vec![3], &chat_list());
    s.on_contacts_found(&vec![200]);
    let _ = s.search("new");
    // Several responses, in any order.
    s.on_contacts_found(&vec![100, 101]);
    s.on_chats_found(&vec![1], &chat_list());
    s.on_contacts_found(&vec![102]);
    s.on_chats_found(&vec![4], &chat_list());
    let c = chat_list();
    assert!(s.shows_item(true, &SidebarItem::Chat(c[0])));
    assert!(s.shows_item(true, &SidebarItem::Chat(c[3])));
    assert!(!s.shows_item(true, &SidebarItem::Chat(c[2])));
    assert!(!s.shows_item(true, &SidebarItem::User { id: 100 }));
    assert!(s.shows_item(true, &SidebarItem::User { id: 101 }));
    assert!(s.shows_item(true, &SidebarItem::User { id: 102 }));
    assert!(!s.shows_item(true, &SidebarItem::User { id: 200 }));
}

#[test]
fn same_chat_id_of_another_session_is_another_chat() {
    let mut s = with_session(1);
    assert_eq!(s.set_selected_chat(Some(key(1, 5))), SelectionUpdate::Changed { unselect_row: false });
    assert_eq!(s.set_session(Some(2)), SessionUpdate::Replaced { install_models: true });
    assert_eq!(s.set_selected_chat(Some(key(2, 5))), SelectionUpdate::Changed { unselect_row: false });
    assert_eq!(s.selected_chat(), Some(key(2, 5)));
    // Selecting chat 5 in the new session's list keys it by that session.
    assert_eq!(s.on_item_selected(Some(SidebarItem::Chat(chat(5, 1, ChatType::BasicGroup { basic_group_id: 1 })))),
        ItemSelected::Chat(SelectionUpdate::Unchanged));
}

#[test]
fn search_mode_follows_the_search_bar() {
    let mut s = Sidebar::new();
    s.begin_chats_search();
    assert!(s.search_mode());
    s.set_search_mode(false);
    assert!(!s.search_mode());
}
