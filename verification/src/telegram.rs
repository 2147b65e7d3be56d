//! The Telegram values that the client's logic reads, held as plain values.
//!
//! The GUI receives these from TDLib; the library only needs the fields
//! that its decisions look at, so each type keeps exactly those.
use vstd::prelude::*;

verus! {

/// How a proxy is reached, with the credentials that each kind carries.
pub enum ProxyType {
    /// A SOCKS5 proxy.
    Socks5 { username: String, password: String },
    /// An HTTP proxy; `http_only` restricts it to HTTP requests.
    Http { username: String, password: String, http_only: bool },
    /// An MTProto proxy with its secret.
    Mtproto { secret: String },
}

/// A proxy as the client lists it.
pub struct Proxy {
    pub id: i32,
    pub server: String,
    pub port: i32,
    pub last_used_date: i32,
    pub is_enabled: bool,
    pub proxy_type: ProxyType,
}

/// The request that adds a proxy to the client's proxy list.
pub struct AddProxy {
    pub server: String,
    pub port: i32,
    /// Whether the proxy is enabled at once.
    pub enable: bool,
    pub proxy_type: ProxyType,
}

/// The kind of a chat, as far as the sidebar reads it.
#[derive(PartialEq, Eq, Structural, Clone, Copy, Debug)]
pub enum ChatType {
    /// A one-to-one chat with the user `user_id`.
    Private { user_id: i64 },
    BasicGroup { basic_group_id: i64 },
    Supergroup { supergroup_id: i64, is_channel: bool },
    Secret { secret_chat_id: i32, user_id: i64 },
}

/// A chat of the session's chat list: its id, its position in the list
/// (`order`; 0 means that the chat is not in the main list) and its kind.
#[derive(PartialEq, Eq, Structural, Clone, Copy, Debug)]
pub struct ChatEntry {
    pub id: i64,
    pub order: i64,
    pub chat_type: ChatType,
}

/// The user id that a chat of this kind is the private chat with, if any.
pub open spec fn private_user_id(chat_type: ChatType) -> Option<i64> {
    match chat_type {
        ChatType::Private { user_id } => Some(user_id),
        _ => None,
    }
}

/// The first chat of `chats` whose id is `id`.
pub open spec fn find_chat(chats: Seq<ChatEntry>, id: i64) -> Option<ChatEntry>
    decreases chats.len(),
{
    if chats.len() == 0 {
        None
    } else if chats[0].id == id {
        Some(chats[0])
    } else {
        find_chat(chats.drop_first(), id)
    }
}

/// Looking up the id of an entry gives that entry where no entry before it
/// has the same id.
pub proof fn lemma_find_chat_gives_first_entry(chats: Seq<ChatEntry>, id: i64, j: int)
    requires
        0 <= j < chats.len(),
        chats[j].id == id,
        forall|i: int| 0 <= i < j ==> chats[i].id != id,
    ensures
        find_chat(chats, id) == Some(chats[j]),
    decreases j,
{
    if j > 0 {
        let rest = chats.drop_first();
        assert forall|i: int| 0 <= i < j - 1 implies rest[i].id != id by {
            assert(rest[i] == chats[i + 1]);
        }
        assert(chats[0].id != id);
        lemma_find_chat_gives_first_entry(rest, id, j - 1);
    }
}

/// A lookup finds a chat exactly where some entry has the id, and the chat
/// it finds has that id.
pub proof fn lemma_find_chat_finds_the_id(chats: Seq<ChatEntry>, id: i64)
    ensures
        find_chat(chats, id) is Some <==> exists|j: int| 0 <= j < chats.len() && (#[trigger] chats[j]).id == id,
        find_chat(chats, id) matches Some(c) ==> c.id == id,
    decreases chats.len(),
{
    if chats.len() > 0 {
        let rest = chats.drop_first();
        lemma_find_chat_finds_the_id(rest, id);
        if chats[0].id != id {
            if exists|j: int| 0 <= j < chats.len() && (#[trigger] chats[j]).id == id {
                let j = choose|j: int| 0 <= j < chats.len() && (#[trigger] chats[j]).id == id;
                assert(rest[j - 1] == chats[j]);
            }
            if exists|j: int| 0 <= j < rest.len() && (#[trigger] rest[j]).id == id {
                let j = choose|j: int| 0 <= j < rest.len() && (#[trigger] rest[j]).id == id;
                assert(chats[j + 1] == rest[j]);
            }
        }
    }
}

/// Looks a chat up by its id in a chat list.
pub fn get_chat(chats: &Vec<ChatEntry>, id: i64) -> (r: Option<&ChatEntry>)
    ensures
        r matches Some(c) ==> find_chat(chats@, id) == Some(*c),
        r is None ==> find_chat(chats@, id) is None,
{
    let n = chats.len();
    let mut i: usize = 0;
    assert(chats@.subrange(0, n as int) =~= chats@);
    while i < n
        invariant
            n == chats@.len(),
            i <= n,
            find_chat(chats@, id) == find_chat(chats@.subrange(i as int, n as int), id),
        decreases n - i,
    {
        let ghost rest = chats@.subrange(i as int, n as int);
        assert(rest.drop_first() =~= chats@.subrange(i + 1, n as int));
        if chats[i].id == id {
            return Some(&chats[i]);
        }
        i = i + 1;
    }
    None
}

} // verus!
