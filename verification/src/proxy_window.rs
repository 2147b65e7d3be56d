//! The proxy settings window: which page it shows, what showing a page
//! asks for, and the rows that list the client's proxies.
use vstd::prelude::*;
use vstd::string::*;
use crate::proxy_handle_dialog::{opt_text, parse_i32, proxy_type_for, ProxyHandleDialog, SaveProxy};
use crate::proxy_row::{row_bindings, ProxyRow};
use crate::telegram::Proxy;
use crate::text::same_text;

verus! {

/// The pages of the window's stack.
#[derive(PartialEq, Eq, Structural, Clone, Copy, Debug)]
pub enum StackPage {
    /// The list of proxies (`"main-page"`).
    MainPage,
    /// The dialog that adds a proxy (`"proxy-handle"`).
    ProxyHandle,
}

/// What the window does when a page becomes visible.
#[derive(PartialEq, Eq, Structural, Clone, Copy, Debug)]
pub enum PageAction {
    /// Asks the client for its proxies again and lists them.
    ReloadProxies,
    /// Sets the window's default height to the given number of pixels.
    SetDefaultHeight(i32),
    /// Nothing.
    Nothing,
}

/// The name of a page in the window's stack.
pub open spec fn page_name(page: StackPage) -> Seq<char> {
    match page {
        StackPage::MainPage => "main-page"@,
        StackPage::ProxyHandle => "proxy-handle"@,
    }
}

/// What showing the page named `name` asks for.
pub open spec fn page_action(name: Seq<char>) -> PageAction {
    if name == "main-page"@ {
        PageAction::ReloadProxies
    } else if name == "proxy-handle"@ {
        PageAction::SetDefaultHeight(300)
    } else {
        PageAction::Nothing
    }
}

/// A listed proxy with the row that shows it.
pub struct ProxyListEntry {
    pub proxy: Proxy,
    pub row: ProxyRow,
}

/// Whether `entries` lists `proxies` in order, each row freshly bound and
/// its check button grouped with the one of the row before it.
pub open spec fn lists_proxies(entries: Seq<ProxyListEntry>, proxies: Seq<Proxy>) -> bool {
    &&& entries.len() == proxies.len()
    &&& forall|i: int| 0 <= i < entries.len() ==> (#[trigger] entries[i]).proxy == proxies[i]
    &&& forall|i: int| 0 <= i < entries.len() ==> (#[trigger] entries[i]).row@.bindings == row_bindings()
    &&& forall|i: int| 0 <= i < entries.len() ==> (#[trigger] entries[i]).row@.group == (if i == 0 {
        None::<usize>
    } else {
        Some((i - 1) as usize)
    })
}

/// The state of the proxy window.
pub struct ProxyWindow {
    client_id: i32,
    visible_page: StackPage,
    dialog: ProxyHandleDialog,
    entries: Vec<ProxyListEntry>,
}

/// The view of the proxy window.
pub struct ProxyWindowView {
    pub client_id: i32,
    pub visible_page: StackPage,
    /// The client that the dialog adds proxies to.
    pub dialog_client_id: i32,
    pub entries: Seq<ProxyListEntry>,
}

impl View for ProxyWindow {
    type V = ProxyWindowView;

    closed spec fn view(&self) -> ProxyWindowView {
        ProxyWindowView {
            client_id: self.client_id,
            visible_page: self.visible_page,
            dialog_client_id: self.dialog@,
            entries: self.entries@,
        }
    }
}

impl ProxyWindow {
    /// A window for the client `client_id`, on its list page, with no proxy
    /// listed yet.
    pub fn new(client_id: i32) -> (r: Self)
        ensures
            r@.client_id == client_id,
            r@.visible_page == StackPage::MainPage,
            r@.dialog_client_id == 0,
            r@.entries.len() == 0,
    {
        ProxyWindow {
            client_id,
            visible_page: StackPage::MainPage,
            dialog: ProxyHandleDialog::new(),
            entries: Vec::new(),
        }
    }

    /// Sets the client whose proxies the window shows (the window's
    /// construct-time `client-id` property).
    pub fn set_client_id(&mut self, client_id: i32)
        ensures
            final(self)@ == (ProxyWindowView { client_id, ..old(self)@ }),
    {
        self.client_id = client_id;
    }

    /// The client whose proxies the window shows.
    pub fn client_id(&self) -> (r: i32)
        ensures
            r == self@.client_id,
    {
        self.client_id
    }

    /// The page that the window shows.
    pub fn visible_page(&self) -> (r: StackPage)
        ensures
            r == self@.visible_page,
    {
        self.visible_page
    }

    /// The listed proxies with their rows.
    pub fn entries(&self) -> (r: &Vec<ProxyListEntry>)
        ensures
            r@ == self@.entries,
    {
        &self.entries
    }

    /// The name of a page of the window's stack.
    pub fn page_name(page: StackPage) -> (r: &'static str)
        ensures
            r@ == page_name(page),
    {
        match page {
            StackPage::MainPage => "main-page",
            StackPage::ProxyHandle => "proxy-handle",
        }
    }

    /// Shows the page `page`, as saving the dialog asks for.
    pub fn show_page(&mut self, page: StackPage)
        ensures
            final(self)@ == (ProxyWindowView { visible_page: page, ..old(self)@ }),
    {
        self.visible_page = page;
    }

    /// Goes back to the list of proxies.
    pub fn cast_to_main_stack(&mut self)
        ensures
            final(self)@ == (ProxyWindowView { visible_page: StackPage::MainPage, ..old(self)@ }),
    {
        self.visible_page = StackPage::MainPage;
    }

    /// Shows the dialog that adds a proxy, set to add it to this window's
    /// client.
    pub fn show_proxy_handle_dialog(&mut self)
        ensures
            final(self)@ == (ProxyWindowView {
                visible_page: StackPage::ProxyHandle,
                dialog_client_id: old(self)@.client_id,
                ..old(self)@
            }),
    {
        self.dialog.set_client_id(self.client_id);
        self.visible_page = StackPage::ProxyHandle;
    }

    /// What showing the page named `visible_page` asks for: the list page
    /// reloads the proxies, the dialog page sets the default height to 300,
    /// any other page asks for nothing.
    pub fn update_actions_for_visible_page(visible_page: &str) -> (r: PageAction)
        ensures
            r == page_action(visible_page@),
    {
        proof {
            reveal_strlit("main-page");
            reveal_strlit("proxy-handle");
        }
        if same_text(visible_page, "main-page") {
            PageAction::ReloadProxies
        } else if same_text(visible_page, "proxy-handle") {
            PageAction::SetDefaultHeight(300)
        } else {
            PageAction::Nothing
        }
    }

    /// Saves the dialog: the request that it sends, for the client that the
    /// dialog was set to, and the window goes back to the list of proxies.
    /// A port text that does not parse is refused (the dialog cannot save it).
    pub fn save_proxy(&mut self, address: String, port_text: &str, selected_nick: Option<&str>) -> (r:
        SaveProxy)
        requires
            parse_i32(port_text@) is Some,
        ensures
            r.client_id == old(self)@.dialog_client_id,
            r.request.server@ == address@,
            Some(r.request.port) == parse_i32(port_text@),
            !r.request.enable,
            proxy_type_for(opt_text(selected_nick), r.request.proxy_type),
            r.next_page == StackPage::MainPage,
            final(self)@ == (ProxyWindowView { visible_page: r.next_page, ..old(self)@ }),
    {
        let r = self.dialog.add_save_proxy(address, port_text, selected_nick);
        self.visible_page = r.next_page;
        r
    }

    /// Lists `proxies` in order, in place of what was listed: each in a
    /// freshly bound row, whose check button joins the group of the row
    /// before it.
    pub fn set_proxies(&mut self, proxies: Vec<Proxy>)
        ensures
            lists_proxies(final(self)@.entries, proxies@),
            final(self)@.entries.len() == proxies@.len(),
            forall|i: int| 0 <= i < proxies@.len() ==> #[trigger] final(self)@.entries[i].proxy == proxies@[i],
            final(self)@.client_id == old(self)@.client_id,
            final(self)@.visible_page == old(self)@.visible_page,
            final(self)@.dialog_client_id == old(self)@.dialog_client_id,
    {
        let mut entries: Vec<ProxyListEntry> = Vec::new();
        let mut rest = proxies;
        let ghost all = rest@;
        let mut taken: Vec<Proxy> = Vec::new();
        // Take the proxies off the back, then list them from the front.
        while rest.len() > 0
            invariant
                taken@.len() + rest@.len() == all.len(),
                rest@ == all.take(rest@.len() as int),
                forall|j: int| 0 <= j < taken@.len() ==> #[trigger] taken@[j] == all[all.len() - 1 - j],
            decreases rest.len(),
        {
            let p = rest.pop().unwrap();
            taken.push(p);
            assert(rest@ =~= all.take(rest@.len() as int));
        }
        let n = taken.len();
        let mut i: usize = 0;
        while i < n
            invariant
                n == all.len(),
                taken@.len() == n - i,
                i <= n,
                forall|j: int| 0 <= j < taken@.len() ==> #[trigger] taken@[j] == all[all.len() - 1 - j],
                lists_proxies(entries@, all.take(i as int)),
            decreases n - i,
        {
            let p = taken.pop().unwrap();
            let mut row = ProxyRow::new();
            row.bind();
            if i > 0 {
                row.check_button_set_group(Some(i - 1));
            }
            proof {
                assert(row@.bindings =~= row_bindings());
            }
            entries.push(ProxyListEntry { proxy: p, row });
            i = i + 1;
            assert(all.take(i as int) =~= all.take(i - 1).push(all[i - 1]));
        }
        assert(all.take(n as int) =~= all);
        self.entries = entries;
    }

    /// Handles the client's answer to the request for its proxies: lists
    /// them on success, and leaves everything as it is on an error.
    pub fn on_proxies_loaded<E>(&mut self, result: Result<Vec<Proxy>, E>)
        ensures
            match result {
                Ok(proxies) => {
                    &&& lists_proxies(final(self)@.entries, proxies@)
                    &&& final(self)@.entries.len() == proxies@.len()
                    &&& forall|i: int| 0 <= i < proxies@.len() ==> #[trigger] final(self)@.entries[i].proxy == proxies@[i]
                    &&& final(self)@.client_id == old(self)@.client_id
                    &&& final(self)@.visible_page == old(self)@.visible_page
                    &&& final(self)@.dialog_client_id == old(self)@.dialog_client_id
                },
                Err(_) => final(self)@ == old(self)@,
            },
    {
        match result {
            Err(_) => {},
            Ok(proxies) => self.set_proxies(proxies),
        }
    }
}

impl Default for ProxyWindow {
    fn default() -> (r: Self)
        ensures
            r@.client_id == 0,
            r@.visible_page == StackPage::MainPage,
            r@.dialog_client_id == 0,
            r@.entries.len() == 0,
    {
        ProxyWindow::new(0)
    }
}

/// Listing proxies keeps each of them whole: the `i`-th row shows the `i`-th
/// proxy given, with every field as it came (whether it is enabled among
/// them), and there is one row for each proxy.
pub proof fn lemma_listed_entries_are_the_proxies(
    entries: Seq<ProxyListEntry>,
    proxies: Seq<Proxy>,
    i: int,
)
    requires
        lists_proxies(entries, proxies),
        0 <= i < proxies.len(),
    ensures
        entries.len() == proxies.len(),
        entries[i].proxy == proxies[i],
        entries[i].proxy.is_enabled == proxies[i].is_enabled,
{
}

/// The row whose check button leads the group of row `i`'s check button:
/// follows the group links back as far as they go.
pub open spec fn group_leader(entries: Seq<ProxyListEntry>, i: nat) -> nat
    decreases i,
{
    match entries[i as int].row@.group {
        Some(j) if (j as nat) < i => group_leader(entries, j as nat),
        _ => i,
    }
}

/// Once the proxies are listed, all the rows' check buttons form one group,
/// led by the first row's: at most one proxy can be checked at a time.
pub proof fn lemma_listed_rows_form_one_group(entries: Seq<ProxyListEntry>, proxies: Seq<Proxy>, i: nat)
    requires
        lists_proxies(entries, proxies),
        entries.len() <= usize::MAX,
        i < entries.len(),
    ensures
        group_leader(entries, i) == 0,
    decreases i,
{
    if i > 0 {
        assert(entries[i as int].row@.group == Some((i - 1) as usize));
        lemma_listed_rows_form_one_group(entries, proxies, (i - 1) as nat);
    } else {
        assert(entries[0].row@.group == None::<usize>);
    }
}

/// Adding a proxy leads back to the list, and coming back to the list asks
/// for the proxies again: showing the dialog and saving it leaves the window
/// on its list page, showing that page reloads the proxies, the saved proxy
/// goes to this window's client and the listed proxies stay as they were.
pub fn add_proxy_through_dialog(
    window: &mut ProxyWindow,
    address: String,
    port_text: &str,
    selected_nick: Option<&str>,
) -> (r: SaveProxy)
    requires
        parse_i32(port_text@) is Some,
    ensures
        final(window)@.visible_page == StackPage::MainPage,
        page_action(page_name(final(window)@.visible_page)) == PageAction::ReloadProxies,
        r.client_id == old(window)@.client_id,
        final(window)@.dialog_client_id == old(window)@.client_id,
        final(window)@.client_id == old(window)@.client_id,
        final(window)@.entries == old(window)@.entries,
{
    window.show_proxy_handle_dialog();
    window.save_proxy(address, port_text, selected_nick)
}

} // verus!
