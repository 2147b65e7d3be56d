//! The dialog that adds a proxy: its port validator, the proxy type that the
//! selected kind stands for, and the request that saving sends.
use vstd::prelude::*;
use vstd::string::*;
use crate::telegram::{AddProxy, ProxyType};
use crate::proxy_window::StackPage;
use crate::text::same_text;

verus! {

/// Whether `c` is an ASCII decimal digit.
pub open spec fn is_ascii_digit(c: char) -> bool {
    '0' <= c && c <= '9'
}

/// Whether `s` holds a character that is not an ASCII decimal digit.
pub open spec fn has_non_digit(s: Seq<char>) -> bool {
    exists|i: int| 0 <= i < s.len() && !is_ascii_digit(#[trigger] s[i])
}

/// Whether every character of `s` is an ASCII decimal digit.
pub open spec fn all_digits(s: Seq<char>) -> bool {
    forall|i: int| 0 <= i < s.len() ==> is_ascii_digit(#[trigger] s[i])
}

/// The ASCII decimal digits of `s`, in their order.
pub open spec fn digits_of(s: Seq<char>) -> Seq<char> {
    s.filter(|c: char| is_ascii_digit(c))
}

/// The value of a digit character.
pub open spec fn digit_value(c: char) -> int {
    (c as int) - ('0' as int)
}

/// The number that a sequence of digits writes in base ten.
pub open spec fn decimal_value(s: Seq<char>) -> int
    decreases s.len(),
{
    if s.len() == 0 {
        0
    } else {
        decimal_value(s.drop_last()) * 10 + digit_value(s.last())
    }
}

/// The `i32` that a sign (`negative`) and a sequence of digits write, if
/// there is at least one digit, nothing but digits, and the value fits.
pub open spec fn signed_value(negative: bool, digits: Seq<char>) -> Option<i32> {
    let value = if negative { -decimal_value(digits) } else { decimal_value(digits) };
    if digits.len() > 0 && all_digits(digits) && i32::MIN <= value <= i32::MAX {
        Some(value as i32)
    } else {
        None
    }
}

/// The `i32` that a text denotes as `str::parse::<i32>` reads it: an optional
/// `+` or `-`, then at least one ASCII digit and nothing else, of a value in
/// the range of `i32`.
pub open spec fn parse_i32(s: Seq<char>) -> Option<i32> {
    if s.len() > 0 && (s[0] == '+' || s[0] == '-') {
        signed_value(s[0] == '-', s.drop_first())
    } else {
        signed_value(false, s)
    }
}

/// Tells whether `c` is anything but an ASCII decimal digit.
pub fn is_non_ascii_digit(c: char) -> (r: bool)
    ensures
        r == !is_ascii_digit(c),
{
    !('0' <= c && c <= '9')
}

/// The port entry's validator: where the text holds anything but digits, the
/// text that the entry is to show instead, which keeps the digits alone.
pub fn sanitize_port_text(text: &str) -> (r: Option<String>)
    ensures
        r is Some <==> has_non_digit(text@),
        r matches Some(s) ==> s@ == digits_of(text@),
{
    let n = text.unicode_len();
    let mut kept = String::new();
    let mut found = false;
    let mut i: usize = 0;
    while i < n
        invariant
            n == text@.len(),
            i <= n,
            kept@ == digits_of(text@.take(i as int)),
            found <==> exists|j: int| 0 <= j < i && !is_ascii_digit(#[trigger] text@[j]),
        decreases n - i,
    {
        let c = text.get_char(i);
        proof {
            reveal(Seq::filter);
            assert(text@.take(i + 1).drop_last() =~= text@.take(i as int));
            assert(text@.take(i + 1).last() == c);
        }
        if is_non_ascii_digit(c) {
            found = true;
        } else {
            kept.append(text.substring_char(i, i + 1));
            assert(text@.subrange(i as int, i + 1) =~= seq![c]);
        }
        i = i + 1;
    }
    assert(text@.take(n as int) =~= text@);
    if found {
        Some(kept)
    } else {
        None
    }
}

/// Reads a text as `str::parse::<i32>` does.
pub fn parse_port(text: &str) -> (r: Option<i32>)
    ensures
        r == parse_i32(text@),
{
    let n = text.unicode_len();
    let ghost s = text@;
    let mut start: usize = 0;
    let mut negative = false;
    if n > 0 {
        let c = text.get_char(0);
        if c == '+' || c == '-' {
            start = 1;
            negative = c == '-';
        }
    }
    let ghost digits = if start == 1 { s.drop_first() } else { s };
    assert(digits =~= s.subrange(start as int, n as int));
    assert(parse_i32(s) == signed_value(negative, digits));
    if start >= n {
        assert(digits.len() == 0);
        return None;
    }
    // `acc` is the value read so far, until it passes 2^31; from then on
    // no `i32` can come out, and only `too_big` is kept.
    let mut acc: i64 = 0;
    let mut too_big = false;
    let mut i: usize = start;
    while i < n
        invariant
            n == s.len(),
            s == text@,
            start <= i <= n,
            digits =~= s.subrange(start as int, n as int),
            parse_i32(s) == signed_value(negative, digits),
            all_digits(s.subrange(start as int, i as int)),
            !too_big ==> acc == decimal_value(s.subrange(start as int, i as int)),
            !too_big ==> 0 <= acc <= 0x8000_0000,
            too_big ==> decimal_value(s.subrange(start as int, i as int)) > 0x8000_0000,
        decreases n - i,
    {
        let c = text.get_char(i);
        let ghost prefix = s.subrange(start as int, i as int);
        let ghost next = s.subrange(start as int, i + 1);
        assert(next.drop_last() =~= prefix);
        assert(next.last() == c);
        if is_non_ascii_digit(c) {
            assert(!all_digits(digits)) by {
                assert(digits[i - start] == c);
            }
            return None;
        }
        assert(all_digits(next)) by {
            assert forall|j: int| 0 <= j < next.len() implies is_ascii_digit(#[trigger] next[j]) by {
                if j < prefix.len() {
                    assert(next[j] == prefix[j]);
                }
            }
        }
        let d: i64 = (c as u32 - '0' as u32) as i64;
        assert(d == digit_value(c));
        if !too_big {
            let v = acc * 10 + d;
            if v > 0x8000_0000 {
                too_big = true;
            } else {
                acc = v;
            }
        } else {
            assert(decimal_value(prefix) >= 0) by {
                lemma_decimal_value_nonneg(prefix);
            }
        }
        i = i + 1;
    }
    assert(s.subrange(start as int, n as int) =~= digits);
    if too_big {
        return None;
    }
    if negative {
        Some((0 - acc) as i32)
    } else if acc <= 0x7fff_ffff {
        Some(acc as i32)
    } else {
        None
    }
}

/// The value of a sequence of digits is never negative.
proof fn lemma_decimal_value_nonneg(s: Seq<char>)
    requires
        all_digits(s),
    ensures
        decimal_value(s) >= 0,
    decreases s.len(),
{
    if s.len() > 0 {
        assert(is_ascii_digit(s[s.len() - 1]));
        assert forall|i: int| 0 <= i < s.drop_last().len() implies is_ascii_digit(
            #[trigger] s.drop_last()[i],
        ) by {
            assert(s.drop_last()[i] == s[i]);
        }
        lemma_decimal_value_nonneg(s.drop_last());
    }
}

/// The port validator settles at once: the text that it puts in place holds
/// digits only, so that the change it makes does not lead to another.
pub proof fn lemma_sanitized_port_text_is_settled(text: Seq<char>)
    ensures
        all_digits(digits_of(text)),
        !has_non_digit(digits_of(text)),
{
    let p = |c: char| is_ascii_digit(c);
    assert forall|i: int| 0 <= i < digits_of(text).len() implies is_ascii_digit(
        #[trigger] digits_of(text)[i],
    ) by {
        text.lemma_filter_pred(p, i);
    }
}

/// A port text of digits alone, whose value fits an `i32`, is read as that
/// value.
pub proof fn lemma_digit_text_parses(text: Seq<char>)
    requires
        text.len() > 0,
        all_digits(text),
        decimal_value(text) <= i32::MAX,
    ensures
        parse_i32(text) == Some(decimal_value(text) as i32),
{
    assert(is_ascii_digit(text[0]));
    lemma_decimal_value_nonneg(text);
}

/// The kinds of proxy that the dialog offers; HTTP is the default choice.
#[derive(PartialEq, Eq, Structural, Clone, Copy, Debug)]
pub enum ProxyTypes {
    Socks5,
    Http,
}

impl ProxyTypes {
    /// The nickname that the kind is listed under.
    pub fn nick(&self) -> (r: &'static str)
        ensures
            *self == ProxyTypes::Socks5 ==> r@ == "socks5"@,
            *self == ProxyTypes::Http ==> r@ == "http"@,
    {
        match self {
            ProxyTypes::Socks5 => "socks5",
            ProxyTypes::Http => "http",
        }
    }
}

impl Default for ProxyTypes {
    fn default() -> (r: Self)
        ensures
            r == ProxyTypes::Http,
    {
        ProxyTypes::Http
    }
}

/// The proxy type that saving sends for the kind listed under `nick`, or
/// for no selection (`None`).
pub open spec fn proxy_type_for(nick: Option<Seq<char>>, t: ProxyType) -> bool {
    match nick {
        Some(n) if n == "socks5"@ => t matches ProxyType::Socks5 { username, password } && username@
            == "123"@ && password@ == "123"@,
        Some(n) if n == "http"@ => t matches ProxyType::Http { username, password, http_only }
            && username@.len() == 0 && password@.len() == 0 && !http_only,
        _ => t matches ProxyType::Socks5 { username, password } && username@.len() == 0
            && password@.len() == 0,
    }
}

/// The view of an optional text.
pub open spec fn opt_text(s: Option<&str>) -> Option<Seq<char>> {
    match s {
        Some(t) => Some(t@),
        None => None,
    }
}

/// What saving leads to: the request that it sends, for the client
/// `client_id`, and the page of the proxy window's stack that it goes to
/// at once, without waiting for the request's answer.
pub struct SaveProxy {
    pub client_id: i32,
    pub request: AddProxy,
    pub next_page: StackPage,
}

/// The dialog's own state: the client that it adds proxies to.
pub struct ProxyHandleDialog {
    client_id: i32,
}

impl View for ProxyHandleDialog {
    type V = i32;

    closed spec fn view(&self) -> i32 {
        self.client_id
    }
}

impl ProxyHandleDialog {
    /// A dialog for no client yet (client id 0).
    pub fn new() -> (r: Self)
        ensures
            r@ == 0,
    {
        ProxyHandleDialog { client_id: 0 }
    }

    /// Sets the client that saved proxies go to.
    pub fn set_client_id(&mut self, client_id: i32)
        ensures
            final(self)@ == client_id,
    {
        self.client_id = client_id;
    }

    /// The client that saved proxies go to.
    pub fn client_id(&self) -> (r: i32)
        ensures
            r == self@,
    {
        self.client_id
    }

    /// The proxy type for the kind selected in the dialog: the kind listed
    /// under `selected_nick`, or none (`None`). SOCKS5 gets the credentials
    /// `123`/`123`, HTTP the default ones; no selection or an unknown kind
    /// gives SOCKS5 with the default credentials.
    pub fn proxy_type(selected_nick: Option<&str>) -> (r: ProxyType)
        ensures
            proxy_type_for(opt_text(selected_nick), r),
    {
        proof {
            reveal_strlit("socks5");
            reveal_strlit("http");
        }
        match selected_nick {
            Some(nick) => {
                if same_text(nick, "socks5") {
                    ProxyType::Socks5 {
                        username: String::from_str("123"),
                        password: String::from_str("123"),
                    }
                } else if same_text(nick, "http") {
                    ProxyType::Http {
                        username: String::new(),
                        password: String::new(),
                        http_only: false,
                    }
                } else {
                    ProxyType::Socks5 { username: String::new(), password: String::new() }
                }
            },
            None => ProxyType::Socks5 { username: String::new(), password: String::new() },
        }
    }

    /// What saving the dialog leads to: it sends the proxy at `address` and
    /// the port that `port_text` writes, of the selected kind, not enabled
    /// at once, for this dialog's client, and goes back to the list of
    /// proxies. The page is decided here, before and apart from the
    /// request's answer, and the dialog itself stays as it is. A port text
    /// that does not parse is refused (the dialog cannot save it).
    pub fn add_save_proxy(&self, address: String, port_text: &str, selected_nick: Option<&str>) -> (r:
        SaveProxy)
        requires
            parse_i32(port_text@) is Some,
        ensures
            r.client_id == self@,
            r.request.server@ == address@,
            Some(r.request.port) == parse_i32(port_text@),
            !r.request.enable,
            proxy_type_for(opt_text(selected_nick), r.request.proxy_type),
            r.next_page == StackPage::MainPage,
    {
        let port = match parse_port(port_text) {
            Some(p) => p,
            None => {
                assert(false);
                0
            },
        };
        let proxy_type = Self::proxy_type(selected_nick);
        SaveProxy {
            client_id: self.client_id,
            request: AddProxy { server: address, port, enable: false, proxy_type },
            next_page: StackPage::MainPage,
        }
    }
}

impl Default for ProxyHandleDialog {
    fn default() -> (r: Self)
        ensures
            r@ == 0,
    {
        ProxyHandleDialog::new()
    }
}

/// The outcome of a request as the dialog keeps it: the value on success,
/// nothing on an error.
pub fn handle_proxy_result<T, E>(result: Result<T, E>) -> (r: Option<T>)
    ensures
        match result {
            Ok(t) => r == Some(t),
            Err(_) => r is None,
        },
{
    match result {
        Err(_) => None,
        Ok(t) => Some(t),
    }
}

} // verus!
