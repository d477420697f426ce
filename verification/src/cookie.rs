//! Options of the session cookie and the text of the `Set-Cookie` header
//! value that is derived from them.

use vstd::prelude::*;
use vstd::string::*;

verus! {

/// Cross-site policy of the cookie.
#[derive(Clone, Copy, Debug, PartialEq, Eq, Structural)]
pub enum SameSiteCookieOption {
    /// Sent with every request, cross-site ones included.
    Unrestricted,
    /// Withheld from cross-site subrequests.
    Lax,
    /// Sent with same-site requests only.
    Strict,
}

/// How the session cookie is written into a response.
///
/// `cookie_value` stays `None` until finalizing a session decides that a
/// cookie has to be sent; while it is `None` no header is produced.
#[derive(Clone, Debug, PartialEq, Eq)]
pub struct CookieOptions {
    pub cookie_name: String,
    pub cookie_value: Option<String>,
    pub max_age: Option<u64>,
    pub domain: Option<String>,
    pub path: Option<String>,
    pub secure: bool,
    pub http_only: bool,
    pub same_site: Option<SameSiteCookieOption>,
}

/// The mathematical content of a [`CookieOptions`]: each string as its
/// sequence of characters.
pub struct CookieOptionsView {
    pub cookie_name: Seq<char>,
    pub cookie_value: Option<Seq<char>>,
    pub max_age: Option<u64>,
    pub domain: Option<Seq<char>>,
    pub path: Option<Seq<char>>,
    pub secure: bool,
    pub http_only: bool,
    pub same_site: Option<SameSiteCookieOption>,
}

/// The characters of an optional string.
pub open spec fn text_of(s: Option<String>) -> Option<Seq<char>> {
    match s {
        Some(t) => Some(t@),
        None => None,
    }
}

impl View for CookieOptions {
    type V = CookieOptionsView;

    open spec fn view(&self) -> CookieOptionsView {
        CookieOptionsView {
            cookie_name: self.cookie_name@,
            cookie_value: text_of(self.cookie_value),
            max_age: self.max_age,
            domain: text_of(self.domain),
            path: text_of(self.path),
            secure: self.secure,
            http_only: self.http_only,
            same_site: self.same_site,
        }
    }
}

/// The options a session cookie has unless configured otherwise: named
/// `sid`, hidden from scripts, same-site only, no value to send.
pub open spec fn default_options() -> CookieOptionsView {
    CookieOptionsView {
        cookie_name: "sid"@,
        cookie_value: None,
        max_age: None,
        domain: None,
        path: None,
        secure: false,
        http_only: true,
        same_site: Some(SameSiteCookieOption::Strict),
    }
}

impl Default for CookieOptions {
    fn default() -> (r: Self)
        ensures
            r@ == default_options(),
    {
        CookieOptions {
            cookie_name: String::from_str("sid"),
            cookie_value: None,
            max_age: None,
            domain: None,
            path: None,
            secure: false,
            http_only: true,
            same_site: Some(SameSiteCookieOption::Strict),
        }
    }
}

/// The decimal digit for a number below ten.
pub open spec fn digit_char(d: nat) -> char {
    if d == 0 {
        '0'
    } else if d == 1 {
        '1'
    } else if d == 2 {
        '2'
    } else if d == 3 {
        '3'
    } else if d == 4 {
        '4'
    } else if d == 5 {
        '5'
    } else if d == 6 {
        '6'
    } else if d == 7 {
        '7'
    } else if d == 8 {
        '8'
    } else {
        '9'
    }
}

/// A number in decimal, most significant digit first, no leading zero.
pub open spec fn decimal_text(n: nat) -> Seq<char>
    decreases n,
{
    if n < 10 {
        seq![digit_char(n)]
    } else {
        decimal_text(n / 10).push(digit_char(n % 10))
    }
}

/// The text of a cross-site policy as it stands after `SameSite=`.
pub open spec fn same_site_text(policy: SameSiteCookieOption) -> Seq<char> {
    match policy {
        SameSiteCookieOption::Unrestricted => "None"@,
        SameSiteCookieOption::Lax => "Lax"@,
        SameSiteCookieOption::Strict => "Strict"@,
    }
}

/// An attribute with a textual value: `; `, the label, the value; nothing
/// when the value is absent.
pub open spec fn text_attribute(label: Seq<char>, value: Option<Seq<char>>) -> Seq<char> {
    match value {
        Some(v) => label + v,
        None => Seq::empty(),
    }
}

/// An attribute that is either present or not.
pub open spec fn flag_attribute(label: Seq<char>, on: bool) -> Seq<char> {
    if on {
        label
    } else {
        Seq::empty()
    }
}

/// The value of the `Set-Cookie` header for the given options: the name,
/// `=`, the value (empty when there is none), then the attributes that are
/// set, in the order path, domain, max-age, secure, http-only, same-site.
pub open spec fn header_text(o: CookieOptionsView) -> Seq<char> {
    let value = match o.cookie_value {
        Some(v) => v,
        None => Seq::empty(),
    };
    let max_age = match o.max_age {
        Some(n) => Some(decimal_text(n as nat)),
        None => None,
    };
    let same_site = match o.same_site {
        Some(p) => Some(same_site_text(p)),
        None => None,
    };
    o.cookie_name + "="@ + value + text_attribute("; Path="@, o.path) + text_attribute(
        "; Domain="@,
        o.domain,
    ) + text_attribute("; Max-Age="@, max_age) + flag_attribute("; Secure"@, o.secure)
        + flag_attribute("; HttpOnly"@, o.http_only) + text_attribute("; SameSite="@, same_site)
}

/// The `Set-Cookie` header value that goes out with the given options, if
/// any does: there is one exactly when the options hold a cookie value.
pub open spec fn emitted_header(o: CookieOptionsView) -> Option<Seq<char>> {
    if o.cookie_value is Some {
        Some(header_text(o))
    } else {
        None
    }
}

fn digit_str(d: u64) -> (s: &'static str)
    requires
        d < 10,
    ensures
        s@ == seq![digit_char(d as nat)],
{
    proof {
        reveal_strlit("0");
        reveal_strlit("1");
        reveal_strlit("2");
        reveal_strlit("3");
        reveal_strlit("4");
        reveal_strlit("5");
        reveal_strlit("6");
        reveal_strlit("7");
        reveal_strlit("8");
        reveal_strlit("9");
    }
    let s = if d == 0 {
        "0"
    } else if d == 1 {
        "1"
    } else if d == 2 {
        "2"
    } else if d == 3 {
        "3"
    } else if d == 4 {
        "4"
    } else if d == 5 {
        "5"
    } else if d == 6 {
        "6"
    } else if d == 7 {
        "7"
    } else if d == 8 {
        "8"
    } else {
        "9"
    };
    assert(s@ =~= seq![digit_char(d as nat)]);
    s
}

/// Appends a number in decimal to a string.
pub fn push_decimal(out: &mut String, n: u64)
    ensures
        final(out)@ == old(out)@ + decimal_text(n as nat),
    decreases n,
{
    if n >= 10 {
        push_decimal(out, n / 10);
    }
    out.append(digit_str(n % 10));
    assert(out@ =~= old(out)@ + decimal_text(n as nat));
}

fn push_text_attribute(out: &mut String, label: &str, value: &Option<String>)
    ensures
        final(out)@ == old(out)@ + text_attribute(label@, text_of(*value)),
{
    match value {
        Some(v) => {
            out.append(label);
            out.append(v.as_str());
        },
        None => {},
    }
    assert(out@ =~= old(out)@ + text_attribute(label@, text_of(*value)));
}

fn push_flag_attribute(out: &mut String, label: &str, on: bool)
    ensures
        final(out)@ == old(out)@ + flag_attribute(label@, on),
{
    if on {
        out.append(label);
    }
    assert(out@ =~= old(out)@ + flag_attribute(label@, on));
}

impl SameSiteCookieOption {
    /// The policy's name on the wire.
    pub fn as_str(&self) -> (s: &'static str)
        ensures
            s@ == same_site_text(*self),
    {
        match self {
            SameSiteCookieOption::Unrestricted => "None",
            SameSiteCookieOption::Lax => "Lax",
            SameSiteCookieOption::Strict => "Strict",
        }
    }
}

impl CookieOptions {
    /// The value of the `Set-Cookie` header that these options describe.
    pub fn header_value(&self) -> (out: String)
        ensures
            out@ == header_text(self@),
    {
        let mut out = self.cookie_name.clone();
        out.append("=");
        match &self.cookie_value {
            Some(v) => {
                out.append(v.as_str());
            },
            None => {
                assert(out@ + Seq::<char>::empty() =~= out@);
            },
        }
        push_text_attribute(&mut out, "; Path=", &self.path);
        push_text_attribute(&mut out, "; Domain=", &self.domain);
        let ghost before_age = out@;
        match self.max_age {
            Some(n) => {
                out.append("; Max-Age=");
                push_decimal(&mut out, n);
                assert(out@ =~= before_age + ("; Max-Age="@ + decimal_text(n as nat)));
            },
            None => {
                assert(out@ =~= before_age + Seq::<char>::empty());
            },
        }
        push_flag_attribute(&mut out, "; Secure", self.secure);
        push_flag_attribute(&mut out, "; HttpOnly", self.http_only);
        let ghost before_site = out@;
        match &self.same_site {
            Some(p) => {
                out.append("; SameSite=");
                out.append(p.as_str());
                assert(out@ =~= before_site + ("; SameSite="@ + same_site_text(*p)));
            },
            None => {
                assert(out@ =~= before_site + Seq::<char>::empty());
            },
        }
        out
    }

    /// The header to attach to a response: the header value when a cookie
    /// is to be sent, nothing otherwise.
    pub fn set_cookie_header(&self) -> (header: Option<String>)
        ensures
            text_of(header) == emitted_header(self@),
    {
        if self.cookie_value.is_some() {
            Some(self.header_value())
        } else {
            None
        }
    }
}

} // verus!
