use vstd::prelude::*;

verus! {

/// Status the service answers when the rule set has not changed since the
/// tag that the request carried.
pub const NOT_MODIFIED: u16 = 304;

/// Whether an HTTP status is in the success class (200 to 299).
pub open spec fn success_status(status: u16) -> bool {
    200 <= status && status <= 299
}

/// Whether an HTTP status is in the success class.
pub fn is_success(status: u16) -> (r: bool)
    ensures
        r == success_status(status),
{
    200 <= status && status <= 299
}

/// The decimal digit `d` as a character.
pub open spec fn digit_char(d: nat) -> char {
    if d == 0 {
        '0'
    } else if d == 1 {
        '1'
    } else if d == 2 {
        '2'
    } else if d == 3 {
        '3'
    } else if d == 4 {
        '4'
    } else if d == 5 {
        '5'
    } else if d == 6 {
        '6'
    } else if d == 7 {
        '7'
    } else if d == 8 {
        '8'
    } else {
        '9'
    }
}

/// Decimal notation of `n`, without leading zeros.
pub open spec fn decimal(n: nat) -> Seq<char>
    decreases n,
{
    if n < 10 {
        seq![digit_char(n)]
    } else {
        decimal(n / 10).push(digit_char(n % 10))
    }
}

fn digit_str(d: u64) -> (r: &'static str)
    requires
        d < 10,
    ensures
        r@ == seq![digit_char(d as nat)],
{
    if d == 0 {
        proof { reveal_strlit("0"); }
        "0"
    } else if d == 1 {
        proof { reveal_strlit("1"); }
        "1"
    } else if d == 2 {
        proof { reveal_strlit("2"); }
        "2"
    } else if d == 3 {
        proof { reveal_strlit("3"); }
        "3"
    } else if d == 4 {
        proof { reveal_strlit("4"); }
        "4"
    } else if d == 5 {
        proof { reveal_strlit("5"); }
        "5"
    } else if d == 6 {
        proof { reveal_strlit("6"); }
        "6"
    } else if d == 7 {
        proof { reveal_strlit("7"); }
        "7"
    } else if d == 8 {
        proof { reveal_strlit("8"); }
        "8"
    } else {
        proof { reveal_strlit("9"); }
        "9"
    }
}

/// Decimal notation of `n`.
pub fn decimal_string(n: u64) -> (r: String)
    ensures
        r@ == decimal(n as nat),
    decreases n,
{
    if n < 10 {
        String::from_str(digit_str(n))
    } else {
        let mut s = decimal_string(n / 10);
        s.append(digit_str(n % 10));
        s
    }
}

/// `<what>. Status: <status>, body: <body>`: the detail of an error that
/// reports an unexpected answer.
pub open spec fn status_detail(what: Seq<char>, status: u16, body: Seq<char>) -> Seq<char> {
    what + ". Status: "@ + decimal(status as nat) + ", body: "@ + body
}

/// The detail of an error that reports an unexpected answer.
pub fn describe_status(what: &str, status: u16, body: &str) -> (r: String)
    ensures
        r@ == status_detail(what@, status, body@),
{
    let mut s = String::from_str(what);
    s.append(". Status: ");
    let code = decimal_string(status as u64);
    s.append(code.as_str());
    s.append(", body: ");
    s.append(body);
    s
}

/// Request method.
#[derive(Debug, Clone, Copy, PartialEq, Eq)]
pub enum Method {
    Get,
    Post,
}

/// A request to perform: method, full URL, headers in order, and the fields
/// of a form body (empty when the request has no form body).
#[derive(Debug)]
pub struct HttpRequest {
    pub method: Method,
    pub url: String,
    pub headers: Vec<(String, String)>,
    pub form: Vec<(String, String)>,
}

/// The pair `(name, value)` as plain text.
pub open spec fn text_pair(p: (String, String)) -> (Seq<char>, Seq<char>) {
    (p.0@, p.1@)
}

/// The headers of a request, as plain text.
pub open spec fn headers_of(req: HttpRequest) -> Seq<(Seq<char>, Seq<char>)> {
    req.headers@.map_values(|p: (String, String)| text_pair(p))
}

/// The form fields of a request, as plain text.
pub open spec fn form_of(req: HttpRequest) -> Seq<(Seq<char>, Seq<char>)> {
    req.form@.map_values(|p: (String, String)| text_pair(p))
}

/// A pair of strings built from two string slices.
pub fn pair(name: &str, value: &str) -> (r: (String, String))
    ensures
        text_pair(r) == (name@, value@),
{
    (String::from_str(name), String::from_str(value))
}

/// The URL of `path` on the service at `base`.
pub fn endpoint(base: &String, path: &str) -> (r: String)
    ensures
        r@ == base@ + path@,
{
    base.clone().concat(path)
}

} // verus!
