//! What goes into the HTTP request that opens a conversation: the cookie
//! header, the request headers, and the paths of the configuration files.

use vstd::prelude::*;
use rand::Rng;
use crate::text::{chars_of, decimal, push_decimal};

verus! {

// ---------------------------------------------------------------------------
// Paths.

/// Why a path could not be made absolute.
#[derive(Debug, Clone, Copy, PartialEq, Eq, Structural)]
pub enum PathError {
    /// The path starts with `~` and no home directory is known.
    NoHomeDirectory,
}

impl PathError {
    /// The text that reports this error to the user.
    pub fn message(&self) -> (r: String)
        ensures
            r@ == "Cannot find user home directory, please specify absolute path"@,
    {
        "Cannot find user home directory, please specify absolute path".to_owned()
    }
}

/// `p` without its leading `~` characters.
pub open spec fn drop_tildes(p: Seq<char>) -> Seq<char>
    decreases p.len(),
{
    if p.len() > 0 && p[0] == '~' {
        drop_tildes(p.drop_first())
    } else {
        p
    }
}

/// The path `path` once a leading `~` stands for the home directory `home`
/// (every leading `~` is replaced by one `home`); an error when there is a
/// `~` to replace and `home` is empty.
pub open spec fn expand_home(path: Seq<char>, home: Seq<char>) -> Result<Seq<char>, PathError> {
    if path.len() > 0 && path[0] == '~' {
        if home.len() == 0 {
            Err(PathError::NoHomeDirectory)
        } else {
            Ok(home + drop_tildes(path))
        }
    } else {
        Ok(path)
    }
}

proof fn lemma_drop_tildes_skip(p: Seq<char>, i: int)
    requires
        0 <= i <= p.len(),
        forall|k: int| 0 <= k < i ==> #[trigger] p[k] == '~',
        i == p.len() || p[i] != '~',
    ensures
        drop_tildes(p) == p.subrange(i, p.len() as int),
    decreases i,
{
    if i == 0 {
        assert(p.subrange(0, p.len() as int) =~= p);
    } else {
        let t = p.drop_first();
        assert forall|k: int| 0 <= k < i - 1 implies #[trigger] t[k] == '~' by {
            assert(t[k] == p[k + 1]);
        }
        lemma_drop_tildes_skip(t, i - 1);
        assert(t.subrange(i - 1, t.len() as int) =~= p.subrange(i, p.len() as int));
    }
}

/// The path `path` made absolute with the home directory `home` (the caller
/// looks `home` up in the environment, empty when it is unknown).
pub fn get_path(path: &str, home: &str) -> (r: Result<String, PathError>)
    ensures
        match r {
            Ok(s) => expand_home(path@, home@) == Ok::<Seq<char>, PathError>(s@),
            Err(e) => expand_home(path@, home@) == Err::<Seq<char>, PathError>(e),
        },
{
    let v = chars_of(path);
    let n = v.len();
    if n > 0 && v[0] == '~' {
        if home.is_empty() {
            return Err(PathError::NoHomeDirectory);
        }
        let mut i: usize = 0;
        while i < n && v[i] == '~'
            invariant
                i <= n,
                n == v@.len(),
                forall|k: int| 0 <= k < i ==> #[trigger] v@[k] == '~',
            decreases n - i,
        {
            i = i + 1;
        }
        proof {
            lemma_drop_tildes_skip(path@, i as int);
        }
        let mut r = home.to_owned();
        r.append(path.substring_char(i, n));
        Ok(r)
    } else {
        Ok(path.to_owned())
    }
}

// ---------------------------------------------------------------------------
// Cookies.

/// A cookie as the browser exports it.
#[derive(Debug, Clone)]
pub struct Cookie {
    pub name: String,
    pub value: String,
}

/// `name=value`.
pub open spec fn cookie_pair(c: Cookie) -> Seq<char> {
    c.name@ + "="@ + c.value@
}

/// The pieces of `parts`, with `sep` between each two.
pub open spec fn joined(parts: Seq<Seq<char>>, sep: Seq<char>) -> Seq<char>
    decreases parts.len(),
{
    if parts.len() == 0 {
        Seq::empty()
    } else if parts.len() == 1 {
        parts[0]
    } else {
        joined(parts.drop_last(), sep) + sep + parts.last()
    }
}

/// The `Cookie` header that sends `cookies`: each `name=value`, separated
/// by `; `.
pub open spec fn cookie_header_text(cookies: Seq<Cookie>) -> Seq<char> {
    joined(cookies.map_values(|c: Cookie| cookie_pair(c)), "; "@)
}

/// The `Cookie` header that sends `cookies`.
pub fn cookie_header(cookies: &Vec<Cookie>) -> (r: String)
    ensures
        r@ == cookie_header_text(cookies@),
{
    let ghost parts = cookies@.map_values(|c: Cookie| cookie_pair(c));
    let mut r = String::new();
    let n = cookies.len();
    let mut i: usize = 0;
    while i < n
        invariant
            i <= n,
            n == cookies@.len(),
            parts == cookies@.map_values(|c: Cookie| cookie_pair(c)),
            r@ == joined(parts.take(i as int), "; "@),
        decreases n - i,
    {
        let c = &cookies[i];
        if i > 0 {
            r.append("; ");
        }
        r.append(c.name.as_str());
        r.append("=");
        r.append(c.value.as_str());
        proof {
            let t = parts.take(i + 1);
            assert(t.drop_last() =~= parts.take(i as int));
            assert(t.last() == cookie_pair(cookies@[i as int]));
            assert(r@ =~= joined(t, "; "@));
        }
        i = i + 1;
    }
    assert(parts.take(n as int) =~= parts);
    r
}

// ---------------------------------------------------------------------------
// Request headers.

/// `13.a.b.c`: a forwarded address in the range that the service accepts.
pub open spec fn forwarded_ip_text(a: nat, b: nat, c: nat) -> Seq<char> {
    "13."@ + decimal(a) + "."@ + decimal(b) + "."@ + decimal(c)
}

/// Whether `s` is `13.a.b.c` with `a` in 104..107 and `b`, `c` in 1..255.
pub open spec fn is_forwarded_ip(s: Seq<char>) -> bool {
    exists|a: nat, b: nat, c: nat|
        104 <= a < 107 && 1 <= b < 255 && 1 <= c < 255 && s == #[trigger] forwarded_ip_text(
            a,
            b,
            c,
        )
}

/// Calls `rand::thread_rng().gen_range(low..high)`: a random number in
/// `low..high` (the range must not be empty, else the call panics).
#[verifier::external_body]
fn random_in(low: u32, high: u32) -> (r: u32)
    requires
        low < high,
    ensures
        low <= r < high,
{
    rand::thread_rng().gen_range(low..high)
}

/// The forwarded address `13.a.b.c`.
pub fn forwarded_ip(a: u32, b: u32, c: u32) -> (r: String)
    ensures
        r@ == forwarded_ip_text(a as nat, b as nat, c as nat),
{
    let mut r = "13.".to_owned();
    push_decimal(&mut r, a as u64);
    r.append(".");
    push_decimal(&mut r, b as u64);
    r.append(".");
    push_decimal(&mut r, c as u64);
    r
}

/// A random forwarded address in the range that the service accepts.
pub fn get_random_forwarded_ip() -> (r: String)
    ensures
        is_forwarded_ip(r@),
{
    let a = random_in(104, 107);
    let b = random_in(1, 255);
    let c = random_in(1, 255);
    let r = forwarded_ip(a, b, c);
    assert(104 <= a < 107 && 1 <= b < 255 && 1 <= c < 255 && r@ == forwarded_ip_text(
        a as nat,
        b as nat,
        c as nat,
    ));
    r
}

/// Whether `c` is a lowercase hexadecimal digit.
pub open spec fn is_lower_hex(c: char) -> bool {
    ('0' <= c && c <= '9') || ('a' <= c && c <= 'f')
}

/// Whether `s` is a random (version 4) UUID in lowercase hyphenated form:
/// 36 characters, hyphens at 8, 13, 18 and 23, hexadecimal digits elsewhere,
/// the version digit `4` at 14 and a variant digit among `8`, `9`, `a`, `b`
/// at 19.
pub open spec fn is_uuid_v4_text(s: Seq<char>) -> bool {
    &&& s.len() == 36
    &&& forall|i: int|
        0 <= i < 36 ==> if i == 8 || i == 13 || i == 18 || i == 23 {
            #[trigger] s[i] == '-'
        } else {
            is_lower_hex(s[i])
        }
    &&& s[14] == '4'
    &&& (s[19] == '8' || s[19] == '9' || s[19] == 'a' || s[19] == 'b')
}

/// Calls `uuid::Uuid::new_v4().to_string()`: a random UUID of version 4,
/// written in lowercase hyphenated form.
#[verifier::external_body]
fn new_request_id() -> (r: String)
    ensures
        is_uuid_v4_text(r@),
{
    uuid::Uuid::new_v4().to_string()
}

/// The view of a list of headers.
pub open spec fn headers_view(v: Seq<(String, String)>) -> Seq<(Seq<char>, Seq<char>)> {
    v.map_values(|h: (String, String)| (h.0@, h.1@))
}

/// The headers of the request that opens a conversation, in order: those of
/// the browser it passes for, a request id, a forwarded address, and the
/// cookies.
pub open spec fn request_headers(cookie: Seq<char>, request_id: Seq<char>, ip: Seq<char>) -> Seq<
    (Seq<char>, Seq<char>),
> {
    seq![
        ("accept"@, "application/json"@),
        ("accept-language"@, "en-US,en;q=0.9"@),
        ("content-type"@, "application/json"@),
        ("sec-ch-ua"@, "\"Not_A Brand\";v=\"99\", \"Microsoft Edge\";v=\"109\", \"Chromium\";v=\"109\""@),
        ("sec-ch-ua-arch"@, "\"x86\""@),
        ("sec-ch-ua-bitness"@, "\"64\""@),
        ("sec-ch-ua-full-version"@, "\"109.0.1518.78\""@),
        ("sec-ch-ua-full-version-list"@, "\"Not_A Brand\";v=\"99.0.0.0\", \"Microsoft Edge\";v=\"109.0.1518.78\", \"Chromium\";v=\"109.0.5414.120\""@),
        ("sec-ch-ua-mobile"@, "?0"@),
        ("sec-ch-ua-model"@, ""@),
        ("sec-ch-ua-platform"@, "\"Windows\""@),
        ("sec-ch-ua-platform-version"@, "\"15.0.0\""@),
        ("sec-fetch-dest"@, "empty"@),
        ("sec-fetch-mode"@, "cors"@),
        ("sec-fetch-site"@, "same-origin"@),
        ("x-ms-client-request-id"@, request_id),
        ("x-ms-useragent"@, "azsdk-js-api-client-factory/1.0.0-beta.1 core-rest-pipeline/1.10.0 OS/Win32"@),
        ("Referer"@, "https://www.bing.com/search?q=Bing+AI&showconv=1&FORM=hpcodx"@),
        ("Referrer-Policy"@, "origin-when-cross-origin"@),
        ("x-forwarded-for"@, ip),
        ("Cookie"@, cookie),
    ]
}

fn push_header(v: &mut Vec<(String, String)>, name: &str, value: &str)
    ensures
        headers_view(final(v)@) == headers_view(old(v)@).push((name@, value@)),
{
    v.push((name.to_owned(), value.to_owned()));
    assert(headers_view(v@) =~= headers_view(old(v)@).push((name@, value@)));
}

/// The headers of the request that opens a conversation, with the given
/// cookie header, request id and forwarded address.
pub fn header_list(cookie: &str, request_id: &str, ip: &str) -> (r: Vec<(String, String)>)
    ensures
        headers_view(r@) == request_headers(cookie@, request_id@, ip@),
{
    let mut v: Vec<(String, String)> = Vec::new();
    assert(headers_view(v@) =~= Seq::<(Seq<char>, Seq<char>)>::empty());
    push_header(&mut v, "accept", "application/json");
    push_header(&mut v, "accept-language", "en-US,en;q=0.9");
    push_header(&mut v, "content-type", "application/json");
    push_header(&mut v, "sec-ch-ua", "\"Not_A Brand\";v=\"99\", \"Microsoft Edge\";v=\"109\", \"Chromium\";v=\"109\"");
    push_header(&mut v, "sec-ch-ua-arch", "\"x86\"");
    push_header(&mut v, "sec-ch-ua-bitness", "\"64\"");
    push_header(&mut v, "sec-ch-ua-full-version", "\"109.0.1518.78\"");
    push_header(&mut v, "sec-ch-ua-full-version-list", "\"Not_A Brand\";v=\"99.0.0.0\", \"Microsoft Edge\";v=\"109.0.1518.78\", \"Chromium\";v=\"109.0.5414.120\"");
    push_header(&mut v, "sec-ch-ua-mobile", "?0");
    push_header(&mut v, "sec-ch-ua-model", "");
    push_header(&mut v, "sec-ch-ua-platform", "\"Windows\"");
    push_header(&mut v, "sec-ch-ua-platform-version", "\"15.0.0\"");
    push_header(&mut v, "sec-fetch-dest", "empty");
    push_header(&mut v, "sec-fetch-mode", "cors");
    push_header(&mut v, "sec-fetch-site", "same-origin");
    push_header(&mut v, "x-ms-client-request-id", request_id);
    push_header(&mut v, "x-ms-useragent", "azsdk-js-api-client-factory/1.0.0-beta.1 core-rest-pipeline/1.10.0 OS/Win32");
    push_header(&mut v, "Referer", "https://www.bing.com/search?q=Bing+AI&showconv=1&FORM=hpcodx");
    push_header(&mut v, "Referrer-Policy", "origin-when-cross-origin");
    push_header(&mut v, "x-forwarded-for", ip);
    push_header(&mut v, "Cookie", cookie);
    v
}

/// The headers of the request that opens a conversation, with the cookie
/// header `cookie`, a fresh random request id and a random forwarded
/// address.
pub fn get_header(cookie: &str) -> (r: Vec<(String, String)>)
    ensures
        exists|id: Seq<char>, ip: Seq<char>|
            is_uuid_v4_text(id) && is_forwarded_ip(ip) && headers_view(r@) == #[trigger] request_headers(
                cookie@,
                id,
                ip,
            ),
{
    let id = new_request_id();
    let ip = get_random_forwarded_ip();
    let r = header_list(cookie, id.as_str(), ip.as_str());
    assert(headers_view(r@) == request_headers(cookie@, id@, ip@));
    r
}

/// The cookie that the earlier request form always sends.
pub const FIXED_COOKIE: &'static str = "_U=1L4rfeU0UdJbXsieeB8lKemROH4O_i8iqVJZBv9j0t9jrHBmvxOFsGVOTpXAB6KglADDSDlWPxtu8NDZdH5szy0GNtMfxEP0AmDvZ7fbqCxcZjKs1kwSirN3-RkvzPzwFdjtEsitWDKqrY5Pg6bjhQPiUEe7ouDDU1s3s8iZPbhZMWJ6GQEHWVuw9VElC4aIzYnc9QdEPhmii3yhs2lzN-A";

/// The headers of the earlier request form, in order: those of the browser
/// it passes for, and a fixed cookie.
pub open spec fn fixed_headers() -> Seq<(Seq<char>, Seq<char>)> {
    seq![
        ("user-agent"@, "Mozilla/5.0 (Windows NT 10.0; Win64; x64) AppleWebKit/537.36 (KHTML, like Gecko) Chrome/110.0.0.0 Safari/537.36 Edg/110.0.1587.41"@),
        ("origin"@, "https://www.bing.com"@),
        ("referer"@, "https://www.bing.com/"@),
        ("sec-ch-ua"@, "\"Chromium\";v=\"110\", \"Not A(Brand\";v=\"24\", \"Microsoft Edge\";v=\"110\""@),
        ("sec-ch-ua-platform"@, "Windows"@),
        ("Cookie"@, FIXED_COOKIE@),
    ]
}

/// The headers of the earlier request form.
pub fn fixed_header_list() -> (r: Vec<(String, String)>)
    ensures
        headers_view(r@) == fixed_headers(),
{
    let mut v: Vec<(String, String)> = Vec::new();
    assert(headers_view(v@) =~= Seq::<(Seq<char>, Seq<char>)>::empty());
    push_header(&mut v, "user-agent", "Mozilla/5.0 (Windows NT 10.0; Win64; x64) AppleWebKit/537.36 (KHTML, like Gecko) Chrome/110.0.0.0 Safari/537.36 Edg/110.0.1587.41");
    push_header(&mut v, "origin", "https://www.bing.com");
    push_header(&mut v, "referer", "https://www.bing.com/");
    push_header(&mut v, "sec-ch-ua", "\"Chromium\";v=\"110\", \"Not A(Brand\";v=\"24\", \"Microsoft Edge\";v=\"110\"");
    push_header(&mut v, "sec-ch-ua-platform", "Windows");
    push_header(&mut v, "Cookie", FIXED_COOKIE);
    v
}

} // verus!
