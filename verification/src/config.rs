//! The hosts that are asked and the headers that go with every request.

use vstd::prelude::*;
use vstd::string::StringExecFns;

verus! {

/// The host of the listings and of the chapter pages.
pub const SITE_HOST: &'static str = "https://tw.manhuagui.com";

/// The name of the line with the number `index`; the first line stands in
/// for a number that names none.
pub open spec fn line_name(index: usize) -> Seq<char> {
    if index == 1 {
        "eu"@
    } else if index == 2 {
        "us"@
    } else {
        "i"@
    }
}

/// The host that serves the images on the line with the number `index`.
pub open spec fn tunnel_spec(index: usize) -> Seq<char> {
    "https://"@ + line_name(index) + ".hamreus.com"@
}

/// The host that serves the images on the line with the number `index`:
/// `0` for `i`, `1` for `eu`, `2` for `us`. Any other number falls back on
/// the first line.
pub fn tunnel_host(index: usize) -> (host: String)
    ensures
        host@ == tunnel_spec(index),
{
    let line = if index == 1 {
        "eu"
    } else if index == 2 {
        "us"
    } else {
        "i"
    };
    String::from_str("https://").concat(line).concat(".hamreus.com")
}

/// A header of a request.
#[derive(Debug, Clone, PartialEq, Eq)]
pub struct Header {
    pub name: String,
    pub value: String,
}

/// A [`Header`] over sequences of characters.
pub struct HeaderSpec {
    pub name: Seq<char>,
    pub value: Seq<char>,
}

impl DeepView for Header {
    type V = HeaderSpec;

    open spec fn deep_view(&self) -> HeaderSpec {
        HeaderSpec { name: self.name@, value: self.value@ }
    }
}

/// The headers that go with every request, in the order in which they are
/// set.
pub open spec fn headers_spec() -> Seq<HeaderSpec> {
    seq![
        HeaderSpec { name: "accept"@, value: "image/webp,image/apng,image/*,*/*;q=0.8"@ },
        HeaderSpec { name: "accept-encoding"@, value: "gzip, deflate, br"@ },
        HeaderSpec {
            name: "accept-language"@,
            value: "zh-TW,zh;q=0.9,en-US;q=0.8,en;q=0.7,zh-CN;q=0.6"@,
        },
        HeaderSpec { name: "cache-control"@, value: "no-cache"@ },
        HeaderSpec { name: "pragma"@, value: "no-cache"@ },
        HeaderSpec { name: "referer"@, value: "https://www.manhuagui.com/"@ },
        HeaderSpec { name: "sec-fetch-dest"@, value: "image"@ },
        HeaderSpec { name: "sec-fetch-mode"@, value: "no-cors"@ },
        HeaderSpec { name: "sec-fetch-site"@, value: "cross-site"@ },
        HeaderSpec {
            name: "user-agent"@,
            value: "Mozilla/5.0 (Windows NT 10.0; Win64; x64) AppleWebKit/537.36 (KHTML, like Gecko) Chrome/81.0.4044.129 Safari/537.36"@,
        },
    ]
}

/// The header with this name and this value.
fn header(name: &str, value: &str) -> (header: Header)
    ensures
        header.deep_view() == (HeaderSpec { name: name@, value: value@ }),
{
    Header { name: String::from_str(name), value: String::from_str(value) }
}

/// The headers that go with every request: what is accepted, no caching,
/// the site as referer, and a fixed user agent.
pub fn request_headers() -> (headers: Vec<Header>)
    ensures
        headers.deep_view() == headers_spec(),
{
    let mut headers: Vec<Header> = Vec::new();
    headers.push(header("accept", "image/webp,image/apng,image/*,*/*;q=0.8"));
    headers.push(header("accept-encoding", "gzip, deflate, br"));
    headers.push(header("accept-language", "zh-TW,zh;q=0.9,en-US;q=0.8,en;q=0.7,zh-CN;q=0.6"));
    headers.push(header("cache-control", "no-cache"));
    headers.push(header("pragma", "no-cache"));
    headers.push(header("referer", "https://www.manhuagui.com/"));
    headers.push(header("sec-fetch-dest", "image"));
    headers.push(header("sec-fetch-mode", "no-cors"));
    headers.push(header("sec-fetch-site", "cross-site"));
    headers.push(
        header(
            "user-agent",
            "Mozilla/5.0 (Windows NT 10.0; Win64; x64) AppleWebKit/537.36 (KHTML, like Gecko) Chrome/81.0.4044.129 Safari/537.36",
        ),
    );
    assert(headers.deep_view() =~= headers_spec());
    headers
}

} // verus!
