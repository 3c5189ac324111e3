//! The replies of the server's handlers: every one is fixed, with status
//! 200.

use vstd::prelude::*;
use vstd::string::StringExecFns;

verus! {

pub const PAGE_TITLE: &'static str = "HTTP(S) Benchmark Server";

/// The page served at `/`, before its title.
pub const PAGE_HEAD: &'static str = r#"<!DOCTYPE html>
<html>
<head>
	<meta charset='utf-8'>
	<title>"#;

/// The page served at `/`, between its title and its heading.
pub const PAGE_MIDDLE: &'static str = r#"</title>
	<link rel='stylesheet' type='text/css' media='screen' href='main.css'>
	<script src='main.js'></script>
</head>
<body>
	
	<div style="text-align:center;">
		<H1>"#;

/// The page served at `/`, after its heading.
pub const PAGE_TAIL: &'static str = r#"</H1>
	</div>
</body>
</html>"#;

/// The document served at `GET /get`: a mock echo of a GET.
pub const GET_FIXTURE: &'static str = r#"{
"args": {},
"headers": {
	"Accept": "application/json",
	"Accept-Encoding": "gzip, deflate",
	"Accept-Language": "en-US,en;q=0.5",
	"Host": "www.httpbin.org",
	"Referer": "http://www.httpbin.org/",
	"User-Agent": "Mozilla/5.0 (Macintosh; Intel Mac OS X 10.14; rv:104.0) Gecko/20100101 Firefox/104.0",
	"X-Amzn-Trace-Id": "Root=1-632dce82-279a47540dd200b652a8cb02"
},
"origin": "113.200.214.222",
"url": "http://www.httpbin.org/get"
}"#;

/// The document served at `POST /post`: a mock echo of a POST.
pub const POST_FIXTURE: &'static str = r#"{
	"args": {},
	"data": "",
	"files": {},
	"form": {},
	"headers": {
		"Accept": "application/json",
		"Accept-Encoding": "gzip, deflate",
		"Accept-Language": "zh-cn",
		"Content-Length": "0",
		"Host": "httpbin.org",
		"Origin": "http://httpbin.org",
		"Referer": "http://httpbin.org/",
		"User-Agent": "Mozilla/5.0 (Macintosh; Intel Mac OS X 10_14_6) AppleWebKit/605.1.15 (KHTML, like Gecko) Version/14.1.2 Safari/605.1.15",
		"X-Amzn-Trace-Id": "Root=1-632dd138-2243642a76ba30163e857a96"
	},
	"json": null,
	"origin": "113.200.214.222",
	"url": "http://httpbin.org/put"
	}"#;

/// The document served at `PUT /put`: a mock echo of a PUT.
pub const PUT_FIXTURE: &'static str = r#"{
	"args": {},
	"data": "",
	"files": {},
	"form": {},
	"headers": {
		"Accept": "application/json",
		"Accept-Encoding": "gzip, deflate",
		"Accept-Language": "zh-cn",
		"Content-Length": "0",
		"Host": "httpbin.org",
		"Origin": "http://httpbin.org",
		"Referer": "http://httpbin.org/",
		"User-Agent": "Mozilla/5.0 (Macintosh; Intel Mac OS X 10_14_6) AppleWebKit/605.1.15 (KHTML, like Gecko) Version/14.1.2 Safari/605.1.15",
		"X-Amzn-Trace-Id": "Root=1-632dd138-2243642a76ba30163e857a96"
	},
	"json": null,
	"origin": "113.200.214.222",
	"url": "http://httpbin.org/put"
	}"#;

/// The document served at `DELETE /delete`: a mock echo of a DELETE.
pub const DELETE_FIXTURE: &'static str = r#"{
	"args": {},
	"data": "",
	"files": {},
	"form": {},
	"headers": {
		"Accept": "application/json",
		"Accept-Encoding": "gzip, deflate",
		"Accept-Language": "zh-cn",
		"Content-Length": "0",
		"Host": "httpbin.org",
		"Origin": "http://httpbin.org",
		"Referer": "http://httpbin.org/",
		"User-Agent": "Mozilla/5.0 (Macintosh; Intel Mac OS X 10_14_6) AppleWebKit/605.1.15 (KHTML, like Gecko) Version/14.1.2 Safari/605.1.15",
		"X-Amzn-Trace-Id": "Root=1-632dd138-2243642a76ba30163e857a96"
	},
	"json": null,
	"origin": "113.200.214.222",
	"url": "http://httpbin.org/put"
	}"#;

/// The page served at `/`: the title stands in its `title` element and in
/// its heading.
pub open spec fn index_page() -> Seq<char> {
    PAGE_HEAD@ + PAGE_TITLE@ + PAGE_MIDDLE@ + PAGE_TITLE@ + PAGE_TAIL@
}

pub const STATUS_OK: u16 = 200;

/// A reply: its status, its content type, if it has one, and its body.
#[derive(Clone, Debug)]
pub struct Reply {
    pub status: u16,
    pub content_type: Option<String>,
    pub body: String,
}

pub open spec fn html_type() -> Seq<char> {
    "text/html; charset=utf-8"@
}

pub open spec fn json_type() -> Seq<char> {
    "application/json"@
}

/// Relies on mime::TEXT_HTML_UTF_8, whose text is "text/html; charset=utf-8".
#[verifier::external_body]
fn html_utf8_type() -> (r: String)
    ensures
        r@ == html_type(),
{
    mime::TEXT_HTML_UTF_8.to_string()
}

/// Relies on mime::APPLICATION_JSON, whose text is "application/json".
#[verifier::external_body]
fn json_type_text() -> (r: String)
    ensures
        r@ == json_type(),
{
    mime::APPLICATION_JSON.to_string()
}

/// Whether `r` is a reply with status 200, content type `content_type` and
/// body `body`.
pub open spec fn is_ok_reply(r: Reply, content_type: Seq<char>, body: Seq<char>) -> bool {
    &&& r.status == STATUS_OK
    &&& r.content_type matches Some(t) && t@ == content_type
    &&& r.body@ == body
}

fn json_reply(body: &str) -> (r: Reply)
    ensures
        is_ok_reply(r, json_type(), body@),
{
    Reply { status: STATUS_OK, content_type: Some(json_type_text()), body: String::from_str(body) }
}

/// The reply to `GET /`: the HTML page.
pub fn index() -> (r: Reply)
    ensures
        is_ok_reply(r, html_type(), index_page()),
{
    let mut body = String::from_str(PAGE_HEAD);
    body.append(PAGE_TITLE);
    body.append(PAGE_MIDDLE);
    body.append(PAGE_TITLE);
    body.append(PAGE_TAIL);
    Reply { status: STATUS_OK, content_type: Some(html_utf8_type()), body }
}

/// The reply to `GET /get`.
pub fn bench_get() -> (r: Reply)
    ensures
        is_ok_reply(r, json_type(), GET_FIXTURE@),
{
    json_reply(GET_FIXTURE)
}

/// The reply to `POST /post`.
pub fn bench_post() -> (r: Reply)
    ensures
        is_ok_reply(r, json_type(), POST_FIXTURE@),
{
    json_reply(POST_FIXTURE)
}

/// The reply to `PUT /put`.
pub fn bench_put() -> (r: Reply)
    ensures
        is_ok_reply(r, json_type(), PUT_FIXTURE@),
{
    json_reply(PUT_FIXTURE)
}

/// The reply to `DELETE /delete`.
pub fn bench_delete() -> (r: Reply)
    ensures
        is_ok_reply(r, json_type(), DELETE_FIXTURE@),
{
    json_reply(DELETE_FIXTURE)
}

/// Whether `t` occurs in `s`.
pub open spec fn holds_text(s: Seq<char>, t: Seq<char>) -> bool {
    exists|i: int| 0 <= i <= s.len() - t.len() && #[trigger] s.subrange(i, i + t.len()) == t
}

/// The page served at `/` holds the page title.
pub proof fn index_page_holds_title()
    ensures
        holds_text(index_page(), PAGE_TITLE@),
{
    let at = PAGE_HEAD@.len() as int;
    assert(index_page().subrange(at, at + PAGE_TITLE@.len()) =~= PAGE_TITLE@);
}

} // verus!
