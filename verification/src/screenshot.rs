//! Screen capture: the device uploads a capture to the adapter, which answers with it as
//! a base64 data URL.
use vstd::prelude::*;
use vstd::string::*;
use crate::calls::{call_is, RdkCall};
use crate::codec::{json_quote, json_quoted};
use crate::text::{join2, join3, str_eq};
use base64::Engine;

verus! {

/// The address the device uploads its capture to, on the adapter at `local_ip`.
pub fn upload_url(local_ip: &str) -> (r: String)
    ensures
        r@ == "http://"@ + local_ip@ + ":7878/upload"@,
{
    join3("http://", local_ip, ":7878/upload")
}

/// A request to the adapter's upload server is an upload: a `POST` to `/upload`.
pub fn is_upload_request(method: &str, path: &str) -> (r: bool)
    ensures
        r == (method@ == "POST"@ && path@ == "/upload"@),
{
    str_eq(method, "POST") && str_eq(path, "/upload")
}

/// The call that asks the device to capture the screen and upload it to `url`.
pub fn upload_screen_capture_call(url: &str) -> (r: RdkCall)
    ensures
        call_is(r, "org.rdk.ScreenCapture.uploadScreenCapture"@,
            "{\"url\":"@ + json_quoted(url@) + ",\"callGUID\":\"12345\"}"@),
{
    let p = join3("{\"url\":", json_quote(url).as_str(), ",\"callGUID\":\"12345\"}");
    RdkCall { method: String::from_str("org.rdk.ScreenCapture.uploadScreenCapture"), params: Some(p) }
}

/// The character of the standard base64 alphabet for the six bits `v`.
pub open spec fn base64_char(v: int) -> char {
    if v < 26 {
        (v + 65) as char
    } else if v < 52 {
        (v - 26 + 97) as char
    } else if v < 62 {
        (v - 52 + 48) as char
    } else if v == 62 {
        '+'
    } else {
        '/'
    }
}

/// The standard base64 writing of `b`, padded with `=`: each group of three bytes is
/// written as four characters of six bits each, a last group of one or two bytes as two
/// or three characters followed by padding.
pub open spec fn base64_standard(b: Seq<u8>) -> Seq<char>
    decreases b.len(),
{
    if b.len() == 0 {
        Seq::empty()
    } else if b.len() == 1 {
        let n = b[0] as int;
        seq![base64_char(n / 4), base64_char((n % 4) * 16), '=', '=']
    } else if b.len() == 2 {
        let n = b[0] as int * 256 + b[1] as int;
        seq![base64_char(n / 1024), base64_char((n / 16) % 64), base64_char((n % 16) * 4), '=']
    } else {
        let n = b[0] as int * 65536 + b[1] as int * 256 + b[2] as int;
        seq![base64_char(n / 262144), base64_char((n / 4096) % 64), base64_char((n / 64) % 64),
            base64_char(n % 64)] + base64_standard(b.skip(3))
    }
}

/// Calls `base64::engine::general_purpose::STANDARD.encode`: the standard alphabet with
/// padding, as `base64_standard` writes it. The crate panics where the length of the
/// writing does not fit in a machine word, which `requires` leaves out.
#[verifier::external_body]
fn base64_encode(data: &[u8]) -> (r: String)
    requires
        data@.len() / 3 * 4 + 4 <= usize::MAX,
    ensures
        r@ == base64_standard(data@),
{
    base64::engine::general_purpose::STANDARD.encode(data)
}

/// The answer's image: the uploaded PNG capture as a base64 data URL.
pub fn screenshot_data_url(data: &[u8]) -> (r: String)
    requires
        data@.len() / 3 * 4 + 4 <= usize::MAX,
    ensures
        r@ == "data:image/png;base64,"@ + base64_standard(data@),
{
    join2("data:image/png;base64,", base64_encode(data).as_str())
}

} // verus!
