//! The content-security scan client's data model and request framing.
//!
//! A scan call carries a fresh transaction id, the configured caller profile,
//! and four content fields; the service rejects empty strings, so every field
//! is normalized to the `N/A` sentinel before it is framed. The envelope is
//! built here as verified JSON text; the transport (headers, TLS, the POST
//! itself) stays outside the library.

use vstd::prelude::*;
use vstd::string::*;
use crate::chat::empty_marker;
use crate::jsontext::{esc, json_escape};

verus! {

/// Detection flags the scanner reports for the prompt side.
#[derive(Debug)]
pub struct PromptDetection {
    pub dlp: bool,
    pub injection: bool,
    pub malicious_code: bool,
    pub toxic_content: bool,
    pub url_cats: bool,
}

/// Detection flags the scanner reports for the response side.
#[derive(Debug)]
pub struct ResponseDetection {
    pub dlp: bool,
    pub malicious_code: bool,
    pub toxic_content: bool,
    pub url_cats: bool,
}

/// A scan verdict as returned by the security service. The binding decision
/// is `action`; the detection flags are informational.
#[derive(Debug)]
pub struct ScanResponse {
    pub action: String,
    pub category: String,
    pub prompt_detected: PromptDetection,
    pub response_detected: ResponseDetection,
    pub report_id: String,
    pub scan_id: String,
    pub tr_id: String,
    pub profile_id: String,
    pub profile_name: String,
}

/// Why a scan call failed. `Protocol` keeps the raw response body for
/// diagnostics.
#[derive(Debug)]
pub enum ScanError {
    Configuration,
    Transport,
    Protocol { body: String },
    Decode,
}

/// The scanner credentials and caller profile, loaded once at startup.
#[derive(Debug)]
pub struct ScanConfig {
    pub token: String,
    pub profile_id: String,
    pub profile_name: String,
}

impl ScanConfig {
    /// Validates the three required environment-sourced values; any missing
    /// one is a configuration error.
    pub fn from_env_values(
        token: Option<String>,
        profile_id: Option<String>,
        profile_name: Option<String>,
    ) -> (r: Result<ScanConfig, ScanError>)
        ensures
            r is Ok <==> (token is Some && profile_id is Some && profile_name is Some),
            r matches Ok(c) ==> c.token@ == token->0@ && c.profile_id@ == profile_id->0@
                && c.profile_name@ == profile_name->0@,
            r matches Err(e) ==> e is Configuration,
    {
        match (token, profile_id, profile_name) {
            (Some(token), Some(profile_id), Some(profile_name)) => Ok(ScanConfig {
                token,
                profile_id,
                profile_name,
            }),
            _ => Err(ScanError::Configuration),
        }
    }
}

/// A character the normalization treats as whitespace: the Unicode
/// White_Space set, exactly what `str::trim` removes.
pub open spec fn is_space_char(c: char) -> bool {
    let n: u32 = c as u32;
    n == 0x20 || n == 0x09 || n == 0x0A || n == 0x0D || n == 0x0B || n == 0x0C || n == 0x85 || n
        == 0xA0 || n == 0x1680 || (0x2000 <= n && n <= 0x200A) || n == 0x2028 || n == 0x2029 || n
        == 0x202F || n == 0x205F || n == 0x3000
}

/// Whether `c` is whitespace, as `is_space_char` (and `str::trim`) judges it.
fn is_space(c: char) -> (r: bool)
    ensures
        r == is_space_char(c),
{
    let n: u32 = c as u32;
    n == 0x20 || n == 0x09 || n == 0x0A || n == 0x0D || n == 0x0B || n == 0x0C || n == 0x85 || n
        == 0xA0 || n == 0x1680 || (0x2000 <= n && n <= 0x200A) || n == 0x2028 || n == 0x2029 || n
        == 0x202F || n == 0x205F || n == 0x3000
}

/// A sequence with nothing but whitespace in it.
pub open spec fn blank(s: Seq<char>) -> bool {
    forall|i: int| 0 <= i < s.len() ==> is_space_char(s[i])
}

/// Normalization to the sentinel: blank content becomes the empty marker.
pub open spec fn normalize_spec(s: Seq<char>) -> Seq<char> {
    if blank(s) {
        empty_marker()
    } else {
        s
    }
}

/// Replaces blank content by the empty marker; the result is never blank.
pub fn normalize(s: String) -> (r: String)
    ensures
        r@ == normalize_spec(s@),
        !blank(r@),
{
    let sl = s.as_str();
    let n = sl.unicode_len();
    let mut i: usize = 0;
    while i < n
        invariant
            i <= n,
            n == s@.len(),
            sl@ == s@,
            forall|j: int| 0 <= j < i ==> is_space_char(s@[j]),
        decreases n - i,
    {
        let c = sl.get_char(i);
        if !is_space(c) {
            return s;
        }
        i = i + 1;
    }
    proof {
        reveal_strlit("N/A");
        assert(!is_space_char("N/A"@[0]));
    }
    "N/A".to_owned()
}

/// The four content fields of one scan call, each normalized on entry.
#[derive(Debug)]
pub struct ScanContent {
    pub prompt: String,
    pub response: String,
    pub code_prompt: String,
    pub code_response: String,
}

impl ScanContent {
    /// All four fields are normalized, so the scanner never sees an empty
    /// string.
    pub open spec fn wf(&self) -> bool {
        !blank(self.prompt@) && !blank(self.response@) && !blank(self.code_prompt@) && !blank(
            self.code_response@,
        )
    }

    /// Builds the content for one scan call, normalizing every field.
    pub fn new(prompt: String, response: String, code_prompt: String, code_response: String) -> (c:
        ScanContent)
        ensures
            c.prompt@ == normalize_spec(prompt@),
            c.response@ == normalize_spec(response@),
            c.code_prompt@ == normalize_spec(code_prompt@),
            c.code_response@ == normalize_spec(code_response@),
            c.wf(),
    {
        ScanContent {
            prompt: normalize(prompt),
            response: normalize(response),
            code_prompt: normalize(code_prompt),
            code_response: normalize(code_response),
        }
    }
}

/// The scan-request envelope as JSON text: transaction id, caller profile,
/// fixed application metadata, and the four content fields, every embedded
/// string escaped.
pub open spec fn envelope_spec(
    profile_id: Seq<char>,
    profile_name: Seq<char>,
    tr_id: Seq<char>,
    prompt: Seq<char>,
    response: Seq<char>,
    code_prompt: Seq<char>,
    code_response: Seq<char>,
) -> Seq<char> {
    "{\"tr_id\":\""@ + esc(tr_id) + "\",\"ai_profile\":{\"profile_id\":\""@ + esc(profile_id)
        + "\",\"profile_name\":\""@ + esc(profile_name)
        + "\"},\"metadata\":{\"app_name\":\"proxy\",\"app_user\":\"user_dam\",\"ai_model\":\"Ollama3\"},\"contents\":[{\"prompt\":\""@
        + esc(prompt) + "\",\"response\":\""@ + esc(response) + "\",\"code_prompt\":\""@
        + esc(code_prompt) + "\",\"code_response\":\""@ + esc(code_response) + "\"}]}"@
}

/// Frames one scan request as JSON bytes-to-be: the caller profile from the
/// configuration, the given transaction id, and the (normalized) content.
pub fn build_scan_envelope(cfg: &ScanConfig, tr_id: &str, content: &ScanContent) -> (r: String)
    ensures
        r@ == envelope_spec(
            cfg.profile_id@,
            cfg.profile_name@,
            tr_id@,
            content.prompt@,
            content.response@,
            content.code_prompt@,
            content.code_response@,
        ),
{
    let mut out = String::new();
    out.append("{\"tr_id\":\"");
    let e_tr = json_escape(tr_id);
    out.append(e_tr.as_str());
    out.append("\",\"ai_profile\":{\"profile_id\":\"");
    let e_pid = json_escape(cfg.profile_id.as_str());
    out.append(e_pid.as_str());
    out.append("\",\"profile_name\":\"");
    let e_pn = json_escape(cfg.profile_name.as_str());
    out.append(e_pn.as_str());
    out.append(
        "\"},\"metadata\":{\"app_name\":\"proxy\",\"app_user\":\"user_dam\",\"ai_model\":\"Ollama3\"},\"contents\":[{\"prompt\":\"",
    );
    let e_p = json_escape(content.prompt.as_str());
    out.append(e_p.as_str());
    out.append("\",\"response\":\"");
    let e_r = json_escape(content.response.as_str());
    out.append(e_r.as_str());
    out.append("\",\"code_prompt\":\"");
    let e_cp = json_escape(content.code_prompt.as_str());
    out.append(e_cp.as_str());
    out.append("\",\"code_response\":\"");
    let e_cr = json_escape(content.code_response.as_str());
    out.append(e_cr.as_str());
    out.append("\"}]}");
    proof {
        assert(out@ =~= envelope_spec(
            cfg.profile_id@,
            cfg.profile_name@,
            tr_id@,
            content.prompt@,
            content.response@,
            content.code_prompt@,
            content.code_response@,
        ));
    }
    out
}

/// Relies on `uuid::Uuid::new_v4` and its `Display` form: a freshly drawn
/// random UUID, written hyphenated as 36 characters. The value is random,
/// so nothing beyond its length is stated.
#[verifier::external_body]
pub fn fresh_tr_id() -> (r: String)
    ensures
        r@.len() == 36,
{
    uuid::Uuid::new_v4().to_string()
}

/// Sorts the scanner's HTTP reply: only status 200 carries a verdict; any
/// other status is a protocol error that keeps the body for diagnostics.
pub fn classify_scan_status(status: u16, body: String) -> (r: Result<String, ScanError>)
    ensures
        r is Ok <==> status == 200,
        r matches Ok(b) ==> b@ == body@,
        r matches Err(e) ==> e matches ScanError::Protocol { body: pb } && pb@ == body@,
{
    if status == 200 {
        Ok(body)
    } else {
        Err(ScanError::Protocol { body })
    }
}

} // verus!
