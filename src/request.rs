//! The request sent to the completion service.
use vstd::prelude::*;

verus! {

/// The endpoint that completes chat requests.
pub const COMPLETIONS_URL: &'static str = "https://api.openai.com/v1/chat/completions";

/// The model asked for the completion.
pub const MODEL: &'static str = "gpt-3.5-turbo";

/// The lower-case hexadecimal digit for `d`, where `d < 16`.
pub open spec fn hex_digit(d: u32) -> char {
    if d < 10 {
        ((d + 48) as u8) as char
    } else {
        ((d + 87) as u8) as char
    }
}

/// How one character stands inside a JSON string literal: the quote, the
/// backslash and the control characters are escaped, all others stand as they are.
pub open spec fn json_escape(c: char) -> Seq<char> {
    if c == '"' {
        seq!['\\', '"']
    } else if c == '\\' {
        seq!['\\', '\\']
    } else if c == '\u{8}' {
        seq!['\\', 'b']
    } else if c == '\t' {
        seq!['\\', 't']
    } else if c == '\n' {
        seq!['\\', 'n']
    } else if c == '\u{c}' {
        seq!['\\', 'f']
    } else if c == '\r' {
        seq!['\\', 'r']
    } else if (c as u32) < 0x20 {
        seq!['\\', 'u', '0', '0', hex_digit((c as u32) / 16), hex_digit((c as u32) % 16)]
    } else {
        seq![c]
    }
}

/// The JSON string literal that encodes `s`.
pub open spec fn json_string(s: Seq<char>) -> Seq<char> {
    seq!['"'] + s.map_values(|c: char| json_escape(c)).flatten() + seq!['"']
}

/// Relies on serde_json::to_string on a `str`: a quote, each character
/// escaped by serde_json's escape table, a quote. Encoding a string into
/// memory does not fail.
#[verifier::external_body]
fn encode_json_string(s: &str) -> (r: String)
    ensures
        r@ == json_string(s@),
{
    serde_json::to_string(s).unwrap_or_default()
}

/// Text of the system instruction, before and after the platform name.
pub open spec fn instruction_head() -> Seq<char> {
    "Generate a "@
}

pub open spec fn instruction_tail() -> Seq<char> {
    " terminal command based on the user's input text. Always reply with one command, raw text, no formatting."@
}

/// The system instruction for a target platform.
pub open spec fn instruction(platform: Seq<char>) -> Seq<char> {
    instruction_head() + platform + instruction_tail()
}

/// Whether `needle` occurs in `hay` as a contiguous run.
pub open spec fn contains(hay: Seq<char>, needle: Seq<char>) -> bool {
    exists|i: int|
        0 <= i && i + needle.len() <= hay.len() && #[trigger] hay.subrange(i, i + needle.len())
            == needle
}

/// The JSON text of a chat request: the model, then one system message and
/// one user message, in that order.
pub open spec fn request_json(model: Seq<char>, system: Seq<char>, user: Seq<char>) -> Seq<char> {
    "{\"model\":"@ + json_string(model) + ",\"messages\":[{\"role\":\"system\",\"content\":"@
        + json_string(system) + "},{\"role\":\"user\",\"content\":"@ + json_string(user)
        + "}]}"@
}

/// The value of the `Authorization` header for a credential.
pub open spec fn bearer(credential: Seq<char>) -> Seq<char> {
    "Bearer "@ + credential
}

/// The system instruction for a target platform.
pub fn system_instruction(platform: &str) -> (r: String)
    ensures
        r@ == instruction(platform@),
{
    String::from_str("Generate a ").concat(platform).concat(
        " terminal command based on the user's input text. Always reply with one command, raw text, no formatting.",
    )
}

/// The value of the `Authorization` header that carries `credential`.
pub fn authorization(credential: &str) -> (r: String)
    ensures
        r@ == bearer(credential@),
{
    String::from_str("Bearer ").concat(credential)
}

/// A chat request for one command.
pub struct GenerationRequest {
    pub model: String,
    /// The system instruction, naming the target platform.
    pub system: String,
    /// The user message: the prompt, verbatim.
    pub user: String,
}

impl GenerationRequest {
    /// Whether this is the request for `prompt` on `platform`.
    pub open spec fn built_from(self, prompt: Seq<char>, platform: Seq<char>) -> bool {
        &&& self.model@ == MODEL@
        &&& self.system@ == instruction(platform)
        &&& self.user@ == prompt
    }

    /// The request for `prompt` on `platform`.
    pub fn new(prompt: &str, platform: &str) -> (r: GenerationRequest)
        ensures
            r.built_from(prompt@, platform@),
    {
        GenerationRequest {
            model: String::from_str(MODEL),
            system: system_instruction(platform),
            user: prompt.to_owned(),
        }
    }

    /// The JSON body of the request.
    pub fn body(&self) -> (r: String)
        ensures
            r@ == request_json(self.model@, self.system@, self.user@),
    {
        let model = encode_json_string(self.model.as_str());
        let system = encode_json_string(self.system.as_str());
        let user = encode_json_string(self.user.as_str());
        let r = String::from_str("{\"model\":").concat(model.as_str()).concat(
            ",\"messages\":[{\"role\":\"system\",\"content\":",
        ).concat(system.as_str()).concat("},{\"role\":\"user\",\"content\":").concat(
            user.as_str(),
        ).concat("}]}");
        r
    }
}

/// A request built for a prompt and a platform carries the prompt as its
/// user message, unchanged, and names the platform verbatim in its system
/// instruction; its JSON body holds the prompt's JSON encoding.
pub proof fn lemma_request_carries_inputs(r: GenerationRequest, prompt: Seq<char>, platform: Seq<char>)
    requires
        r.built_from(prompt, platform),
    ensures
        r.user@ == prompt,
        contains(r.system@, platform),
        contains(request_json(r.model@, r.system@, r.user@), json_string(prompt)),
{
    reveal_strlit("Generate a ");
    let i = instruction_head().len() as int;
    assert(instruction(platform).subrange(i, i + platform.len()) =~= platform);
    let head = "{\"model\":"@ + json_string(r.model@) + ",\"messages\":[{\"role\":\"system\",\"content\":"@
        + json_string(r.system@) + "},{\"role\":\"user\",\"content\":"@;
    let body = request_json(r.model@, r.system@, r.user@);
    let enc = json_string(prompt);
    assert(body == head + enc + "}]}"@);
    assert(body.subrange(head.len() as int, (head.len() + enc.len()) as int) =~= enc);
}

} // verus!
