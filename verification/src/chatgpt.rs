//! The chat-completion handler's logic: the closed model-alias table, the
//! instructional prompt, the JSON request body, the configuration checks
//! that gate the call, and the extraction of the reply. The HTTP POST
//! itself happens outside the library, driven by the plan built here.

use vstd::prelude::*;
use vstd::string::StringExecFns;
use vstd::utf8::encode_utf8;
use crate::text::{eq_lowered, lower, trim, trimmed};

verus! {

/// The closed set of model aliases the chat engine accepts.
#[derive(Debug, Clone, Copy, PartialEq, Eq, Structural)]
pub enum ChatGPTModel {
    O3Mini,
    O1,
    O1Mini,
    FourO,
    FourOMini,
}

/// The fixed model-alias table, over already lower-cased tokens.
pub open spec fn model_for_token(s: Seq<char>) -> Option<ChatGPTModel> {
    if s == "o3"@ || s == "o3m"@ || s == "o3-mini"@ {
        Some(ChatGPTModel::O3Mini)
    } else if s == "o1"@ {
        Some(ChatGPTModel::O1)
    } else if s == "o1m"@ || s == "o1-mini"@ {
        Some(ChatGPTModel::O1Mini)
    } else if s == "4o"@ || s == "four-o"@ {
        Some(ChatGPTModel::FourO)
    } else if s == "4om"@ || s == "4o-mini"@ || s == "four-o-mini"@ {
        Some(ChatGPTModel::FourOMini)
    } else {
        None
    }
}

/// What model-alias parsing yields for a raw token: the token is
/// lower-cased, then looked up in the fixed table.
pub open spec fn spec_parse_model(s: Seq<char>) -> Option<ChatGPTModel> {
    model_for_token(lower(s))
}

/// Resolves a model alias, or reports the offending value. Exactly the
/// aliases of the fixed table (compared case-insensitively) parse; an
/// unlisted alias is a parse error naming it.
pub fn parse_model(s: &str) -> (r: Result<ChatGPTModel, String>)
    ensures
        match spec_parse_model(s@) {
            Some(m) => r == Ok::<ChatGPTModel, String>(m),
            None => r matches Err(e) && e@ == "Invalid model: "@ + s@,
        },
{
    if eq_lowered(s, "o3") || eq_lowered(s, "o3m") || eq_lowered(s, "o3-mini") {
        Ok(ChatGPTModel::O3Mini)
    } else if eq_lowered(s, "o1") {
        Ok(ChatGPTModel::O1)
    } else if eq_lowered(s, "o1m") || eq_lowered(s, "o1-mini") {
        Ok(ChatGPTModel::O1Mini)
    } else if eq_lowered(s, "4o") || eq_lowered(s, "four-o") {
        Ok(ChatGPTModel::FourO)
    } else if eq_lowered(s, "4om") || eq_lowered(s, "4o-mini") || eq_lowered(s, "four-o-mini") {
        Ok(ChatGPTModel::FourOMini)
    } else {
        let mut m = String::from_str("Invalid model: ");
        m.append(s);
        Err(m)
    }
}

impl core::str::FromStr for ChatGPTModel {
    type Err = String;

    fn from_str(s: &str) -> Result<Self, String> {
        parse_model(s)
    }
}

/// The provider model name each alias stands for.
pub open spec fn spec_format_model(m: ChatGPTModel) -> Seq<char> {
    match m {
        ChatGPTModel::O3Mini => "gpt-3.5-turbo"@,
        ChatGPTModel::O1 => "gpt-3.5-turbo-0125"@,
        ChatGPTModel::O1Mini => "gpt-3.5-turbo-instruct"@,
        ChatGPTModel::FourO => "gpt-4o"@,
        ChatGPTModel::FourOMini => "gpt-4o-mini"@,
    }
}

pub fn format_model(model: &ChatGPTModel) -> (r: String)
    ensures
        r@ == spec_format_model(*model),
{
    match model {
        ChatGPTModel::O3Mini => String::from_str("gpt-3.5-turbo"),
        ChatGPTModel::O1 => String::from_str("gpt-3.5-turbo-0125"),
        ChatGPTModel::O1Mini => String::from_str("gpt-3.5-turbo-instruct"),
        ChatGPTModel::FourO => String::from_str("gpt-4o"),
        ChatGPTModel::FourOMini => String::from_str("gpt-4o-mini"),
    }
}

/// The fixed instructional template, up to where the query text is spliced
/// in.
pub open spec fn chat_prompt_prefix() -> Seq<char> {
    "\nYou are a concise, intelligent assistant. Always provide direct, helpful answers without unnecessary explanations unless explicitly asked. Avoid repeating the question.\n\nQ: "@
}

/// The filled prompt: the template with the raw query text in place of its
/// placeholder.
pub open spec fn spec_chat_prompt(q: Seq<char>) -> Seq<char> {
    chat_prompt_prefix() + q + "\n"@
}

pub fn build_chat_prompt(q: &str) -> (r: String)
    ensures
        r@ == spec_chat_prompt(q@),
{
    let mut s = String::from_str(
        "\nYou are a concise, intelligent assistant. Always provide direct, helpful answers without unnecessary explanations unless explicitly asked. Avoid repeating the question.\n\nQ: ",
    );
    s.append(q);
    s.append("\n");
    s
}

/// The lower-case hexadecimal digit for a value below 16, as a byte.
pub open spec fn hex_lower(d: u8) -> u8 {
    if d < 10 {
        (d + 48) as u8
    } else {
        (d + 87) as u8
    }
}

/// How one byte of a string is written inside a JSON string literal:
/// quote and backslash get a backslash escape, the named control characters
/// their short escapes, other control bytes a `\u00` escape, and everything
/// else stands for itself.
pub open spec fn json_escaped_byte(b: u8) -> Seq<u8> {
    if b == 34 {
        seq![92u8, 34u8]
    } else if b == 92 {
        seq![92u8, 92u8]
    } else if b == 8 {
        seq![92u8, 98u8]
    } else if b == 9 {
        seq![92u8, 116u8]
    } else if b == 10 {
        seq![92u8, 110u8]
    } else if b == 12 {
        seq![92u8, 102u8]
    } else if b == 13 {
        seq![92u8, 114u8]
    } else if b < 32 {
        seq![92u8, 117u8, 48u8, 48u8, hex_lower(b / 16), hex_lower(b % 16)]
    } else {
        seq![b]
    }
}

/// The JSON escaping of a whole byte sequence.
pub open spec fn json_escaped(bs: Seq<u8>) -> Seq<u8>
    decreases bs.len(),
{
    if bs.len() == 0 {
        Seq::empty()
    } else {
        json_escaped_byte(bs[0]) + json_escaped(bs.drop_first())
    }
}

proof fn lemma_json_escaped_take(bs: Seq<u8>, i: int)
    requires
        0 <= i < bs.len(),
    ensures
        json_escaped(bs.take(i + 1)) == json_escaped(bs.take(i)) + json_escaped_byte(bs[i]),
    decreases i,
{
    if i == 0 {
        reveal_with_fuel(json_escaped, 2);
        assert(bs.take(1)[0] == bs[0]);
        assert(bs.take(1).drop_first() =~= Seq::<u8>::empty());
        assert(json_escaped(bs.take(0)) =~= Seq::<u8>::empty());
        assert(json_escaped(bs.take(1)) =~= json_escaped(bs.take(0)) + json_escaped_byte(bs[0]));
    } else {
        lemma_json_escaped_take(bs.drop_first(), i - 1);
        assert(bs.take(i + 1)[0] == bs[0]);
        assert(bs.take(i)[0] == bs[0]);
        assert(bs.drop_first()[i - 1] == bs[i]);
        assert(bs.take(i + 1).drop_first() =~= bs.drop_first().take(i));
        assert(bs.take(i).drop_first() =~= bs.drop_first().take(i - 1));
        assert(json_escaped(bs.take(i + 1)) =~= json_escaped(bs.take(i)) + json_escaped_byte(
            bs[i],
        ));
    }
}

fn push_escaped(out: &mut Vec<u8>, s: &str)
    ensures
        final(out)@ == old(out)@ + json_escaped(encode_utf8(s@)),
{
    let bytes = s.as_bytes();
    let n = bytes.len();
    let mut i: usize = 0;
    while i < n
        invariant
            i <= n,
            n == bytes@.len(),
            bytes@ == encode_utf8(s@),
            out@ == old(out)@ + json_escaped(bytes@.take(i as int)),
        decreases n - i,
    {
        let ghost prev = out@;
        let b = bytes[i];
        if b == 34 {
            out.push(92);
            out.push(34);
        } else if b == 92 {
            out.push(92);
            out.push(92);
        } else if b == 8 {
            out.push(92);
            out.push(98);
        } else if b == 9 {
            out.push(92);
            out.push(116);
        } else if b == 10 {
            out.push(92);
            out.push(110);
        } else if b == 12 {
            out.push(92);
            out.push(102);
        } else if b == 13 {
            out.push(92);
            out.push(114);
        } else if b < 32 {
            out.push(92);
            out.push(117);
            out.push(48);
            out.push(48);
            let hi = b / 16;
            let lo = b % 16;
            out.push(if hi < 10 { hi + 48 } else { hi + 87 });
            out.push(if lo < 10 { lo + 48 } else { lo + 87 });
        } else {
            out.push(b);
        }
        proof {
            assert(out@ =~= prev + json_escaped_byte(bytes@[i as int]));
            lemma_json_escaped_take(bytes@, i as int);
            assert(out@ =~= old(out)@ + json_escaped(bytes@.take(i + 1)));
        }
        i += 1;
    }
    proof {
        assert(bytes@.take(n as int) =~= bytes@);
    }
}

/// The JSON request body sent to the chat-completion API: an object with
/// the provider model name and one user message carrying the filled prompt,
/// both written as escaped JSON strings around the fixed frame.
pub open spec fn chat_request_body(model: Seq<char>, content: Seq<char>) -> Seq<u8> {
    encode_utf8("{\"model\":\""@) + json_escaped(encode_utf8(model)) + encode_utf8(
        "\",\"messages\":[{\"role\":\"user\",\"content\":\""@,
    ) + json_escaped(encode_utf8(content)) + encode_utf8("\"}]}"@)
}

pub fn build_chat_request_body(model: &str, content: &str) -> (r: Vec<u8>)
    ensures
        r@ == chat_request_body(model@, content@),
{
    let mut out: Vec<u8> = Vec::new();
    out.extend_from_slice("{\"model\":\"".as_bytes());
    push_escaped(&mut out, model);
    out.extend_from_slice("\",\"messages\":[{\"role\":\"user\",\"content\":\"".as_bytes());
    push_escaped(&mut out, content);
    out.extend_from_slice("\"}]}".as_bytes());
    proof {
        assert(out@ =~= chat_request_body(model@, content@));
    }
    out
}

/// The two configuration errors that stop the handler before any call.
#[derive(Debug, Clone, Copy, PartialEq, Eq, Structural)]
pub enum ChatConfigError {
    MissingApiKey,
    MissingApiUrl,
}

/// The report each configuration error prints.
pub open spec fn spec_chat_error_message(e: ChatConfigError) -> Seq<char> {
    match e {
        ChatConfigError::MissingApiKey => "Missing OPENAI_API_KEY env var"@,
        ChatConfigError::MissingApiUrl => "Missing OPENAI_API_URL env var"@,
    }
}

impl ChatConfigError {
    pub fn message(&self) -> (r: String)
        ensures
            r@ == spec_chat_error_message(*self),
    {
        match self {
            ChatConfigError::MissingApiKey => String::from_str("Missing OPENAI_API_KEY env var"),
            ChatConfigError::MissingApiUrl => String::from_str("Missing OPENAI_API_URL env var"),
        }
    }
}

/// The model used when no alias was given on the command line.
pub open spec fn chosen_model(model: Option<ChatGPTModel>) -> ChatGPTModel {
    match model {
        Some(m) => m,
        None => ChatGPTModel::FourOMini,
    }
}

/// Everything one chat-completion request needs: where to send it, how to
/// authenticate, what to announce, and the body.
pub struct ChatPlan {
    pub url: String,
    pub auth_header: String,
    pub model_name: String,
    pub announce: String,
    pub body: Vec<u8>,
}

/// Assembles one chat-completion request from the configuration the
/// environment provided. A missing API key is reported first, then a
/// missing base URL; only when both are present is a request produced,
/// so nothing is ever sent without them.
pub fn plan_chat_request(
    api_key: Option<String>,
    api_url: Option<String>,
    model: &Option<ChatGPTModel>,
    search: &str,
) -> (r: Result<ChatPlan, ChatConfigError>)
    ensures
        api_key is None ==> r == Err::<ChatPlan, ChatConfigError>(ChatConfigError::MissingApiKey),
        api_key is Some && api_url is None ==> r == Err::<ChatPlan, ChatConfigError>(
            ChatConfigError::MissingApiUrl,
        ),
        api_key is Some && api_url is Some ==> (r matches Ok(p) && p.url@ == (api_url->0)@
            && p.auth_header@ == "Bearer "@ + (api_key->0)@ && p.model_name@ == spec_format_model(
            chosen_model(*model),
        ) && p.announce@ == "Querying ChatGPT ["@ + spec_format_model(chosen_model(*model))
            + "]..."@ && p.body@ == chat_request_body(
            spec_format_model(chosen_model(*model)),
            spec_chat_prompt(search@),
        )),
{
    let key = match api_key {
        Some(k) => k,
        None => {
            return Err(ChatConfigError::MissingApiKey);
        },
    };
    let url = match api_url {
        Some(u) => u,
        None => {
            return Err(ChatConfigError::MissingApiUrl);
        },
    };
    let m = match model {
        Some(mm) => *mm,
        None => ChatGPTModel::FourOMini,
    };
    let model_name = format_model(&m);
    let prompt = build_chat_prompt(search);
    let mut auth_header = String::from_str("Bearer ");
    auth_header.append(key.as_str());
    let mut announce = String::from_str("Querying ChatGPT [");
    announce.append(model_name.as_str());
    announce.append("]...");
    let body = build_chat_request_body(model_name.as_str(), prompt.as_str());
    Ok(ChatPlan { url, auth_header, model_name, announce, body })
}

/// The reply to print: the first choice's content, trimmed; nothing when
/// the response carried no choice at all.
pub fn first_choice(choices: &Vec<String>) -> (r: Option<String>)
    ensures
        match r {
            Some(s) => choices@.len() > 0 && s@ == trimmed(choices@[0]@),
            None => choices@.len() == 0,
        },
{
    if choices.len() == 0 {
        None
    } else {
        let t = trim(choices[0].as_str());
        Some(t.to_owned())
    }
}

} // verus!
