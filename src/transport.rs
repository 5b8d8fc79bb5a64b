use vstd::prelude::*;

use crate::message::Message;

verus! {

/// The chat-completion endpoint that requests are posted to.
pub const COMPLETIONS_URL: &'static str = "https://api.openai.com/v1/chat/completions";

/// The model that every request names.
pub const MODEL: &'static str = "gpt-3.5-turbo";

/// The sampling temperature of every request, as it stands in the body:
/// low, for near-deterministic completions.
pub const TEMPERATURE_TEXT: &'static str = "0.1";

/// The header that carries the bearer token.
pub const AUTHORIZATION_HEADER: &'static str = "authorization";

/// The header that carries the organization's identity.
pub const ORGANIZATION_HEADER: &'static str = "OpenAI-Organization";

/// What precedes the API key in the authorization header.
pub const BEARER_PREFIX: &'static str = "Bearer ";

/// A failure to build, send or read one completion request. Callers treat
/// every variant alike; the variants serve diagnostics.
#[derive(Debug, Clone, Copy, PartialEq, Eq, Structural)]
pub enum TransportError {
    /// A credential cannot stand in a header value.
    InvalidHeader,
    /// The connection, TLS or the exchange failed.
    Network,
    /// The body is not a completion response, or it has no choice.
    MalformedResponse,
}

/// One choice of a completion response.
#[derive(Debug, Clone)]
pub struct Choice {
    pub message: Message,
}

/// A completion response, as far as the pipeline reads it.
#[derive(Debug, Clone)]
pub struct CompletionResponse {
    pub choices: Vec<Choice>,
}

/// The escape sequence of a hex digit's value, in lower case.
pub open spec fn hex_digit(d: u32) -> char {
    if d < 10 {
        (('0' as u32) + d) as char
    } else {
        (('a' as u32) + d - 10) as char
    }
}

/// How one character stands inside a JSON string literal.
pub open spec fn json_escaped_char(c: char) -> Seq<char> {
    if c == '"' {
        seq!['\\', '"']
    } else if c == '\\' {
        seq!['\\', '\\']
    } else if c == '\x08' {
        seq!['\\', 'b']
    } else if c == '\t' {
        seq!['\\', 't']
    } else if c == '\n' {
        seq!['\\', 'n']
    } else if c == '\x0c' {
        seq!['\\', 'f']
    } else if c == '\r' {
        seq!['\\', 'r']
    } else if (c as u32) < 0x20 {
        seq!['\\', 'u', '0', '0', hex_digit((c as u32) / 16), hex_digit((c as u32) % 16)]
    } else {
        seq![c]
    }
}

/// The escaped characters of a string, without the quotes.
pub open spec fn json_escaped(s: Seq<char>) -> Seq<char>
    decreases s.len(),
{
    if s.len() == 0 {
        Seq::empty()
    } else {
        json_escaped(s.drop_last()) + json_escaped_char(s.last())
    }
}

/// A string as a JSON string literal.
pub open spec fn json_quoted(s: Seq<char>) -> Seq<char> {
    seq!['"'] + json_escaped(s) + seq!['"']
}

/// Relies on serde_json::to_string on a `str`: a quoted literal, with `"`,
/// `\` and the control characters escaped as its escape table gives them.
/// Writing into a `Vec` does not fail, so neither does this call.
#[verifier::external_body]
fn json_quote(s: &str) -> (r: String)
    ensures
        r@ == json_quoted(s@),
{
    serde_json::to_string(s).unwrap()
}

/// One message as a JSON object.
pub open spec fn message_json(m: Message) -> Seq<char> {
    "{\"role\":"@ + json_quoted(m.role@) + ",\"content\":"@ + json_quoted(m.content@) + "}"@
}

/// The messages as JSON objects, separated by commas.
pub open spec fn messages_json(ms: Seq<Message>) -> Seq<char>
    decreases ms.len(),
{
    if ms.len() == 0 {
        Seq::empty()
    } else if ms.len() == 1 {
        message_json(ms[0])
    } else {
        messages_json(ms.drop_last()) + ","@ + message_json(ms.last())
    }
}

/// The JSON body of a completion request for the messages, in order.
pub open spec fn request_body(ms: Seq<Message>) -> Seq<char> {
    "{\"model\":"@ + json_quoted(MODEL@) + ",\"messages\":["@ + messages_json(ms) + "],\"temperature\":"@
        + TEMPERATURE_TEXT@ + "}"@
}

/// Appends one message's JSON object to `out`.
fn push_message_json(out: &mut String, m: &Message)
    ensures
        final(out)@ == old(out)@ + message_json(*m),
{
    out.append("{\"role\":");
    let role = json_quote(m.role.as_str());
    out.append(role.as_str());
    out.append(",\"content\":");
    let content = json_quote(m.content.as_str());
    out.append(content.as_str());
    out.append("}");
}

/// The JSON body of the completion request that carries `messages`, with the
/// fixed model and temperature.
pub fn completion_request_body(messages: &Vec<Message>) -> (r: String)
    ensures
        r@ == request_body(messages@),
{
    let mut out = String::from_str("{\"model\":");
    let model = json_quote(MODEL);
    out.append(model.as_str());
    out.append(",\"messages\":[");
    let ghost head = out@;
    let mut i: usize = 0;
    while i < messages.len()
        invariant
            0 <= i <= messages@.len(),
            out@ == head + messages_json(messages@.subrange(0, i as int)),
        decreases messages@.len() - i,
    {
        let ghost before = messages@.subrange(0, i as int);
        let ghost after = messages@.subrange(0, i as int + 1);
        assert(after.drop_last() =~= before);
        if i > 0 {
            out.append(",");
        }
        push_message_json(&mut out, &messages[i]);
        i = i + 1;
    }
    assert(messages@.subrange(0, messages@.len() as int) =~= messages@);
    out.append("],\"temperature\":");
    out.append(TEMPERATURE_TEXT);
    out.append("}");
    out
}

/// A character that may stand in a header value: visible ASCII, a space, a
/// tab, or any non-ASCII character.
pub open spec fn header_char_valid(c: char) -> bool {
    ((c as u32) >= 32 && (c as u32) != 127) || c == '\t'
}

/// Every character of `s` may stand in a header value.
pub open spec fn header_value_valid(s: Seq<char>) -> bool {
    forall|i: int| 0 <= i < s.len() ==> header_char_valid(#[trigger] s[i])
}

/// Relies on reqwest::header::HeaderValue::from_str: it refuses a value
/// exactly when a byte of it is a control byte other than a tab, or DEL.
/// Every byte of a non-ASCII character's encoding is at least 0x80.
#[verifier::external_body]
fn accepts_header_value(v: &str) -> (r: bool)
    ensures
        r == header_value_valid(v@),
{
    reqwest::header::HeaderValue::from_str(v).is_ok()
}

/// The values of the two identity headers of a request.
#[derive(Debug, Clone)]
pub struct RequestHeaders {
    pub authorization: String,
    pub organization: String,
}

/// The header values that carry the API key as a bearer token and the
/// organization's identity, or `InvalidHeader` where one of the credentials
/// cannot stand in a header value.
pub fn request_headers(api_key: &str, organization: &str) -> (r: Result<RequestHeaders, TransportError>)
    ensures
        r is Ok <==> header_value_valid(api_key@) && header_value_valid(organization@),
        r is Err ==> r == Err::<RequestHeaders, TransportError>(TransportError::InvalidHeader),
        r is Ok ==> r->Ok_0.authorization@ == BEARER_PREFIX@ + api_key@ && r->Ok_0.organization@
            == organization@,
{
    let mut authorization = String::from_str(BEARER_PREFIX);
    authorization.append(api_key);
    proof {
        reveal_strlit("Bearer ");
        let p = BEARER_PREFIX@;
        let s = p + api_key@;
        assert(header_value_valid(p));
        assert(header_value_valid(s) <==> header_value_valid(api_key@)) by {
            if header_value_valid(api_key@) {
                assert forall|i: int| 0 <= i < s.len() implies header_char_valid(#[trigger] s[i]) by {
                    if i >= p.len() {
                        assert(s[i] == api_key@[i - p.len()]);
                    }
                }
            }
            if header_value_valid(s) {
                assert forall|i: int| 0 <= i < api_key@.len() implies header_char_valid(
                    #[trigger] api_key@[i],
                ) by {
                    assert(s[i + p.len()] == api_key@[i]);
                }
            }
        }
    }
    if !accepts_header_value(authorization.as_str()) {
        return Err(TransportError::InvalidHeader);
    }
    if !accepts_header_value(organization) {
        return Err(TransportError::InvalidHeader);
    }
    Ok(RequestHeaders { authorization, organization: String::from_str(organization) })
}

/// The text of the first choice's message, or `MalformedResponse` where the
/// response has no choice.
pub fn first_choice_content(response: &CompletionResponse) -> (r: Result<String, TransportError>)
    ensures
        r is Ok <==> response.choices@.len() > 0,
        r is Ok ==> r->Ok_0@ == response.choices@[0].message.content@,
        r is Err ==> r == Err::<String, TransportError>(TransportError::MalformedResponse),
{
    if response.choices.len() == 0 {
        Err(TransportError::MalformedResponse)
    } else {
        Ok(response.choices[0].message.content.clone())
    }
}

} // verus!

verus! {

/// Everything that one completion request sends: where, with which identity
/// headers, and the JSON body.
#[derive(Debug, Clone)]
pub struct PreparedRequest {
    pub url: String,
    pub headers: RequestHeaders,
    pub body: String,
}

/// Builds the one request that carries `messages` with the given
/// credentials, or `InvalidHeader` where a credential cannot stand in a
/// header value.
pub fn prepare_request(api_key: &str, organization: &str, messages: &Vec<Message>) -> (r: Result<
    PreparedRequest,
    TransportError,
>)
    ensures
        r is Ok <==> header_value_valid(api_key@) && header_value_valid(organization@),
        r is Err ==> r == Err::<PreparedRequest, TransportError>(TransportError::InvalidHeader),
        r is Ok ==> {
            let p = r->Ok_0;
            &&& p.url@ == COMPLETIONS_URL@
            &&& p.headers.authorization@ == BEARER_PREFIX@ + api_key@
            &&& p.headers.organization@ == organization@
            &&& p.body@ == request_body(messages@)
        },
{
    match request_headers(api_key, organization) {
        Ok(headers) => Ok(
            PreparedRequest {
                url: String::from_str(COMPLETIONS_URL),
                headers,
                body: completion_request_body(messages),
            },
        ),
        Err(e) => Err(e),
    }
}

/// The answer text of a response body that was read as a completion
/// response, or `None` where it could not be: `MalformedResponse` where it
/// could not be read or has no choice.
pub fn answer_text(response: Option<CompletionResponse>) -> (r: Result<String, TransportError>)
    ensures
        r is Ok <==> response is Some && response->Some_0.choices@.len() > 0,
        r is Ok ==> r->Ok_0@ == response->Some_0.choices@[0].message.content@,
        r is Err ==> r == Err::<String, TransportError>(TransportError::MalformedResponse),
{
    match response {
        Some(resp) => first_choice_content(&resp),
        None => Err(TransportError::MalformedResponse),
    }
}

} // verus!
