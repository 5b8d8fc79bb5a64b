use auto_gippity::transport::{AUTHORIZATION_HEADER, COMPLETIONS_URL, MODEL, ORGANIZATION_HEADER};
use auto_gippity::{
    answer_text, augment_with_template, prepare_request, completion_request_body, extend_ai_function, first_choice_content,
    request_headers, Choice, CompletionResponse, FatalInvocationFailure, Invocation, Message,
    TransportError, SYSTEM_ROLE,
};

/// Turns a user's request into a goal statement for the managing agent.
fn convert_user_input_to_goal(_user_request: &str) -> &'static str {
    "def convert_user_input_to_goal(_user_request: &str) {
    /// Input: Takes in a user request
    /// Function: Converts user request into a short summarized goal
    /// Output: Prints goal. All outputs start with \"build a website that ...\"
}"
}

fn print_json_array_of_strings(_description: &str) -> &'static str {
    "def print_json_array_of_strings(description) { /// Output: a JSON array of strings only }"
}

fn expected_text(template: &str, input: &str) -> String {
    format!(
        "FUNCTION {} \n  INSTRUCTION: You are a function printer. You ONLY print the results of functions.\n  Nothing else. No commentary. Here is the input to the function: {}.\n  Print out what the function will return.",
        template, input
    )
}

fn response_with(content: &str) -> CompletionResponse {
    CompletionResponse {
        choices: vec![Choice {
            message: Message { role: "assistant".to_string(), content: content.to_string() },
        }],
    }
}

#[test]
fn tests_extending_ai_function() {
    let extended_msg = extend_ai_function(convert_user_input_to_goal, "dummy variable");
    println!("{:?}", &extended_msg);
    assert_eq!(extended_msg.role, "system".to_string());
}

#[test]
fn augmented_message_is_system_and_holds_template_and_input() {
    let input = "Build me a web server for making stock price api requests.";
    let m = extend_ai_function(convert_user_input_to_goal, input);
    assert_eq!(m.role, SYSTEM_ROLE);
    assert!(m.content.contains(convert_user_input_to_goal(input)));
    assert!(m.content.contains(input));
    assert_eq!(m.content, expected_text(convert_user_input_to_goal(input), input));
}

#[test]
fn augmenting_an_empty_input() {
    let m = augment_with_template("T", "");
    assert_eq!(m.role, "system");
    assert_eq!(
        m.content,
        "FUNCTION T \n  INSTRUCTION: You are a function printer. You ONLY print the results of functions.\n  Nothing else. No commentary. Here is the input to the function: .\n  Print out what the function will return."
    );
}

#[test]
fn request_body_for_one_message() {
    let body = completion_request_body(&vec![Message::user("hi".to_string())]);
    assert_eq!(
        body,
        "{\"model\":\"gpt-3.5-turbo\",\"messages\":[{\"role\":\"user\",\"content\":\"hi\"}],\"temperature\":0.1}"
    );
}

#[test]
fn request_body_escapes_message_text() {
    let body = completion_request_body(&vec![
        Message::system("say \"x\"\n\tback\\slash \u{1}".to_string()),
        Message::user("é".to_string()),
    ]);
    assert_eq!(
        body,
        "{\"model\":\"gpt-3.5-turbo\",\"messages\":[{\"role\":\"system\",\"content\":\"say \\\"x\\\"\\n\\tback\\\\slash \\u0001\"},{\"role\":\"user\",\"content\":\"é\"}],\"temperature\":0.1}"
    );
}

#[test]
fn request_body_for_no_messages() {
    let body = completion_request_body(&Vec::new());
    assert_eq!(body, "{\"model\":\"gpt-3.5-turbo\",\"messages\":[],\"temperature\":0.1}");
}

#[test]
fn request_body_decodes_back_to_the_messages() {
    let text = "line one\nline \"two\"\r\u{7}end";
    let body = completion_request_body(&vec![Message::user(text.to_string())]);
    let v: serde_json::Value = serde_json::from_str(&body).unwrap();
    assert_eq!(v["model"].as_str(), Some(MODEL));
    assert_eq!(v["messages"][0]["role"].as_str(), Some("user"));
    assert_eq!(v["messages"][0]["content"].as_str(), Some(text));
    assert_eq!(v["temperature"].as_f64(), Some(0.1));
}

#[test]
fn headers_carry_bearer_token_and_organization() {
    let h = request_headers("sk-123", "org-9").unwrap();
    assert_eq!(h.authorization, "Bearer sk-123");
    assert_eq!(h.organization, "org-9");
    assert_eq!(AUTHORIZATION_HEADER, "authorization");
    assert_eq!(ORGANIZATION_HEADER, "OpenAI-Organization");
    assert_eq!(COMPLETIONS_URL, "https://api.openai.com/v1/chat/completions");
}

#[test]
fn headers_refuse_malformed_credentials() {
    assert_eq!(request_headers("sk\n123", "org").unwrap_err(), TransportError::InvalidHeader);
    assert_eq!(request_headers("sk", "org\u{7f}").unwrap_err(), TransportError::InvalidHeader);
    assert!(request_headers("sk\tkey", "orgé").is_ok());
}

#[test]
fn first_choice_content_reads_the_first_choice() {
    let mut r = response_with("first");
    r.choices.push(Choice { message: Message::user("second".to_string()) });
    assert_eq!(first_choice_content(&r), Ok("first".to_string()));
}

#[test]
fn first_choice_content_refuses_an_empty_response() {
    let r = CompletionResponse { choices: Vec::new() };
    assert_eq!(first_choice_content(&r), Err(TransportError::MalformedResponse));
}

#[test]
fn first_attempt_success_ends_the_invocation() {
    let mut inv = Invocation::start(convert_user_input_to_goal, "a shop");
    let req = inv.next_request().unwrap();
    assert_eq!(req.len(), 1);
    inv.record_attempt(Ok("done".to_string()));
    assert_eq!(inv.attempts(), 1);
    assert!(inv.next_request().is_none());
    assert_eq!(inv.outcome(), Some(Ok("done".to_string())));
}

#[test]
fn retry_after_failure_returns_second_result() {
    let mut inv = Invocation::start(convert_user_input_to_goal, "a shop");
    let first = inv.next_request().unwrap();
    assert_eq!(inv.outcome(), None);
    inv.record_attempt(Err(TransportError::Network));
    assert_eq!(inv.outcome(), None);
    let second = inv.next_request().unwrap();
    assert_eq!(first[0].content, second[0].content);
    assert_eq!(first[0].role, second[0].role);
    inv.record_attempt(Ok("second".to_string()));
    assert_eq!(inv.attempts(), 2);
    assert_eq!(inv.outcome(), Some(Ok("second".to_string())));
}

#[test]
fn two_failures_are_fatal() {
    let mut inv = Invocation::start(convert_user_input_to_goal, "a shop");
    inv.record_attempt(Err(TransportError::Network));
    assert!(inv.next_request().is_some());
    inv.record_attempt(Err(TransportError::MalformedResponse));
    assert_eq!(inv.attempts(), 2);
    assert!(inv.next_request().is_none());
    assert_eq!(
        inv.outcome(),
        Some(Err(FatalInvocationFailure { last_error: TransportError::MalformedResponse }))
    );
}

#[test]
fn interleaved_invocations_stay_apart() {
    let mut a = Invocation::start(convert_user_input_to_goal, "input a");
    let mut b = Invocation::start(print_json_array_of_strings, "input b");
    let ra = a.next_request().unwrap();
    let rb = b.next_request().unwrap();
    a.record_attempt(Err(TransportError::Network));
    b.record_attempt(Ok("result b".to_string()));
    let ra2 = a.next_request().unwrap();
    a.record_attempt(Ok("result a".to_string()));
    assert_eq!(ra[0].content, expected_text(convert_user_input_to_goal(""), "input a"));
    assert_eq!(ra2[0].content, ra[0].content);
    assert_eq!(rb[0].content, expected_text(print_json_array_of_strings(""), "input b"));
    assert_eq!(a.outcome(), Some(Ok("result a".to_string())));
    assert_eq!(b.outcome(), Some(Ok("result b".to_string())));
    assert_eq!(a.attempts(), 2);
    assert_eq!(b.attempts(), 1);
}

#[test]
fn colors_end_to_end() {
    let input = "List three colors as a JSON array of strings";
    let mut inv = Invocation::start(print_json_array_of_strings, input);
    let req = inv.next_request().unwrap();
    assert!(req[0].content.contains(input));
    let response = response_with("[\"red\",\"green\",\"blue\"]");
    inv.record_attempt(first_choice_content(&response));
    let text = match inv.outcome() {
        Some(Ok(t)) => t,
        other => panic!("unexpected outcome {:?}", other),
    };
    let colors: Vec<String> = serde_json::from_str(&text).unwrap();
    assert_eq!(colors, vec!["red".to_string(), "green".to_string(), "blue".to_string()]);
}

#[test]
fn prepared_request_targets_the_endpoint() {
    let msgs = vec![Message::user("hi".to_string())];
    let p = prepare_request("key", "org", &msgs).unwrap();
    assert_eq!(p.url, "https://api.openai.com/v1/chat/completions");
    assert_eq!(p.headers.authorization, "Bearer key");
    assert_eq!(p.headers.organization, "org");
    assert_eq!(p.body, completion_request_body(&msgs));
    assert_eq!(
        prepare_request("key\r", "org", &msgs).unwrap_err(),
        TransportError::InvalidHeader
    );
}

#[test]
fn answer_text_of_unreadable_or_empty_response() {
    assert_eq!(answer_text(None), Err(TransportError::MalformedResponse));
    assert_eq!(
        answer_text(Some(CompletionResponse { choices: Vec::new() })),
        Err(TransportError::MalformedResponse)
    );
    assert_eq!(answer_text(Some(response_with("ok"))), Ok("ok".to_string()));
}
