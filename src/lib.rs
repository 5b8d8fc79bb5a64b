//! An invocation pipeline for a remote chat-completion service: prompt
//! augmentation, the wire framing of requests and responses, and a
//! bounded-retry policy, each stated and proved with Verus.
use vstd::prelude::*;

pub mod augment;
pub mod invoker;
pub mod message;
pub mod transport;

pub use augment::{augment_with_template, extend_ai_function};
pub use invoker::{FatalInvocationFailure, Invocation, Phase, MAX_ATTEMPTS};
pub use message::{Message, ASSISTANT_ROLE, SYSTEM_ROLE, USER_ROLE};
pub use transport::{
    answer_text, completion_request_body, first_choice_content, prepare_request, request_headers,
    Choice, CompletionResponse, PreparedRequest, RequestHeaders, TransportError,
};

verus! {

} // verus!
