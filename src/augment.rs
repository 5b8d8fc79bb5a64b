use vstd::prelude::*;

use crate::message::{Message, SYSTEM_ROLE};

verus! {

/// Opens the instruction, before the template's text.
pub const FUNCTION_HEAD: &'static str = "FUNCTION ";

/// Tells the model to print only the function's result; the input follows it.
pub const PRINT_ONLY_DIRECTIVE: &'static str = " \n  INSTRUCTION: You are a function printer. You ONLY print the results of functions.\n  Nothing else. No commentary. Here is the input to the function: ";

/// Closes the instruction, after the input.
pub const CLOSING: &'static str = ".\n  Print out what the function will return.";

/// The instruction text built from a template's text and the task input.
pub open spec fn augmented_text(template: Seq<char>, input: Seq<char>) -> Seq<char> {
    FUNCTION_HEAD@ + template + PRINT_ONLY_DIRECTIVE@ + input + CLOSING@
}

/// `part` occurs in `s` as a contiguous run.
pub open spec fn contains(s: Seq<char>, part: Seq<char>) -> bool {
    exists|k: int| 0 <= k && k + part.len() <= s.len() && #[trigger] s.subrange(k, k + part.len()) == part
}

/// The augmented instruction contains both the template's text and the
/// literal input.
pub proof fn lemma_augmented_contains_template_and_input(template: Seq<char>, input: Seq<char>)
    ensures
        contains(augmented_text(template, input), template),
        contains(augmented_text(template, input), input),
{
    let s = augmented_text(template, input);
    let k1 = FUNCTION_HEAD@.len() as int;
    let k2 = k1 + template.len() + PRINT_ONLY_DIRECTIVE@.len();
    assert(s.subrange(k1, k1 + template.len()) =~= template);
    assert(s.subrange(k2, k2 + input.len()) =~= input);
}

/// Wraps a template's text and the task input into one system message.
pub fn augment_with_template(template: &str, input: &str) -> (r: Message)
    ensures
        r.role@ == SYSTEM_ROLE@,
        r.content@ == augmented_text(template@, input@),
        contains(r.content@, template@),
        contains(r.content@, input@),
{
    let mut text = String::from_str(FUNCTION_HEAD);
    text.append(template);
    text.append(PRINT_ONLY_DIRECTIVE);
    text.append(input);
    text.append(CLOSING);
    proof {
        lemma_augmented_contains_template_and_input(template@, input@);
    }
    Message::system(text)
}

/// Applies a prompt template to the input and wraps its text into a system
/// message that asks the model to print only the template's described output.
pub fn extend_ai_function<F: Fn(&str) -> &'static str>(ai_func: F, func_input: &str) -> (r: Message)
    requires
        call_requires(ai_func, (func_input,)),
    ensures
        r.role@ == SYSTEM_ROLE@,
        exists|t: &str|
            call_ensures(ai_func, (func_input,), t) && r.content@ == augmented_text(t@, func_input@)
                && contains(r.content@, t@),
        contains(r.content@, func_input@),
{
    let ai_function_str = ai_func(func_input);
    augment_with_template(ai_function_str, func_input)
}

} // verus!
