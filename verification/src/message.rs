//! The messages that are sent to the gateway.

use vstd::prelude::*;
use vstd::string::*;

verus! {

/// One message of a conversation with the gateway.
#[derive(Debug, Clone, PartialEq)]
pub struct Message {
    pub role: String,
    pub content: String,
}

/// The role under which a prompt is sent.
pub open spec fn prompt_role() -> Seq<char> {
    "system"@
}

/// The prompt that asks for the output of the function whose text is
/// `function_text` on the input `input`.
pub open spec fn function_prompt(function_text: Seq<char>, input: Seq<char>) -> Seq<char> {
    "FUNCTION "@ + function_text
        + " \n    INSTRUCTION: You are a function printer. You ONLY print the result of the functions. Nothing else. No commentary.\n    Here is the input to the function "@
        + input + ".\n    Print out what the function will return.\n    "@
}

/// Builds the prompt for one call of an AI function: `ai_func` gives the
/// function's text, and the prompt asks the gateway to print what that
/// function returns on `func_input`.
pub fn extend_ai_function(ai_func: impl Fn(&str) -> &'static str, func_input: &str) -> (message:
    Message)
    requires
        call_requires(ai_func, (func_input,)),
    ensures
        message.role@ == prompt_role(),
        exists|function_text: &'static str|
            call_ensures(ai_func, (func_input,), function_text) && message.content@
                == function_prompt(function_text@, func_input@),
{
    let ai_function_str = ai_func(func_input);
    let mut content = String::from_str("FUNCTION ");
    content.append(ai_function_str);
    content.append(
        " \n    INSTRUCTION: You are a function printer. You ONLY print the result of the functions. Nothing else. No commentary.\n    Here is the input to the function ",
    );
    content.append(func_input);
    content.append(".\n    Print out what the function will return.\n    ");
    assert(content@ =~= function_prompt(ai_function_str@, func_input@));
    Message { role: String::from_str("system"), content }
}

} // verus!
