//! The serverless greeters: one greets a caller by first name, the other
//! echoes its event.
use vstd::prelude::*;

verus! {

/// The event the greeter receives.
pub struct CustomEvent {
    pub first_name: String,
}

/// The greeter's answer.
pub struct CustomOutput {
    pub message: String,
}

/// A request the greeters refuse.
#[derive(Debug, Clone, Copy, PartialEq, Eq, Structural)]
pub enum HandlerError {
    EmptyFirstName,
}

impl HandlerError {
    /// The error's text.
    pub fn message(&self) -> (s: String)
        ensures
            s@ == "Empty first name"@,
    {
        String::from_str("Empty first name")
    }
}

/// The greeting for a first name.
pub open spec fn greeting_text(first_name: Seq<char>) -> Seq<char> {
    "Hello, "@ + first_name + "!"@
}

/// The greeting is `Hello, ` followed by the whole first name and `!`.
pub proof fn lemma_greeting_names_caller(first_name: Seq<char>)
    ensures
        greeting_text(first_name).len() == first_name.len() + 8,
        greeting_text(first_name).take(7) == seq!['H', 'e', 'l', 'l', 'o', ',', ' '],
        greeting_text(first_name).subrange(7, 7 + first_name.len() as int) == first_name,
        greeting_text(first_name).last() == '!',
{
    reveal_strlit("Hello, ");
    reveal_strlit("!");
    let g = greeting_text(first_name);
    assert(g.take(7) =~= seq!['H', 'e', 'l', 'l', 'o', ',', ' ']);
    assert(g.subrange(7, 7 + first_name.len() as int) =~= first_name);
}

/// Greets the caller by first name; an empty first name is refused.
pub fn my_handler(e: CustomEvent) -> (r: Result<CustomOutput, HandlerError>)
    ensures
        (e.first_name@.len() == 0) <==> (r == Err::<CustomOutput, HandlerError>(HandlerError::EmptyFirstName)),
        r matches Ok(out) ==> out.message@ == greeting_text(e.first_name@),
{
    if e.first_name.as_str().is_empty() {
        return Err(HandlerError::EmptyFirstName);
    }
    let mut message = String::from_str("Hello, ");
    message.append(e.first_name.as_str());
    message.append("!");
    Ok(CustomOutput { message })
}

/// Answers with the event it received.
pub fn hello(event: serde_json::Value) -> (r: Result<serde_json::Value, HandlerError>)
    ensures
        r == Ok::<serde_json::Value, HandlerError>(event),
{
    Ok(event)
}

} // verus!
