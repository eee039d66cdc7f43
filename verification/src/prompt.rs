//! The prompt for the redirect URL: the operator is asked until a pasted
//! line yields an authorization code and a state token.

use crate::callback::{
    callback_needs_code_and_state, has_key, interpret, outcome_view, read_redirect, url_query,
    CallbackPayload, InputError, CODE_KEY, STATE_KEY,
};
use vstd::prelude::*;

verus! {

/// The request shown to the operator before each line is read.
pub const PROMPT_TEXT: &'static str = "Enter the redirection URL:";

/// All the text that the operator has entered so far. Lines are appended and
/// nothing is ever taken away: what is parsed after each line is everything
/// entered since the prompt began, not the last line alone.
#[derive(Clone, Debug, PartialEq, Eq)]
pub struct Prompt {
    entered: String,
}

impl View for Prompt {
    type V = Seq<char>;

    closed spec fn view(&self) -> Seq<char> {
        self.entered@
    }
}

impl Prompt {
    /// A prompt at which nothing has been entered yet.
    pub fn new() -> (prompt: Prompt)
        ensures
            prompt@ == Seq::<char>::empty(),
    {
        Prompt { entered: String::new() }
    }

    /// The text entered so far.
    pub fn entered(&self) -> (text: &str)
        ensures
            text@ == self@,
    {
        self.entered.as_str()
    }

    /// Takes one line as it was read, line terminator included, and says
    /// whether the text entered so far now yields a callback payload. An error
    /// is the diagnostic to show before asking again.
    pub fn feed(&mut self, line: &str) -> (outcome: Result<CallbackPayload, InputError>)
        ensures
            final(self)@ == old(self)@ + line@,
            outcome_view(outcome) == interpret(url_query(old(self)@ + line@)),
    {
        self.entered.append(line);
        read_redirect(self.entered.as_str())
    }
}

/// The prompt ends exactly when the text entered so far is a URL whose query
/// holds both `code` and `state`; until then every line is answered with a
/// diagnostic.
pub proof fn prompt_ends_only_with_payload(entered: Seq<char>, line: Seq<char>)
    ensures
        interpret(url_query(entered + line)) is Ok <==> (url_query(entered + line) matches Ok(pairs)
            && has_key(pairs, CODE_KEY@) && has_key(pairs, STATE_KEY@)),
{
    if let Ok(pairs) = url_query(entered + line) {
        callback_needs_code_and_state(pairs);
    }
}

} // verus!
