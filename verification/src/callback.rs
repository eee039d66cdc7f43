//! The authorization callback: the `code` and `state` query parameters of the
//! URL that the service redirects the browser to.

use vstd::prelude::*;

verus! {

/// Name of the query parameter that carries the authorization code.
pub const CODE_KEY: &'static str = "code";

/// Name of the query parameter that carries the anti-forgery state token.
pub const STATE_KEY: &'static str = "state";

/// The query of a URL as decoded key/value pairs, in the order they appear.
pub type Query = Seq<(Seq<char>, Seq<char>)>;

/// What a pasted redirect URL is worth: its authorization code and its
/// anti-forgery state token.
#[derive(Clone, Debug, PartialEq, Eq)]
pub struct CallbackPayload {
    pub code: String,
    pub state: String,
}

/// Mathematical value of a [`CallbackPayload`].
pub struct CallbackModel {
    pub code: Seq<char>,
    pub state: Seq<char>,
}

impl View for CallbackPayload {
    type V = CallbackModel;

    open spec fn view(&self) -> CallbackModel {
        CallbackModel { code: self.code@, state: self.state@ }
    }
}

/// Why a pasted line did not yield a callback payload. Neither case is fatal:
/// the operator is asked again.
#[derive(Clone, Debug, PartialEq, Eq)]
pub enum InputError {
    /// The text is not a URL; `reason` is the parser's own description.
    Unparseable { reason: String },
    /// The URL lacks `code`, `state` or both.
    MissingParameters,
}

/// Mathematical value of an [`InputError`].
pub enum InputErrorModel {
    Unparseable { reason: Seq<char> },
    MissingParameters,
}

impl View for InputError {
    type V = InputErrorModel;

    open spec fn view(&self) -> InputErrorModel {
        match self {
            InputError::Unparseable { reason } => InputErrorModel::Unparseable { reason: reason@ },
            InputError::MissingParameters => InputErrorModel::MissingParameters,
        }
    }
}

impl InputErrorModel {
    /// The diagnostic shown to the operator.
    pub open spec fn message(self) -> Seq<char> {
        match self {
            InputErrorModel::Unparseable { reason } => "Parse error: "@ + reason,
            InputErrorModel::MissingParameters => {
                "Failed to find code and/or state in query string."@
            },
        }
    }
}

impl InputError {
    /// The diagnostic shown to the operator before the next prompt.
    pub fn message(&self) -> (text: String)
        ensures
            text@ == self@.message(),
    {
        match self {
            InputError::Unparseable { reason } => "Parse error: ".to_owned().concat(
                reason.as_str(),
            ),
            InputError::MissingParameters => {
                "Failed to find code and/or state in query string.".to_owned()
            },
        }
    }
}

/// The value that a map collected from `pairs` holds under `key`: that of the
/// last pair with this key, if there is one.
pub open spec fn last_value(pairs: Query, key: Seq<char>) -> Option<Seq<char>>
    decreases pairs.len(),
{
    if pairs.len() == 0 {
        None
    } else if pairs.last().0 == key {
        Some(pairs.last().1)
    } else {
        last_value(pairs.drop_last(), key)
    }
}

/// The map that collecting `pairs` in order gives: a later pair replaces an
/// earlier one with the same key.
pub open spec fn collected(pairs: Query) -> Map<Seq<char>, Seq<char>>
    decreases pairs.len(),
{
    if pairs.len() == 0 {
        Map::empty()
    } else {
        collected(pairs.drop_last()).insert(pairs.last().0, pairs.last().1)
    }
}

/// Whether some pair of `pairs` has the key `key`.
pub open spec fn has_key(pairs: Query, key: Seq<char>) -> bool {
    exists|i: int| 0 <= i < pairs.len() && (#[trigger] pairs[i]).0 == key
}

/// Whether all the pairs of `pairs` with the key `key` have the same value.
pub open spec fn unambiguous(pairs: Query, key: Seq<char>) -> bool {
    forall|i: int, j: int|
        0 <= i < pairs.len() && 0 <= j < pairs.len() && (#[trigger] pairs[i]).0 == key && (
        #[trigger] pairs[j]).0 == key ==> pairs[i].1 == pairs[j].1
}

/// The callback payload that a query carries: present exactly when both
/// `code` and `state` occur among the keys.
pub open spec fn callback_in(pairs: Query) -> Option<CallbackModel> {
    match (last_value(pairs, CODE_KEY@), last_value(pairs, STATE_KEY@)) {
        (Some(code), Some(state)) => Some(CallbackModel { code, state }),
        _ => None,
    }
}

/// What a parsed redirect URL yields: the payload, or the reason for asking
/// again.
pub open spec fn interpret(parsed: Result<Query, Seq<char>>) -> Result<
    CallbackModel,
    InputErrorModel,
> {
    match parsed {
        Err(reason) => Err(InputErrorModel::Unparseable { reason }),
        Ok(pairs) => match callback_in(pairs) {
            Some(callback) => Ok(callback),
            None => Err(InputErrorModel::MissingParameters),
        },
    }
}

/// Mathematical value of an optional payload.
pub open spec fn payload_view(payload: Option<CallbackPayload>) -> Option<CallbackModel> {
    match payload {
        Some(found) => Some(found@),
        None => None,
    }
}

/// Mathematical value of the result of reading a redirect URL.
pub open spec fn outcome_view(outcome: Result<CallbackPayload, InputError>) -> Result<
    CallbackModel,
    InputErrorModel,
> {
    match outcome {
        Ok(payload) => Ok(payload@),
        Err(error) => Err(error@),
    }
}

/// Mathematical value of a parser result: the decoded pairs, or the parser's
/// description of its failure.
pub open spec fn parsed_view(parsed: Result<Vec<(String, String)>, String>) -> Result<
    Query,
    Seq<char>,
> {
    match parsed {
        Ok(pairs) => Ok(pairs.deep_view()),
        Err(reason) => Err(reason@),
    }
}

/// What the `url` crate makes of `text`: on success the decoded key/value
/// pairs of the URL's query in order of appearance (none when the URL has no
/// query), on failure the display text of its parse error.
pub uninterp spec fn url_query(text: Seq<char>) -> Result<Query, Seq<char>>;

/// Parses `text` with `url::Url::parse` and reads the query of the URL with
/// `Url::query_pairs`, which decodes it as `application/x-www-form-urlencoded`.
/// Trusted: the result is the one that [`url_query`] names; a parse error is
/// handed on as its display text.
#[verifier::external_body]
pub(crate) fn parse_url_query(text: &str) -> (parsed: Result<Vec<(String, String)>, String>)
    ensures
        parsed_view(parsed) == url_query(text@),
{
    match url::Url::parse(text) {
        Ok(url) => Ok(url.query_pairs().into_owned().collect()),
        Err(error) => Err(error.to_string()),
    }
}

/// Looks `key` up in `pairs` as a map collected from them would: a later pair
/// replaces an earlier one with the same key.
pub fn lookup<'a>(pairs: &'a Vec<(String, String)>, key: &str) -> (found: Option<&'a String>)
    ensures
        found.deep_view() == last_value(pairs.deep_view(), key@),
{
    let wanted = key.to_owned();
    let mut i: usize = pairs.len();
    assert(pairs.deep_view().take(i as int) == pairs.deep_view());
    while i > 0
        invariant
            i <= pairs.len(),
            wanted@ == key@,
            last_value(pairs.deep_view(), key@) == last_value(
                pairs.deep_view().take(i as int),
                key@,
            ),
        decreases i,
    {
        i = i - 1;
        let ghost prefix = pairs.deep_view().take(i + 1);
        assert(prefix.last() == pairs.deep_view()[i as int]);
        assert(prefix.drop_last() == pairs.deep_view().take(i as int));
        if pairs[i].0 == wanted {
            return Some(&pairs[i].1);
        }
    }
    None
}

/// Picks the callback payload out of the decoded query of a redirect URL.
pub fn extract_callback(pairs: &Vec<(String, String)>) -> (payload: Option<CallbackPayload>)
    ensures
        payload_view(payload) == callback_in(pairs.deep_view()),
{
    match (lookup(pairs, CODE_KEY), lookup(pairs, STATE_KEY)) {
        (Some(code), Some(state)) => Some(
            CallbackPayload { code: code.clone(), state: state.clone() },
        ),
        _ => None,
    }
}

/// Turns the parser's verdict on a pasted line into a payload or a
/// diagnostic.
pub fn interpret_query(parsed: Result<Vec<(String, String)>, String>) -> (outcome: Result<
    CallbackPayload,
    InputError,
>)
    ensures
        outcome_view(outcome) == interpret(parsed_view(parsed)),
{
    match parsed {
        Err(reason) => Err(InputError::Unparseable { reason }),
        Ok(pairs) => match extract_callback(&pairs) {
            Some(payload) => Ok(payload),
            None => Err(InputError::MissingParameters),
        },
    }
}

/// Reads the authorization code and state token out of the text of a
/// redirect URL.
pub fn read_redirect(text: &str) -> (outcome: Result<CallbackPayload, InputError>)
    ensures
        outcome_view(outcome) == interpret(url_query(text@)),
{
    interpret_query(parse_url_query(text))
}

/// Looking a key up in the pairs is looking it up in the map collected from
/// them.
pub proof fn lemma_last_value_is_collected(pairs: Query, key: Seq<char>)
    ensures
        last_value(pairs, key) is Some <==> collected(pairs).contains_key(key),
        last_value(pairs, key) matches Some(value) ==> collected(pairs)[key] == value,
    decreases pairs.len(),
{
    if pairs.len() > 0 {
        lemma_last_value_is_collected(pairs.drop_last(), key);
    }
}

/// A value that is found under a key stands beside that key in some pair.
pub proof fn lemma_last_value_occurs(pairs: Query, key: Seq<char>)
    ensures
        last_value(pairs, key) matches Some(value) ==> pairs.contains((key, value)),
    decreases pairs.len(),
{
    if pairs.len() > 0 {
        if pairs.last().0 == key {
            assert(pairs[pairs.len() - 1] == (key, pairs.last().1));
        } else {
            let front = pairs.drop_last();
            lemma_last_value_occurs(front, key);
            if let Some(value) = last_value(front, key) {
                let i = choose|i: int| 0 <= i < front.len() && front[i] == (key, value);
                assert(pairs[i] == (key, value));
            }
        }
    }
}

/// A key has a value exactly when some pair carries it.
pub proof fn lemma_last_value_present(pairs: Query, key: Seq<char>)
    ensures
        last_value(pairs, key) is Some <==> has_key(pairs, key),
    decreases pairs.len(),
{
    if pairs.len() > 0 {
        let front = pairs.drop_last();
        lemma_last_value_present(front, key);
        if pairs.last().0 != key {
            if has_key(pairs, key) {
                let i = choose|i: int| 0 <= i < pairs.len() && (#[trigger] pairs[i]).0 == key;
                assert(front[i].0 == key);
            }
            if has_key(front, key) {
                let i = choose|i: int| 0 <= i < front.len() && (#[trigger] front[i]).0 == key;
                assert(pairs[i].0 == key);
            }
        }
    }
}

/// The value found under a key is that of the last pair that carries the key.
pub proof fn lemma_last_value_at(pairs: Query, key: Seq<char>, i: int)
    requires
        0 <= i < pairs.len(),
        pairs[i].0 == key,
        forall|j: int| i < j < pairs.len() ==> (#[trigger] pairs[j]).0 != key,
    ensures
        last_value(pairs, key) == Some(pairs[i].1),
    decreases pairs.len(),
{
    if i < pairs.len() - 1 {
        let front = pairs.drop_last();
        assert(forall|j: int| i < j < front.len() ==> (#[trigger] front[j]) == pairs[j]);
        lemma_last_value_at(front, key, i);
    }
}

/// A query holds a callback payload exactly when both `code` and `state` are
/// among its keys.
pub proof fn callback_needs_code_and_state(pairs: Query)
    ensures
        callback_in(pairs) is Some <==> has_key(pairs, CODE_KEY@) && has_key(pairs, STATE_KEY@),
{
    lemma_last_value_present(pairs, CODE_KEY@);
    lemma_last_value_present(pairs, STATE_KEY@);
}

/// A redirect URL whose query holds `code` once, at any position `i`, and
/// `state` once, at any position `j`, yields exactly the two values, whatever
/// other parameters stand before, between or after them.
pub proof fn redirect_yields_code_and_state(text: Seq<char>, pairs: Query, i: int, j: int)
    requires
        url_query(text) == Ok::<Query, Seq<char>>(pairs),
        0 <= i < pairs.len(),
        0 <= j < pairs.len(),
        pairs[i].0 == CODE_KEY@,
        pairs[j].0 == STATE_KEY@,
        forall|k: int| 0 <= k < pairs.len() && k != i ==> (#[trigger] pairs[k]).0 != CODE_KEY@,
        forall|k: int| 0 <= k < pairs.len() && k != j ==> (#[trigger] pairs[k]).0 != STATE_KEY@,
    ensures
        interpret(url_query(text)) == Ok::<CallbackModel, InputErrorModel>(
            CallbackModel { code: pairs[i].1, state: pairs[j].1 },
        ),
{
    lemma_last_value_at(pairs, CODE_KEY@, i);
    lemma_last_value_at(pairs, STATE_KEY@, j);
}

/// Where a key is unambiguous, the value found under it is the one that any
/// pair with the key carries.
pub proof fn lemma_unambiguous_value(pairs: Query, key: Seq<char>, value: Seq<char>)
    requires
        unambiguous(pairs, key),
    ensures
        last_value(pairs, key) == Some(value) <==> pairs.contains((key, value)),
{
    lemma_last_value_occurs(pairs, key);
    lemma_last_value_present(pairs, key);
    if pairs.contains((key, value)) {
        let i = choose|i: int| 0 <= i < pairs.len() && pairs[i] == (key, value);
        assert(pairs[i].0 == key);
        let found = last_value(pairs, key)->0;
        let j = choose|j: int| 0 <= j < pairs.len() && pairs[j] == (key, found);
        assert(pairs[j].0 == key);
    }
}

/// Two queries that hold the same pairs give the same value for a key that is
/// unambiguous in one of them.
pub proof fn lemma_same_pairs_same_value(first: Query, second: Query, key: Seq<char>)
    requires
        forall|pair: (Seq<char>, Seq<char>)| first.contains(pair) <==> second.contains(pair),
        unambiguous(first, key),
    ensures
        unambiguous(second, key),
        last_value(first, key) == last_value(second, key),
{
    assert forall|i: int, j: int|
        0 <= i < second.len() && 0 <= j < second.len() && (#[trigger] second[i]).0 == key && (
        #[trigger] second[j]).0 == key implies second[i].1 == second[j].1 by {
        assert(second.contains(second[i]));
        assert(second.contains(second[j]));
        let a = choose|a: int| 0 <= a < first.len() && first[a] == second[i];
        let b = choose|b: int| 0 <= b < first.len() && first[b] == second[j];
        assert(first[a].0 == key && first[b].0 == key);
    }
    lemma_last_value_occurs(first, key);
    lemma_last_value_occurs(second, key);
    match last_value(first, key) {
        Some(value) => {
            lemma_unambiguous_value(second, key, value);
        },
        None => {
            if let Some(value) = last_value(second, key) {
                lemma_unambiguous_value(first, key, value);
            }
        },
    }
}

/// Two queries that hold the same pairs, in whatever order, yield the same
/// callback payload, provided neither `code` nor `state` comes with two
/// different values.
pub proof fn order_of_parameters_is_irrelevant(first: Query, second: Query)
    requires
        forall|pair: (Seq<char>, Seq<char>)| first.contains(pair) <==> second.contains(pair),
        unambiguous(first, CODE_KEY@),
        unambiguous(first, STATE_KEY@),
    ensures
        callback_in(first) == callback_in(second),
{
    lemma_same_pairs_same_value(first, second, CODE_KEY@);
    lemma_same_pairs_same_value(first, second, STATE_KEY@);
}

/// A redirect URL that parses but lacks `code` or lacks `state` never yields a
/// payload: the diagnostic for missing parameters comes instead.
pub proof fn redirect_without_code_or_state_is_refused(text: Seq<char>, pairs: Query)
    requires
        url_query(text) == Ok::<Query, Seq<char>>(pairs),
        !has_key(pairs, CODE_KEY@) || !has_key(pairs, STATE_KEY@),
    ensures
        interpret(url_query(text)) == Err::<CallbackModel, InputErrorModel>(
            InputErrorModel::MissingParameters,
        ),
{
    callback_needs_code_and_state(pairs);
}

} // verus!
