use vstd::prelude::*;
use crate::text::{all_ascii, ascii_lowercase, contains, contains_text, lowercase, to_lowercase};

verus! {

/// An event of the Gamma API, with the markets it groups.
///
/// The API also reports an event's volume and liquidity as floating-point numbers; no rule
/// of this library reads them, and they are not held here.
#[derive(Debug)]
pub struct Event {
    pub id: String,
    pub title: String,
    pub slug: String,
    pub markets: Vec<Market>,
}

/// A market of an event, as the Gamma API lists it. `clob_token_ids` and `outcomes`
/// hold JSON arrays of strings, as text.
#[derive(Debug)]
pub struct Market {
    pub id: String,
    pub question: Option<String>,
    pub condition_id: Option<String>,
    pub clob_token_ids: Option<String>,
    pub outcomes: Option<String>,
    pub active: Option<bool>,
    pub closed: Option<bool>,
}

/// An outcome of a market and the CLOB token that trades it.
#[derive(Debug)]
pub struct OutcomeToken {
    pub outcome: String,
    pub token_id: String,
}

/// The strings that `serde_json` reads from JSON text as a `Vec<String>`, or `None`
/// where it refuses the text.
pub uninterp spec fn json_string_list(text: Seq<char>) -> Option<Seq<Seq<char>>>;

/// The strings of an optional JSON array text; none where the text is missing or is not
/// a JSON array of strings.
pub open spec fn string_list_or_empty(raw: Option<String>) -> Seq<Seq<char>> {
    match raw {
        Some(text) => match json_string_list(text@) {
            Some(list) => list,
            None => Seq::empty(),
        },
        None => Seq::empty(),
    }
}

/// The market is known to be active and known not to be closed.
pub open spec fn market_tradable(m: Market) -> bool {
    m.active == Some(true) && m.closed == Some(false)
}

/// The question of a market, or the empty text where it has none.
pub open spec fn question_text(m: Market) -> Seq<char> {
    match m.question {
        Some(q) => q@,
        None => Seq::empty(),
    }
}

/// The lowercase form of some text of the event contains `term`: its title, its slug or
/// the question of one of its markets.
pub open spec fn event_matches_lowered(event: Event, term: Seq<char>) -> bool {
    ||| contains_text(lowercase(event.title@), term)
    ||| contains_text(lowercase(event.slug@), term)
    ||| exists|j: int|
        0 <= j < event.markets@.len() && contains_text(lowercase(question_text(#[trigger] event.markets@[j])), term)
}

/// Calls `serde_json::from_str::<Vec<String>>`. Claims only that the answer is the
/// one named `json_string_list` for the text: what JSON it accepts is left unsaid.
#[verifier::external_body]
fn read_json_string_list(text: &str) -> (r: Option<Vec<String>>)
    ensures
        match r {
            Some(v) => json_string_list(text@) == Some(v.deep_view()),
            None => json_string_list(text@) is None,
        },
{
    serde_json::from_str::<Vec<String>>(text).ok()
}

/// The strings of an optional JSON array text; none where the text is missing or is not
/// a JSON array of strings.
pub fn parse_json_string_array(raw: Option<&str>) -> (r: Vec<String>)
    ensures
        r.deep_view() == match raw {
            Some(text) => match json_string_list(text@) {
                Some(list) => list,
                None => Seq::empty(),
            },
            None => Seq::<Seq<char>>::empty(),
        },
{
    match raw {
        Some(text) => match read_json_string_list(text) {
            Some(list) => list,
            None => {
                let empty: Vec<String> = Vec::new();
                proof {
                    assert(empty.deep_view() =~= Seq::<Seq<char>>::empty());
                }
                empty
            },
        },
        None => {
            let empty: Vec<String> = Vec::new();
            proof {
                assert(empty.deep_view() =~= Seq::<Seq<char>>::empty());
            }
            empty
        },
    }
}

/// Pairs outcomes with token ids in order, as far as both lists go.
pub fn pair_outcome_tokens(outcomes: Vec<String>, token_ids: Vec<String>) -> (r: Vec<OutcomeToken>)
    ensures
        r@.len() == if outcomes@.len() <= token_ids@.len() { outcomes@.len() } else { token_ids@.len() },
        forall|i: int|
            0 <= i < r@.len() ==> (#[trigger] r@[i]).outcome == outcomes@[i] && r@[i].token_id == token_ids@[i],
{
    let n: usize = if outcomes.len() <= token_ids.len() { outcomes.len() } else { token_ids.len() };
    let mut r: Vec<OutcomeToken> = Vec::new();
    let mut i: usize = 0;
    while i < n
        invariant
            n <= outcomes@.len(),
            n <= token_ids@.len(),
            i <= n,
            r@.len() == i,
            forall|k: int| 0 <= k < i ==> (#[trigger] r@[k]).outcome == outcomes@[k] && r@[k].token_id == token_ids@[k],
        decreases n - i,
    {
        r.push(OutcomeToken { outcome: outcomes[i].clone(), token_id: token_ids[i].clone() });
        i = i + 1;
    }
    r
}

impl Market {
    /// A market can be traded when it is known to be active and known not to be closed.
    pub fn is_tradable(&self) -> (r: bool)
        ensures
            r == market_tradable(*self),
    {
        let active = match self.active {
            Some(a) => a,
            None => false,
        };
        let open = match self.closed {
            Some(c) => !c,
            None => false,
        };
        active && open
    }

    /// The CLOB token ids of the market's outcomes; none where they are missing or unreadable.
    pub fn parsed_clob_token_ids(&self) -> (r: Vec<String>)
        ensures
            r.deep_view() == string_list_or_empty(self.clob_token_ids),
    {
        match &self.clob_token_ids {
            Some(text) => parse_json_string_array(Some(text.as_str())),
            None => parse_json_string_array(None),
        }
    }

    /// The names of the market's outcomes; none where they are missing or unreadable.
    pub fn parsed_outcomes(&self) -> (r: Vec<String>)
        ensures
            r.deep_view() == string_list_or_empty(self.outcomes),
    {
        match &self.outcomes {
            Some(text) => parse_json_string_array(Some(text.as_str())),
            None => parse_json_string_array(None),
        }
    }

    /// Each outcome paired with its token id, in order, as far as both lists go.
    pub fn outcome_tokens(&self) -> (r: Vec<OutcomeToken>)
        ensures
            ({
                let outcomes = string_list_or_empty(self.outcomes);
                let tokens = string_list_or_empty(self.clob_token_ids);
                &&& r@.len() == if outcomes.len() <= tokens.len() { outcomes.len() } else { tokens.len() }
                &&& forall|i: int|
                    0 <= i < r@.len() ==> (#[trigger] r@[i]).outcome@ == outcomes[i] && r@[i].token_id@ == tokens[i]
            }),
    {
        let outcomes = self.parsed_outcomes();
        let token_ids = self.parsed_clob_token_ids();
        pair_outcome_tokens(outcomes, token_ids)
    }
}

/// Whether the event's title, slug or one of its market questions contains the search
/// term, ignoring case: both sides are lowercased before the comparison.
pub fn event_matches_search(event: &Event, search_term: &str) -> (r: bool)
    ensures
        r == event_matches_lowered(*event, lowercase(search_term@)),
        search_term@.len() == 0 ==> r,
        all_ascii(search_term@) ==> r == event_matches_lowered(*event, ascii_lowercase(search_term@)),
{
    let term = to_lowercase(search_term);
    proof {
        if search_term@.len() == 0 {
            assert(term@ =~= Seq::<char>::empty());
            lemma_empty_term_matches_every_event(*event);
        }
    }
    event_matches_lowered_term(event, term.as_str())
}

/// Two ASCII search terms that differ only in the case of their letters match the same
/// events.
pub proof fn lemma_ascii_search_ignores_case(event: Event, a: Seq<char>, b: Seq<char>)
    requires
        all_ascii(a),
        all_ascii(b),
        ascii_lowercase(a) == ascii_lowercase(b),
    ensures
        event_matches_lowered(event, ascii_lowercase(a)) == event_matches_lowered(event, ascii_lowercase(b)),
{
}

/// Whether the event's title, slug or one of its market questions, lowercased, contains
/// `term` as it is.
pub fn event_matches_lowered_term(event: &Event, term: &str) -> (r: bool)
    ensures
        r == event_matches_lowered(*event, term@),
        r <==> (contains_text(lowercase(event.title@), term@) || contains_text(lowercase(event.slug@), term@)
            || exists|j: int|
            0 <= j < event.markets@.len() && #[trigger] contains_text(
                lowercase(question_text(event.markets@[j])),
                term@,
            )),
{
    proof {
        lemma_event_match_cases(*event, term@);
    }
    let title = to_lowercase(event.title.as_str());
    if contains(title.as_str(), term) {
        return true;
    }
    let slug = to_lowercase(event.slug.as_str());
    if contains(slug.as_str(), term) {
        return true;
    }
    let mut j: usize = 0;
    while j < event.markets.len()
        invariant
            j <= event.markets@.len(),
            !contains_text(lowercase(event.title@), term@),
            !contains_text(lowercase(event.slug@), term@),
            forall|k: int| 0 <= k < j ==> !contains_text(lowercase(question_text(#[trigger] event.markets@[k])), term@),
        decreases event.markets@.len() - j,
    {
        let question = match &event.markets[j].question {
            Some(q) => to_lowercase(q.as_str()),
            None => to_lowercase(""),
        };
        proof {
            assert(""@ =~= Seq::<char>::empty()) by {
                reveal_strlit("");
            }
        }
        if contains(question.as_str(), term) {
            assert(contains_text(lowercase(question_text(event.markets@[j as int])), term@));
            return true;
        }
        j = j + 1;
    }
    false
}

/// An event matches a lowered term exactly when the lowercase form of its title, of its
/// slug, or of the question of some market of it (at any position) contains the term.
pub proof fn lemma_event_match_cases(event: Event, term: Seq<char>)
    ensures
        event_matches_lowered(event, term) <==> (contains_text(lowercase(event.title@), term)
            || contains_text(lowercase(event.slug@), term) || exists|j: int|
            0 <= j < event.markets@.len() && #[trigger] contains_text(
                lowercase(question_text(event.markets@[j])),
                term,
            )),
{
}

/// A market at any position whose lowercased question contains the term makes the event match.
pub proof fn lemma_matching_question_matches_event(event: Event, term: Seq<char>, j: int)
    requires
        0 <= j < event.markets@.len(),
        contains_text(lowercase(question_text(event.markets@[j])), term),
    ensures
        event_matches_lowered(event, term),
{
    lemma_event_match_cases(event, term);
}

/// An empty lowered term matches every event: the empty text is part of any text.
pub proof fn lemma_empty_term_matches_every_event(event: Event)
    ensures
        event_matches_lowered(event, Seq::empty()),
{
    let title = lowercase(event.title@);
    let empty = Seq::<char>::empty();
    assert(title.subrange(0, 0int + empty.len()) =~= empty);
    assert(contains_text(title, empty));
}

} // verus!
