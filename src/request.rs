use vstd::prelude::*;
use crate::prompt::{
    filled_template, generate_chat_gpt_prompt, NO_PREVIOUS_TURN, TEMPLATE_HEAD, TEMPLATE_MIDDLE,
};
use crate::raw_example::{generate_sample, samples_text};

verus! {

/// The overall rating that the user would like the grader to reach.
#[derive(Clone, Copy, Debug, PartialEq, Eq, Structural)]
pub enum Difficulty {
    NoPreference,
    Easy,
    Medium,
    Hard,
}

/// How many points per category the user would like in the answer.
#[derive(Clone, Copy, Debug, PartialEq, Eq, Structural)]
pub enum LengthPreference {
    Short,
    Normal,
    Long,
}

/// Why a request could not be composed.
#[derive(Clone, Copy, Debug, PartialEq, Eq, Structural)]
pub enum ComposeError {
    /// The prompt to be graded was empty.
    EmptyPrompt,
}

impl ComposeError {
    /// A sentence that describes the error.
    pub fn message(&self) -> (r: String)
        ensures
            r@ == "Prompt cannot be empty."@,
    {
        String::from_str("Prompt cannot be empty.")
    }
}

/// Opens the clause that names the preferred overall rating.
pub const PREFERENCE_OPENING: &'static str = "\nI do have a preference for the overall rating of ";

/// Closes the clause that names the preferred overall rating.
pub const PREFERENCE_CLOSING: &'static str = "\n\
        So you are welcome to weak your words to get that overall rating. \
        That is the overall rating, not the component rating, so feel free to wiggle the component rating
        if possible to make it sounds fair.
        Of course, being reasonable is important, so if you tried hard but cannot, it's fine.\
        ";

/// Discourages the same rating in all four categories.
pub const VARIED_RATINGS_CLAUSE: &'static str = "Avoid if possible putting all 4 sub rating to be the same thing.\
    That does not sound like a subjective judgement\n";

/// Asks for at most two points per category.
pub const SHORT_CLAUSE: &'static str = "\nFinally. I would like a simple answer, so I strongly prefer no more than 2 points \
        per category, as the absolute max should be 3. Also, if you can, please put 1\n";

/// Asks for at most five points per category.
pub const NORMAL_CLAUSE: &'static str = "\nFinally. I would like a simple answer, so I absolutely \
        want no more than 5 points per category, and most category should be between 2-3 points\n";

/// Asks for as many points as the grader likes.
pub const LONG_CLAUSE: &'static str = "\nFinally. I would like a long answer, so feel free to add  as many point as possible\
        to describe your selection\n";

/// The selector index of a difficulty: 0 is no preference, 1 easy, 2 medium,
/// anything else hard.
pub open spec fn difficulty_of_index(i: usize) -> Difficulty {
    if i == 0 {
        Difficulty::NoPreference
    } else if i == 1 {
        Difficulty::Easy
    } else if i == 2 {
        Difficulty::Medium
    } else {
        Difficulty::Hard
    }
}

/// The selector index of a length: 0 is short, 2 long, anything else normal.
pub open spec fn length_of_index(i: usize) -> LengthPreference {
    if i == 0 {
        LengthPreference::Short
    } else if i == 2 {
        LengthPreference::Long
    } else {
        LengthPreference::Normal
    }
}

impl Difficulty {
    /// The difficulty chosen by a selector index.
    pub fn from_index(i: usize) -> (r: Difficulty)
        ensures
            r == difficulty_of_index(i),
    {
        match i {
            0 => Difficulty::NoPreference,
            1 => Difficulty::Easy,
            2 => Difficulty::Medium,
            _ => Difficulty::Hard,
        }
    }
}

impl LengthPreference {
    /// The length chosen by a selector index.
    pub fn from_index(i: usize) -> (r: LengthPreference)
        ensures
            r == length_of_index(i),
    {
        match i {
            0 => LengthPreference::Short,
            2 => LengthPreference::Long,
            _ => LengthPreference::Normal,
        }
    }
}

/// The name of the rating asked for; any preference other than easy or
/// medium asks for hard.
pub open spec fn rating_name(d: Difficulty) -> Seq<char> {
    match d {
        Difficulty::Easy => "Easy"@,
        Difficulty::Medium => "Medium"@,
        _ => "Hard"@,
    }
}

/// The preference clause, empty when there is no preference.
pub open spec fn preference_clause(d: Difficulty) -> Seq<char> {
    if d == Difficulty::NoPreference {
        Seq::empty()
    } else {
        PREFERENCE_OPENING@ + rating_name(d) + PREFERENCE_CLOSING@
    }
}

/// The clause that asks for the chosen length.
pub open spec fn length_clause(l: LengthPreference) -> Seq<char> {
    match l {
        LengthPreference::Short => SHORT_CLAUSE@,
        LengthPreference::Normal => NORMAL_CLAUSE@,
        LengthPreference::Long => LONG_CLAUSE@,
    }
}

/// The whole request for a non-empty prompt.
pub open spec fn request_text(
    current_prompt: Seq<char>,
    previous_turn: Seq<char>,
    d: Difficulty,
    l: LengthPreference,
) -> Seq<char> {
    filled_template(current_prompt, previous_turn) + samples_text() + preference_clause(d)
        + VARIED_RATINGS_CLAUSE@ + length_clause(l)
}

/// What composing a request gives: an error for an empty prompt, else the text.
pub open spec fn composed(
    current_prompt: Seq<char>,
    previous_turn: Seq<char>,
    d: Difficulty,
    l: LengthPreference,
) -> Result<Seq<char>, ComposeError> {
    if current_prompt.len() == 0 {
        Err(ComposeError::EmptyPrompt)
    } else {
        Ok(request_text(current_prompt, previous_turn, d, l))
    }
}

/// A composed result, with the text seen as characters.
pub open spec fn outcome(r: Result<String, ComposeError>) -> Result<Seq<char>, ComposeError> {
    match r {
        Ok(s) => Ok(s@),
        Err(e) => Err(e),
    }
}

/// Builds the grading request: the filled template, both worked examples, the
/// rating preference if any, the clause against uniform ratings, and the
/// length clause.
pub fn compose(
    current_prompt: String,
    previous_turn: String,
    difficulty: Difficulty,
    length: LengthPreference,
) -> (r: Result<String, ComposeError>)
    ensures
        outcome(r) == composed(current_prompt@, previous_turn@, difficulty, length),
        r is Err <==> current_prompt@.len() == 0,
{
    if current_prompt.as_str().is_empty() {
        return Err(ComposeError::EmptyPrompt);
    }
    let mut text = generate_chat_gpt_prompt(current_prompt, previous_turn);
    let samples = generate_sample();
    text.append(samples.as_str());
    match difficulty {
        Difficulty::NoPreference => {},
        _ => {
            let rating: &str = match difficulty {
                Difficulty::Easy => "Easy",
                Difficulty::Medium => "Medium",
                _ => "Hard",
            };
            text.append(PREFERENCE_OPENING);
            text.append(rating);
            text.append(PREFERENCE_CLOSING);
        },
    }
    assert(text@ =~= filled_template(current_prompt@, previous_turn@) + samples_text()
        + preference_clause(difficulty));
    text.append(VARIED_RATINGS_CLAUSE);
    let clause: &str = match length {
        LengthPreference::Short => SHORT_CLAUSE,
        LengthPreference::Normal => NORMAL_CLAUSE,
        LengthPreference::Long => LONG_CLAUSE,
    };
    text.append(clause);
    assert(text@ =~= request_text(current_prompt@, previous_turn@, difficulty, length));
    Ok(text)
}

/// Builds the grading request from selector indices (see `difficulty_of_index`
/// and `length_of_index`).
pub fn gen_request_content(
    current_prompt: String,
    previous_turn: String,
    preference_difficulty: usize,
    preference_length: usize,
) -> (r: Result<String, ComposeError>)
    ensures
        outcome(r) == composed(
            current_prompt@,
            previous_turn@,
            difficulty_of_index(preference_difficulty),
            length_of_index(preference_length),
        ),
        r is Err <==> current_prompt@.len() == 0,
{
    compose(
        current_prompt,
        previous_turn,
        Difficulty::from_index(preference_difficulty),
        LengthPreference::from_index(preference_length),
    )
}

/// `needle` occurs somewhere in `hay`.
pub open spec fn occurs_in(needle: Seq<char>, hay: Seq<char>) -> bool {
    exists|i: int|
        0 <= i && i + needle.len() <= hay.len() && #[trigger] hay.subrange(i, i + needle.len())
            == needle
}

/// Composing is deterministic: two results that both meet the contract of
/// `compose` on the same four inputs are the same result, with the same text.
pub proof fn lemma_compose_deterministic(
    current_prompt: Seq<char>,
    previous_turn: Seq<char>,
    d: Difficulty,
    l: LengthPreference,
    r1: Result<String, ComposeError>,
    r2: Result<String, ComposeError>,
)
    requires
        outcome(r1) == composed(current_prompt, previous_turn, d, l),
        outcome(r2) == composed(current_prompt, previous_turn, d, l),
    ensures
        outcome(r1) == outcome(r2),
        r1 is Ok <==> r2 is Ok,
        r1 is Ok ==> r1->Ok_0@ == r2->Ok_0@,
{
}

/// A request composed with an empty previous turn shows the `(none)` sentinel.
pub proof fn lemma_empty_previous_turn_shows_none(
    current_prompt: Seq<char>,
    d: Difficulty,
    l: LengthPreference,
)
    requires
        current_prompt.len() > 0,
    ensures
        composed(current_prompt, Seq::empty(), d, l) is Ok,
        occurs_in("(none)"@, composed(current_prompt, Seq::empty(), d, l)->Ok_0),
{
    let t = request_text(current_prompt, Seq::empty(), d, l);
    let i: int = (TEMPLATE_HEAD@.len() + current_prompt.len() + TEMPLATE_MIDDLE@.len()) as int;
    assert(t.subrange(i, i + NO_PREVIOUS_TURN@.len() as int) =~= NO_PREVIOUS_TURN@);
}

/// A request ends with the clause of the length asked for.
pub proof fn lemma_request_ends_with_length_clause(
    current_prompt: Seq<char>,
    previous_turn: Seq<char>,
    d: Difficulty,
    l: LengthPreference,
)
    requires
        current_prompt.len() > 0,
    ensures
        ({
            let t = composed(current_prompt, previous_turn, d, l)->Ok_0;
            &&& composed(current_prompt, previous_turn, d, l) is Ok
            &&& length_clause(l).len() <= t.len()
            &&& t.subrange(t.len() - length_clause(l).len(), t.len() as int) == length_clause(l)
        }),
{
    let t = request_text(current_prompt, previous_turn, d, l);
    let c = length_clause(l);
    assert(t.subrange(t.len() - c.len(), t.len() as int) =~= c);
}

} // verus!
