//! From a fetched page to the answer of the load command.

use vstd::prelude::*;
use crate::game::{extract_game_info, game_info, GameInfo, GameInfoView};
use crate::text::{chars_of, matches_at, occurs_at};

verus! {

/// `text` with each occurrence of `pat` replaced by `with`, the occurrences
/// taken from left to right and never overlapping. An empty `pat` replaces
/// nothing.
pub open spec fn replaced(text: Seq<char>, pat: Seq<char>, with: Seq<char>) -> Seq<char>
    recommends
        pat.len() > 0,
    decreases text.len(),
{
    if text.len() == 0 || pat.len() == 0 {
        text
    } else if occurs_at(text, pat, 0) {
        with + replaced(text.skip(pat.len() as int), pat, with)
    } else {
        text.take(1) + replaced(text.skip(1), pat, with)
    }
}

/// `text` with every `&quot;` entity turned into the double quote it stands for.
pub open spec fn unquoted(text: Seq<char>) -> Seq<char> {
    replaced(text, "&quot;"@, "\""@)
}

/// Turns every `&quot;` entity of `text` into a double quote, so that
/// attributes can be found by their quotes.
pub fn normalize(text: &str) -> (clean: String)
    ensures
        clean@ == unquoted(text@),
{
    let chars = chars_of(text);
    let entity = chars_of("&quot;");
    proof {
        reveal_strlit("&quot;");
        reveal_strlit("\"");
    }
    let ghost quote = "\""@;
    let mut clean = String::new();
    let mut k: usize = 0;
    assert(chars@.skip(0) =~= chars@);
    assert(clean@ + unquoted(text@) =~= unquoted(text@));
    while k < chars.len()
        invariant
            k <= chars.len(),
            chars@ == text@,
            entity@ == "&quot;"@,
            entity@.len() == 6,
            quote == seq!['"'],
            clean@ + replaced(chars@.skip(k as int), entity@, quote) == unquoted(text@),
        decreases chars.len() - k,
    {
        let ghost rest = chars@.skip(k as int);
        let ghost done = clean@;
        if matches_at(chars.as_slice(), entity.as_slice(), k) {
            assert(rest.subrange(0, 6) =~= chars@.subrange(k as int, k + 6));
            assert(rest.skip(6) =~= chars@.skip(k + 6));
            clean.push('"');
            k += entity.len();
            assert(clean@ + replaced(chars@.skip(k as int), entity@, quote) =~= done + (quote
                + replaced(rest.skip(6), entity@, quote)));
        } else {
            assert(!occurs_at(rest, entity@, 0)) by {
                if occurs_at(rest, entity@, 0) {
                    assert(rest.subrange(0, 6) =~= chars@.subrange(k as int, k + 6));
                }
            }
            assert(rest.skip(1) =~= chars@.skip(k + 1));
            clean.push(chars[k]);
            k += 1;
            assert(clean@ + replaced(chars@.skip(k as int), entity@, quote) =~= done + (rest.take(1)
                + replaced(rest.skip(1), entity@, quote)));
        }
    }
    assert(clean@ + replaced(chars@.skip(k as int), entity@, quote) =~= clean@);
    clean
}

/// Why a game could not be loaded.
#[derive(Clone, Copy, Debug, PartialEq, Eq, Structural)]
pub enum LoadError {
    /// The request for the page could not be completed.
    Transport,
    /// A response came, but its body could not be read as text.
    Body,
    /// The page was read, but it describes no game.
    Parse,
}

impl LoadError {
    /// The message that stands for this error.
    pub open spec fn text(self) -> Seq<char> {
        match self {
            LoadError::Transport => "Could not complete HTTP request."@,
            LoadError::Body => "Invalid HTTP response."@,
            LoadError::Parse => "Could not parse site."@,
        }
    }

    /// The message shown to the user for this error.
    pub fn message(&self) -> (message: String)
        ensures
            message@ == self.text(),
    {
        match self {
            LoadError::Transport => "Could not complete HTTP request.".to_owned(),
            LoadError::Body => "Invalid HTTP response.".to_owned(),
            LoadError::Parse => "Could not parse site.".to_owned(),
        }
    }
}

/// How fetching a page ended.
#[derive(Clone, Debug, PartialEq, Eq)]
pub enum Fetched {
    /// The request could not be completed.
    NoResponse,
    /// The response's body could not be read as text.
    NoBody,
    /// The page's text, as it came.
    Page(String),
}

/// What a page's text, as it came, says of the game.
pub open spec fn page_game(body: Seq<char>) -> Result<GameInfoView, LoadError> {
    match game_info(unquoted(body)) {
        Some(info) => Ok(info),
        None => Err(LoadError::Parse),
    }
}

/// What a fetch leads to: the game, or the one error that names the step
/// which failed.
pub open spec fn loaded(fetched: Fetched) -> Result<GameInfoView, LoadError> {
    match fetched {
        Fetched::NoResponse => Err(LoadError::Transport),
        Fetched::NoBody => Err(LoadError::Body),
        Fetched::Page(body) => page_game(body@),
    }
}

/// The answer of the load command as plain values.
pub open spec fn answer_in(answer: Result<GameInfo, String>) -> Result<GameInfoView, Seq<char>> {
    match answer {
        Ok(info) => Ok(info@),
        Err(message) => Err(message@),
    }
}

/// The answer that the load command owes for a fetch: the game, or the
/// message of the error.
pub open spec fn answered(fetched: Fetched) -> Result<GameInfoView, Seq<char>> {
    match loaded(fetched) {
        Ok(info) => Ok(info),
        Err(error) => Err(error.text()),
    }
}

/// Reads the game out of a page's text as it came: entities are normalized,
/// then the descriptor is extracted.
pub fn game_from_page(body: &str) -> (game: Result<GameInfo, LoadError>)
    ensures
        match game {
            Ok(info) => page_game(body@) == Ok::<GameInfoView, LoadError>(info@),
            Err(error) => page_game(body@) == Err::<GameInfoView, LoadError>(error),
        },
{
    let clean = normalize(body);
    match extract_game_info(clean.as_str()) {
        Some(info) => Ok(info),
        None => Err(LoadError::Parse),
    }
}

/// Answers the load command once the fetch has ended: the game's descriptor,
/// or the message for the step that failed.
pub fn load_answer(fetched: &Fetched) -> (answer: Result<GameInfo, String>)
    ensures
        answer_in(answer) == answered(*fetched),
{
    match fetched {
        Fetched::NoResponse => Err(LoadError::Transport.message()),
        Fetched::NoBody => Err(LoadError::Body.message()),
        Fetched::Page(body) => match game_from_page(body.as_str()) {
            Ok(info) => Ok(info),
            Err(error) => Err(error.message()),
        },
    }
}

} // verus!
