//! The descriptor of an embedded game and its extraction from a page's text.

use vstd::prelude::*;
use vstd::string::StringExecFns;
use crate::number::{parse_u32, parsed_u32};
use crate::text::{chars_in, chars_of, enclosed, enclosed_in, occurs_at};

verus! {

/// The domain under which embedded games are served.
pub const STANDARD_DOMAIN: &'static str = "https://html.itch.zone/html/";

/// The domain under which games with the classic embed are served.
pub const CLASSIC_DOMAIN: &'static str = "https://html-classic.itch.zone/html/";

/// What is known of a game once its page has been read.
#[derive(Debug, Clone, PartialEq, Eq)]
pub struct GameInfo {
    /// The page's title; by convention the game's name, ` by ` and the author.
    pub title: String,
    /// The address of the playable asset.
    pub url: String,
    /// The width of the game in pixels.
    pub width: u32,
    /// The height of the game in pixels.
    pub height: u32,
}

/// A `GameInfo` as plain values.
pub struct GameInfoView {
    pub title: Seq<char>,
    pub url: Seq<char>,
    pub width: u32,
    pub height: u32,
}

impl View for GameInfo {
    type V = GameInfoView;

    open spec fn view(&self) -> GameInfoView {
        GameInfoView { title: self.title@, url: self.url@, width: self.width, height: self.height }
    }
}

/// What an optional descriptor holds, as plain values.
pub open spec fn info_in(info: Option<GameInfo>) -> Option<GameInfoView> {
    match info {
        Some(g) => Some(g@),
        None => None,
    }
}

/// The start of a `src` attribute whose value begins with `domain`.
pub open spec fn source_opening(domain: Seq<char>) -> Seq<char> {
    "src=\""@ + domain
}

/// The address of the first asset that the page takes from `domain`: the
/// domain, then what follows it in the attribute up to the closing quote.
pub open spec fn game_url(text: Seq<char>, domain: Seq<char>) -> Option<Seq<char>> {
    match enclosed(text, source_opening(domain), "\""@) {
        Some(path) => Some(domain + path),
        None => None,
    }
}

/// The asset's address: from the standard domain where the page names it,
/// from the classic domain otherwise.
pub open spec fn asset_url(text: Seq<char>) -> Option<Seq<char>> {
    match game_url(text, STANDARD_DOMAIN@) {
        Some(url) => Some(url),
        None => game_url(text, CLASSIC_DOMAIN@),
    }
}

/// The number in the first attribute that `opening` begins.
pub open spec fn dimension(text: Seq<char>, opening: Seq<char>) -> Option<u32> {
    match enclosed(text, opening, "\""@) {
        Some(value) => parsed_u32(value),
        None => None,
    }
}

/// The descriptor that a page's text yields: all four parts, or nothing.
pub open spec fn game_info(text: Seq<char>) -> Option<GameInfoView> {
    match (
        asset_url(text),
        enclosed(text, "<title>"@, "</title>"@),
        dimension(text, "data-width=\""@),
        dimension(text, "data-height=\""@),
    ) {
        (Some(url), Some(title), Some(width), Some(height)) => Some(
            GameInfoView { title, url, width, height },
        ),
        _ => None,
    }
}

/// `find_game` on a text already split into characters.
pub fn game_in(text: &[char], domain: &str) -> (url: Option<String>)
    ensures
        chars_in(url) == game_url(text@, domain@),
{
    let mut opening = chars_of("src=\"");
    let mut rest = chars_of(domain);
    opening.append(&mut rest);
    let quote = chars_of("\"");
    match enclosed_in(text, opening.as_slice(), quote.as_slice()) {
        Some(path) => {
            let mut url = domain.to_owned();
            url.append(path.as_str());
            Some(url)
        },
        None => None,
    }
}

/// Looks in `html` for a `src` attribute whose value begins with `domain`
/// and gives the whole address back: the domain and the path after it.
pub fn find_game(html: &str, domain: &str) -> (url: Option<String>)
    ensures
        chars_in(url) == game_url(html@, domain@),
{
    let text = chars_of(html);
    game_in(text.as_slice(), domain)
}

/// Reads the number in the first attribute of `text` that `opening` begins.
fn dimension_in(text: &[char], opening: &str) -> (value: Option<u32>)
    ensures
        value == dimension(text@, opening@),
{
    let opening_chars = chars_of(opening);
    let quote = chars_of("\"");
    match enclosed_in(text, opening_chars.as_slice(), quote.as_slice()) {
        Some(value) => parse_u32(value.as_str()),
        None => None,
    }
}

/// Reads a game's descriptor out of its page. The asset's address is taken
/// from the standard domain, and from the classic domain only where the page
/// names none under the standard one. The title and both dimensions must be
/// there as well, and the dimensions must be numbers: a page that lacks any
/// part yields nothing.
pub fn extract_game_info(html: &str) -> (info: Option<GameInfo>)
    ensures
        info_in(info) == game_info(html@),
{
    let text = chars_of(html);
    let url = match game_in(text.as_slice(), STANDARD_DOMAIN) {
        Some(url) => url,
        None => match game_in(text.as_slice(), CLASSIC_DOMAIN) {
            Some(url) => url,
            None => {
                return None;
            },
        },
    };
    let title_opening = chars_of("<title>");
    let title_closing = chars_of("</title>");
    let title = match enclosed_in(
        text.as_slice(),
        title_opening.as_slice(),
        title_closing.as_slice(),
    ) {
        Some(title) => title,
        None => {
            return None;
        },
    };
    let width = match dimension_in(text.as_slice(), "data-width=\"") {
        Some(width) => width,
        None => {
            return None;
        },
    };
    let height = match dimension_in(text.as_slice(), "data-height=\"") {
        Some(height) => height,
        None => {
            return None;
        },
    };
    Some(GameInfo { title, url, width, height })
}

/// The first domain that matches wins: where the page names an asset under
/// the standard domain, that address is the one in the descriptor, whatever
/// the page holds for the classic domain.
pub proof fn lemma_standard_domain_wins(text: Seq<char>)
    requires
        game_url(text, STANDARD_DOMAIN@) is Some,
    ensures
        asset_url(text) == game_url(text, STANDARD_DOMAIN@),
        game_info(text) matches Some(info) ==> Some(info.url) == game_url(text, STANDARD_DOMAIN@),
{
}

/// The classic domain is the fallback: it gives the address exactly where
/// the page names no asset under the standard domain.
pub proof fn lemma_classic_domain_is_fallback(text: Seq<char>)
    requires
        game_url(text, STANDARD_DOMAIN@) is None,
    ensures
        asset_url(text) == game_url(text, CLASSIC_DOMAIN@),
        game_info(text) matches Some(info) ==> Some(info.url) == game_url(text, CLASSIC_DOMAIN@),
{
}

/// A page whose width or height is not a number yields no descriptor at all:
/// none is made up with a zero in its place.
pub proof fn lemma_dimensions_required(text: Seq<char>)
    requires
        dimension(text, "data-width=\""@) is None || dimension(text, "data-height=\""@) is None,
    ensures
        game_info(text) is None,
{
}

/// A page without a `<title>` tag yields no descriptor, whatever else it holds.
pub proof fn lemma_title_required(text: Seq<char>)
    requires
        forall|j: int| !occurs_at(text, "<title>"@, j),
    ensures
        game_info(text) is None,
{
    crate::text::lemma_no_opening(text, "<title>"@, "</title>"@);
}

/// A page that names no asset under either domain yields no descriptor.
pub proof fn lemma_asset_required(text: Seq<char>)
    requires
        asset_url(text) is None,
    ensures
        game_info(text) is None,
{
}

} // verus!
