//! The game's decisions, apart from the store: which page a path names, what a
//! request needs from the store, and the response for each answer of the store.
//! The caller performs each store operation and hands its result back.

use vstd::prelude::*;
use vstd::utf8::encode_utf8;
use core::time::Duration;
use std::time::Instant;
use crate::duration::{humanize_seconds, humanized, whole_seconds};
use crate::response::{Response, MediaType, Language, header, code, gemini_type, lang_param};
use crate::storage::{User, Error, BASTOW, BASTOW_WOODLANDS};
use crate::text::{decimal, signed_decimal, push_decimal, push_signed};

verus! {

#[verifier::external_type_specification]
#[verifier::external_body]
pub struct ExInstant(std::time::Instant);

/// The game, with the moment the server started.
pub struct Application {
    start_time: Instant,
}

impl Application {
    pub fn new(start_time: Instant) -> (r: Application)
        ensures
            r.start_time() == start_time,
    {
        Application { start_time }
    }

    pub closed spec fn start_time(&self) -> Instant {
        self.start_time
    }

    /// The moment the server started.
    pub fn started(&self) -> (r: &Instant)
        ensures
            *r == self.start_time(),
    {
        &self.start_time
    }
}

/// The pages of the game.
#[derive(PartialEq, Eq, Structural, Debug, Clone, Copy)]
pub enum Route {
    Landing,
    About,
    Adventure,
    Fight,
    Rest,
    Bastow,
    BastowWoodlands,
    Unknown,
}

/// The page that a percent-encoded path (as UTF-8 bytes) names.  A path that
/// has no segments, or the single empty segment, is the landing page.
pub open spec fn route_of(path: Seq<u8>) -> Route {
    if path.len() == 0 || path[0] != 47u8 || path == encode_utf8("/"@) {
        Route::Landing
    } else if path == encode_utf8("/about"@) {
        Route::About
    } else if path == encode_utf8("/adventure"@) {
        Route::Adventure
    } else if path == encode_utf8("/adventure/fight"@) {
        Route::Fight
    } else if path == encode_utf8("/adventure/rest"@) {
        Route::Rest
    } else if path == encode_utf8("/adventure/bastow"@) {
        Route::Bastow
    } else if path == encode_utf8("/adventure/bastow-woodlands"@) {
        Route::BastowWoodlands
    } else {
        Route::Unknown
    }
}

fn bytes_equal(a: &[u8], b: &[u8]) -> (r: bool)
    ensures
        r == (a@ == b@),
{
    if a.len() != b.len() {
        return false;
    }
    let mut i: usize = 0;
    while i < a.len()
        invariant
            a@.len() == b@.len(),
            i <= a@.len(),
            a@.take(i as int) == b@.take(i as int),
        decreases a@.len() - i,
    {
        if a[i] != b[i] {
            assert(a@[i as int] != b@[i as int]);
            return false;
        }
        assert(a@.take(i + 1) =~= a@.take(i as int).push(a@[i as int]));
        assert(b@.take(i + 1) =~= b@.take(i as int).push(b@[i as int]));
        i = i + 1;
    }
    assert(a@ =~= a@.take(i as int));
    assert(b@ =~= b@.take(i as int));
    true
}

/// The page that the path of a request names.
pub fn route(path: &str) -> (r: Route)
    ensures
        r == route_of(encode_utf8(path@)),
{
    let p = path.as_bytes();
    if p.len() == 0 || p[0] != 47u8 || bytes_equal(p, "/".as_bytes()) {
        Route::Landing
    } else if bytes_equal(p, "/about".as_bytes()) {
        Route::About
    } else if bytes_equal(p, "/adventure".as_bytes()) {
        Route::Adventure
    } else if bytes_equal(p, "/adventure/fight".as_bytes()) {
        Route::Fight
    } else if bytes_equal(p, "/adventure/rest".as_bytes()) {
        Route::Rest
    } else if bytes_equal(p, "/adventure/bastow".as_bytes()) {
        Route::Bastow
    } else if bytes_equal(p, "/adventure/bastow-woodlands".as_bytes()) {
        Route::BastowWoodlands
    } else {
        Route::Unknown
    }
}

/// The header of every page: status 20, `text/gemini; lang=en`.
pub open spec fn page_header() -> Seq<char> {
    header(code('2', '0'), gemini_type() + lang_param() + seq!['e', 'n'])
}

fn english_page(body: String) -> (r: Response)
    ensures
        r@ == page_header() + body@,
{
    Response::success(MediaType::gemini(Some(Language::english())), body)
}

pub const LANDING_TEXT: &'static str = "You have reached the enchanted land of Namushul.\r\n\r\nAre you ready to begin your adventure?\r\n=> /adventure Enter\r\n=> /about About";

/// The landing page.
pub fn serve_landing() -> (r: Response)
    ensures
        r@ == page_header() + LANDING_TEXT@,
{
    english_page(String::from_str(LANDING_TEXT))
}

/// The lines about the player at the top of the status pages.
pub open spec fn player_lines(u: User) -> Seq<char> {
    "### "@ + u.name@ + "\r\nHP: "@ + signed_decimal(u.health as int) + "/"@ + signed_decimal(
        u.max_health as int,
    ) + "\r\n"@
}

fn push_player_lines(s: &mut String, user: &User)
    ensures
        final(s)@ == old(s)@ + player_lines(*user),
{
    s.append("### ");
    s.append(user.name.as_str());
    s.append("\r\nHP: ");
    push_signed(s, user.health);
    s.append("/");
    push_signed(s, user.max_health);
    s.append("\r\n");
    assert(final(s)@ =~= old(s)@ + player_lines(*user));
}

pub const BASTOW_TEXT: &'static str = "### Bastow \r\nYou are in the small port town of Bastow. The town has an inn. A small gravel path leads out of town and into the forest.\r\n### Travel\r\n=> /adventure/bastow-woodlands 🌳 Follow the path into the forest.\r\n### Actions\r\n=> /adventure/rest 🛏 Rest at the inn.";

pub const BASTOW_WOODLANDS_TEXT: &'static str = "### Bastow Woodlands \r\nYou are in Bastow Woodland. You see nothing of interest.\r\n### Travel\r\n=> /adventure/bastow 👣 Go back to Bastow.\r\n### Actions\r\n=> /adventure/fight 👊 Fight slimes.";

/// The status page in Bastow.
pub fn bastow(user: User) -> (r: Response)
    ensures
        r@ == page_header() + player_lines(user) + BASTOW_TEXT@,
{
    let mut s = String::new();
    push_player_lines(&mut s, &user);
    s.append(BASTOW_TEXT);
    assert(s@ =~= player_lines(user) + BASTOW_TEXT@);
    let r = english_page(s);
    assert(r@ =~= page_header() + player_lines(user) + BASTOW_TEXT@);
    r
}

/// The status page in the woodlands.
pub fn bastow_woodlands(user: User) -> (r: Response)
    ensures
        r@ == page_header() + player_lines(user) + BASTOW_WOODLANDS_TEXT@,
{
    let mut s = String::new();
    push_player_lines(&mut s, &user);
    s.append(BASTOW_WOODLANDS_TEXT);
    assert(s@ =~= player_lines(user) + BASTOW_WOODLANDS_TEXT@);
    let r = english_page(s);
    assert(r@ =~= page_header() + player_lines(user) + BASTOW_WOODLANDS_TEXT@);
    r
}

/// The status page of the player's location; any location but the woodlands
/// counts as Bastow.
pub open spec fn status_view(u: User) -> Seq<char> {
    page_header() + player_lines(u) + if u.location_id == BASTOW_WOODLANDS {
        BASTOW_WOODLANDS_TEXT@
    } else {
        BASTOW_TEXT@
    }
}

/// The status page of the player's location.
pub fn status_page(user: User) -> (r: Response)
    ensures
        r@ == status_view(user),
{
    if user.location_id == BASTOW_WOODLANDS {
        bastow_woodlands(user)
    } else {
        bastow(user)
    }
}

/// The about page: the number of players and the uptime.
pub open spec fn about_view(user_count: nat, uptime_seconds: nat) -> Seq<char> {
    page_header() + "### About\r\n👥 Users: "@ + decimal(user_count) + " · 🕗 Uptime: "@
        + humanized(uptime_seconds) + "\r\n"@
}

/// The about page for `user_count` players and an uptime of whole seconds.
pub fn about_page(user_count: u64, uptime_seconds: u64) -> (r: Response)
    ensures
        r@ == about_view(user_count as nat, uptime_seconds as nat),
{
    let mut s = String::from_str("### About\r\n👥 Users: ");
    push_decimal(&mut s, user_count);
    s.append(" · 🕗 Uptime: ");
    let up = humanize_seconds(uptime_seconds);
    s.append(up.as_str());
    s.append("\r\n");
    let r = english_page(s);
    assert(r@ =~= about_view(user_count as nat, uptime_seconds as nat));
    r
}

/// The about page, once the store has counted the players.
pub fn about(user_count: Result<u64, Error>, uptime: Duration) -> (r: Response)
    ensures
        match user_count {
            Ok(n) => exists|secs: u64| r@ == about_view(n as nat, secs as nat),
            Err(_) => r@ == header(code('4', '0'), "Failed to count users"@),
        },
{
    match user_count {
        Ok(n) => about_page(n, whole_seconds(&uptime)),
        Err(_) => Response::temporary_failure(String::from_str("Failed to count users")),
    }
}

/// The response when the store cannot be reached.
pub fn storage_unavailable() -> (r: Response)
    ensures
        r@ == header(code('4', '0'), "Failed to connect to database"@),
{
    Response::temporary_failure(String::from_str("Failed to connect to database"))
}

/// What a request needs first.
pub enum Opening {
    /// Send this response; the store is not needed.
    Respond(Response),
    /// Count the players (for the about page).
    CountUsers,
    /// Look the player up by fingerprint.
    LookUpUser,
}

/// The message that asks a client without a certificate to present one.
pub const CERTIFICATE_PROMPT: &'static str = "Hello brave traveler. To venture further into this land you must present a certificate.";

/// The first decision on a request: the landing page and the about page are
/// open to all; any other page needs a client certificate.
pub fn open_request(route: Route, has_identity: bool) -> (r: Opening)
    ensures
        route == Route::Landing ==> (r matches Opening::Respond(resp) && resp@ == page_header()
            + LANDING_TEXT@),
        route == Route::About ==> r is CountUsers,
        route != Route::Landing && route != Route::About && !has_identity ==> (
        r matches Opening::Respond(resp) && resp@ == header(code('6', '0'), CERTIFICATE_PROMPT@)),
        route != Route::Landing && route != Route::About && has_identity ==> r is LookUpUser,
{
    match route {
        Route::Landing => Opening::Respond(serve_landing()),
        Route::About => Opening::CountUsers,
        _ => if has_identity {
            Opening::LookUpUser
        } else {
            Opening::Respond(
                Response::client_certificate_required(String::from_str(CERTIFICATE_PROMPT)),
            )
        },
    }
}

/// What follows the lookup of the player.
pub enum Identified {
    /// The player is known.
    Known(User),
    /// Create a new player with this name.
    Create(String),
    /// Send this response.
    Respond(Response),
}

/// The decision on the answer of the store to a lookup: an unknown player is
/// created under the name given as the query, or asked for one.
pub fn after_lookup(lookup: Result<User, Error>, query: Option<String>) -> (r: Identified)
    ensures
        match lookup {
            Ok(u) => r == Identified::Known(u),
            Err(Error::NotFound) => match query {
                Some(name) => r == Identified::Create(name),
                None => r matches Identified::Respond(resp) && resp@ == header(
                    code('1', '0'),
                    "Choose a name for your character"@,
                ),
            },
            Err(_) => r matches Identified::Respond(resp) && resp@ == header(
                code('4', '0'),
                "Failed to get/create user"@,
            ),
        },
{
    match lookup {
        Ok(u) => Identified::Known(u),
        Err(Error::NotFound) => match query {
            Some(name) => Identified::Create(name),
            None => Identified::Respond(
                Response::input(String::from_str("Choose a name for your character")),
            ),
        },
        Err(_) => Identified::Respond(
            Response::temporary_failure(String::from_str("Failed to get/create user")),
        ),
    }
}

/// The decision on the answer of the store to the creation of a player.
pub fn after_create(created: Result<User, Error>) -> (r: Result<User, Response>)
    ensures
        match created {
            Ok(u) => r == Ok::<User, Response>(u),
            Err(_) => r matches Err(resp) && resp@ == header(
                code('4', '0'),
                "Failed to create user"@,
            ),
        },
{
    match created {
        Ok(u) => Ok(u),
        Err(_) => Err(Response::temporary_failure(String::from_str("Failed to create user"))),
    }
}

/// A change to a player's record.
#[derive(PartialEq, Eq, Structural, Debug, Clone, Copy)]
pub enum Update {
    Health(i32),
    Location(i32),
}

/// What the player's request does.
pub enum Play {
    /// Send this response.
    Respond(Response),
    /// Store this change of the player, then answer with `after_update`.
    Store(User, Update),
}

/// The path back to the status page.
pub open spec fn adventure_path() -> Seq<char> {
    "/adventure"@
}

/// The decision on a request of a known player.
pub fn play(route: Route, user: User) -> (r: Play)
    ensures
        match route {
            Route::Adventure => r matches Play::Respond(resp) && resp@ == status_view(user),
            Route::Fight => if user.health <= 0 {
                r matches Play::Respond(resp) && resp@ == header(code('3', '0'), adventure_path())
            } else {
                r == Play::Store(user, Update::Health((user.health - 1) as i32))
            },
            Route::Rest => r == Play::Store(user, Update::Health(user.max_health)),
            Route::Bastow => if user.location_id == BASTOW {
                r matches Play::Respond(resp) && resp@ == status_view(user)
            } else if user.location_id != BASTOW_WOODLANDS {
                r matches Play::Respond(resp) && resp@ == header(
                    code('5', '9'),
                    "Invalid destination"@,
                )
            } else {
                r == Play::Store(user, Update::Location(BASTOW))
            },
            Route::BastowWoodlands => if user.location_id == BASTOW_WOODLANDS {
                r matches Play::Respond(resp) && resp@ == status_view(user)
            } else {
                r == Play::Store(user, Update::Location(BASTOW_WOODLANDS))
            },
            _ => r matches Play::Respond(resp) && resp@ == header(code('5', '1'), Seq::empty()),
        },
{
    match route {
        Route::Adventure => Play::Respond(status_page(user)),
        Route::Fight => {
            if user.health <= 0 {
                Play::Respond(Response::redirect_temporary(String::from_str("/adventure")))
            } else {
                let health = user.health - 1;
                Play::Store(user, Update::Health(health))
            }
        },
        Route::Rest => {
            let health = user.max_health;
            Play::Store(user, Update::Health(health))
        },
        Route::Bastow => {
            if user.location_id == BASTOW {
                Play::Respond(status_page(user))
            } else if user.location_id != BASTOW_WOODLANDS {
                Play::Respond(Response::bad_request(String::from_str("Invalid destination")))
            } else {
                Play::Store(user, Update::Location(BASTOW))
            }
        },
        Route::BastowWoodlands => {
            if user.location_id == BASTOW_WOODLANDS {
                Play::Respond(status_page(user))
            } else {
                Play::Store(user, Update::Location(BASTOW_WOODLANDS))
            }
        },
        _ => {
            let r = Response::not_found(String::new());
            assert(r@ =~= header(code('5', '1'), Seq::empty()));
            Play::Respond(r)
        },
    }
}

/// The response once the store has answered a change: back to the status
/// page after a change of health, the new location's page after a move.
pub fn after_update(update: Update, stored: Result<User, Error>) -> (r: Response)
    ensures
        match stored {
            Ok(u) => match update {
                Update::Health(_) => r@ == header(code('3', '0'), adventure_path()),
                Update::Location(_) => r@ == status_view(u),
            },
            Err(_) => r@ == header(code('4', '0'), "Failed to update user"@),
        },
{
    match stored {
        Ok(u) => match update {
            Update::Health(_) => Response::redirect_temporary(String::from_str("/adventure")),
            Update::Location(_) => status_page(u),
        },
        Err(_) => Response::temporary_failure(String::from_str("Failed to update user")),
    }
}

} // verus!
