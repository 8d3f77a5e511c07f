use namushul::application::{
    after_create, after_lookup, after_update, open_request, play, route, serve_landing,
    status_page, Identified, Opening, Play, Route, Update, CERTIFICATE_PROMPT,
};
use namushul::response::Response;
use namushul::storage::{Error, User, BASTOW, BASTOW_WOODLANDS};

fn text(r: &Response) -> String {
    String::from_utf8(r.as_bytes().to_vec()).unwrap()
}

fn user(health: i32, location_id: i32) -> User {
    User { id: 7, name: "Ada".to_owned(), max_health: 10, health, location_id }
}

#[test]
fn routes() {
    assert_eq!(route(""), Route::Landing);
    assert_eq!(route("/"), Route::Landing);
    assert_eq!(route("x"), Route::Landing);
    assert_eq!(route("/about"), Route::About);
    assert_eq!(route("/adventure"), Route::Adventure);
    assert_eq!(route("/adventure/fight"), Route::Fight);
    assert_eq!(route("/adventure/rest"), Route::Rest);
    assert_eq!(route("/adventure/bastow"), Route::Bastow);
    assert_eq!(route("/adventure/bastow-woodlands"), Route::BastowWoodlands);
    assert_eq!(route("/adventure/"), Route::Unknown);
    assert_eq!(route("/about/"), Route::Unknown);
}

#[test]
fn landing_and_certificate() {
    match open_request(Route::Landing, false) {
        Opening::Respond(r) => assert!(text(&r).starts_with("20 text/gemini; lang=en\r\nYou have reached")),
        _ => panic!("landing page expected"),
    }
    assert!(text(&serve_landing()).ends_with("=> /about About"));
    match open_request(Route::Adventure, false) {
        Opening::Respond(r) => assert_eq!(text(&r), format!("60 {}\r\n", CERTIFICATE_PROMPT)),
        _ => panic!("certificate request expected"),
    }
    assert!(matches!(open_request(Route::Unknown, true), Opening::LookUpUser));
}

#[test]
fn lookup_outcomes() {
    assert!(matches!(after_lookup(Ok(user(5, BASTOW)), None), Identified::Known(u) if u.id == 7));
    match after_lookup(Err(Error::NotFound), None) {
        Identified::Respond(r) => assert_eq!(text(&r), "10 Choose a name for your character\r\n"),
        _ => panic!("prompt expected"),
    }
    assert!(matches!(after_lookup(Err(Error::NotFound), Some("Bo".to_owned())), Identified::Create(n) if n == "Bo"));
    match after_lookup(Err(Error::Db("down".to_owned())), None) {
        Identified::Respond(r) => assert_eq!(text(&r), "40 Failed to get/create user\r\n"),
        _ => panic!("failure expected"),
    }
    match after_create(Err(Error::MissingPrimaryKeyRow)) {
        Err(r) => assert_eq!(text(&r), "40 Failed to create user\r\n"),
        Ok(_) => panic!("failure expected"),
    }
}

#[test]
fn status_pages() {
    let page = text(&status_page(user(-3, BASTOW)));
    assert!(page.starts_with("20 text/gemini; lang=en\r\n### Ada\r\nHP: -3/10\r\n### Bastow \r\n"));
    let page = text(&status_page(user(4, BASTOW_WOODLANDS)));
    assert!(page.starts_with("20 text/gemini; lang=en\r\n### Ada\r\nHP: 4/10\r\n### Bastow Woodlands \r\n"));
    assert!(page.ends_with("Fight slimes."));
    let page = text(&status_page(user(4, 9)));
    assert!(page.contains("### Bastow \r\n"));
}

#[test]
fn fighting_and_resting() {
    match play(Route::Fight, user(0, BASTOW)) {
        Play::Respond(r) => assert_eq!(text(&r), "30 /adventure\r\n"),
        _ => panic!("redirect expected"),
    }
    assert!(matches!(play(Route::Fight, user(3, BASTOW)), Play::Store(_, Update::Health(2))));
    assert!(matches!(play(Route::Fight, user(i32::MIN, BASTOW)), Play::Respond(_)));
    assert!(matches!(play(Route::Rest, user(3, BASTOW)), Play::Store(_, Update::Health(10))));
    assert_eq!(text(&after_update(Update::Health(2), Ok(user(2, BASTOW)))), "30 /adventure\r\n");
    assert_eq!(
        text(&after_update(Update::Health(2), Err(Error::NotFound))),
        "40 Failed to update user\r\n"
    );
}

#[test]
fn travelling() {
    assert!(matches!(play(Route::Bastow, user(3, BASTOW)), Play::Respond(_)));
    match play(Route::Bastow, user(3, 5)) {
        Play::Respond(r) => assert_eq!(text(&r), "59 Invalid destination\r\n"),
        _ => panic!("bad request expected"),
    }
    assert!(matches!(
        play(Route::Bastow, user(3, BASTOW_WOODLANDS)),
        Play::Store(_, Update::Location(BASTOW))
    ));
    assert!(matches!(
        play(Route::BastowWoodlands, user(3, BASTOW)),
        Play::Store(_, Update::Location(BASTOW_WOODLANDS))
    ));
    let moved = text(&after_update(Update::Location(BASTOW_WOODLANDS), Ok(user(3, BASTOW_WOODLANDS))));
    assert!(moved.contains("### Bastow Woodlands \r\n"));
    match play(Route::Unknown, user(3, BASTOW)) {
        Play::Respond(r) => assert_eq!(text(&r), "51 \r\n"),
        _ => panic!("not found expected"),
    }
}

#[test]
fn new_players_start_in_bastow() {
    let u = User::new_player(3, "Cy".to_owned());
    assert_eq!((u.id, u.name.as_str(), u.max_health, u.health, u.location_id), (3, "Cy", 10, 10, BASTOW));
    let u = u.with_health(4).with_location_id(BASTOW_WOODLANDS);
    assert_eq!((u.health, u.location_id, u.max_health), (4, BASTOW_WOODLANDS, 10));
}

#[test]
fn application_keeps_its_start() {
    let start = std::time::Instant::now();
    let app = namushul::application::Application::new(start);
    assert_eq!(*app.started(), start);
}

#[test]
fn about_counts_and_uptime() {
    let r = namushul::application::about(Ok(12), std::time::Duration::from_secs(3 * 3600));
    assert_eq!(text(&r), "20 text/gemini; lang=en\r\n### About\r\n👥 Users: 12 · 🕗 Uptime: 3 hours\r\n");
    let r = namushul::application::about(Err(Error::NotFound), std::time::Duration::from_secs(1));
    assert_eq!(text(&r), "40 Failed to count users\r\n");
}

#[test]
fn unreachable_store_is_a_temporary_failure() {
    let r = namushul::application::storage_unavailable();
    assert_eq!(text(&r), "40 Failed to connect to database\r\n");
}
