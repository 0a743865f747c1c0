use steam_connect::Error;
use steam_connect::LoginData;
use steam_connect::PlayerSummaries;
use steam_connect::QueryError;
use steam_connect::Verify;

const CALLBACK: &str = "openid.ns=http%3A%2F%2Fspecs.openid.net%2Fauth%2F2.0\
    &openid.mode=id_res\
    &openid.op_endpoint=https%3A%2F%2Fsteamcommunity.com%2Fopenid%2Flogin\
    &openid.claimed_id=https%3A%2F%2Fsteamcommunity.com%2Fopenid%2Fid%2F76561197960287930\
    &openid.identity=https%3A%2F%2Fsteamcommunity.com%2Fopenid%2Fid%2F76561197960287930\
    &openid.return_to=http%3A%2F%2F127.0.0.1%3A8080%2Fauth%2Fcallback\
    &openid.response_nonce=2023-01-01T00%3A00%3A00ZabcDEF\
    &openid.assoc_handle=1234567890\
    &openid.signed=signed%2Cop_endpoint%2Cclaimed_id%2Cidentity%2Creturn_to%2Cresponse_nonce%2Cassoc_handle\
    &openid.sig=W0u5DRbtHE1GG0ZKXjerUZDUGmc%3D";

const CONFIRMED: &str = "ns:http://specs.openid.net/auth/2.0\nis_valid:true\n";
const DENIED: &str = "ns:http://specs.openid.net/auth/2.0\nis_valid:false\n";

fn with_claim(claimed: &str) -> String {
    CALLBACK.replace(
        "openid.claimed_id=https%3A%2F%2Fsteamcommunity.com%2Fopenid%2Fid%2F76561197960287930",
        &format!("openid.claimed_id={claimed}"),
    )
}

fn verified() -> Verify {
    Verify::verify_request(CALLBACK, Ok(CONFIRMED.to_owned())).unwrap()
}

fn steam_id_message(result: Result<Verify, Error>) -> String {
    match result {
        Err(Error::ParseSteamID(message)) => message,
        other => panic!("{other:?}"),
    }
}

fn player(name: &str) -> PlayerSummaries {
    PlayerSummaries {
        steamid: "76561197960287930".to_owned(),
        communityvisibilitystate: 3,
        profilestate: 1,
        personaname: name.to_owned(),
        commentpermission: 2,
        profileurl: "https://steamcommunity.com/id/rabscuttle/".to_owned(),
        avatar: "https://avatars.steamstatic.com/c5d5_small.jpg".to_owned(),
        avatarmedium: "https://avatars.steamstatic.com/c5d5_medium.jpg".to_owned(),
        avatarfull: "https://avatars.steamstatic.com/c5d5_full.jpg".to_owned(),
        avatarhash: "c5d56249ee5d28a07db4ac9f7f60af961fab5426".to_owned(),
        lastlogoff: 1659923870,
        personastate: 4,
        primaryclanid: "103582791429521408".to_owned(),
        timecreated: 1063407589,
        personastateflags: 512,
    }
}

#[test]
fn a_confirmed_login_yields_the_claimed_identity() {
    let verify = Verify::verify_request(CALLBACK, Ok(CONFIRMED.to_owned())).unwrap();
    assert_eq!(verify.claim_id(), 76561197960287930);
}

#[test]
fn a_login_with_the_plain_scheme_is_read_too() {
    let query = with_claim("http%3A%2F%2Fsteamcommunity.com%2Fopenid%2Fid%2F00000000000000017");
    let verify = Verify::verify_request(&query, Ok("is_valid:true".to_owned())).unwrap();
    assert_eq!(verify.claim_id(), 17);
}

#[test]
fn a_denied_login_is_refused() {
    let result = Verify::verify_request(CALLBACK, Ok(DENIED.to_owned()));
    assert_eq!(steam_id_message(result), "Invalid data");
}

#[test]
fn an_answer_without_the_key_is_refused() {
    for body in ["", "ns:http://specs.openid.net/auth/2.0\n", "error:bad request", "is_valid:True"] {
        let result = Verify::verify_request(CALLBACK, Ok(body.to_owned()));
        assert_eq!(steam_id_message(result), "Invalid data", "{body:?}");
    }
}

#[test]
fn a_failed_request_is_refused_with_its_text() {
    let result = Verify::verify_request(CALLBACK, Err("connection reset".to_owned()));
    assert_eq!(steam_id_message(result), "connection reset");
}

#[test]
fn a_claim_that_is_no_identity_url_is_refused_whatever_the_answer() {
    let short = with_claim("https%3A%2F%2Fsteamcommunity.com%2Fopenid%2Fid%2F123");
    let elsewhere = with_claim("https%3A%2F%2Fexample.com%2Fopenid%2Fid%2F76561197960287930");
    for query in [short, elsewhere] {
        let result = Verify::verify_request(&query, Ok(CONFIRMED.to_owned()));
        assert_eq!(steam_id_message(result), "Invalid claimed url");
        let result = Verify::verify_request(&query, Err("connection reset".to_owned()));
        assert_eq!(steam_id_message(result), "Invalid claimed url");
    }
}

#[test]
fn a_query_without_payload_is_refused_first() {
    let result = Verify::verify_request("openid.mode=id_res", Ok(CONFIRMED.to_owned()));
    match result {
        Err(Error::Deserialize(QueryError::MissingField(name))) => assert_eq!(name, "openid.ns"),
        other => panic!("{other:?}"),
    }
    let result = Verify::verify_request("a=1&a=2", Err("connection reset".to_owned()));
    assert!(matches!(result, Err(Error::Deserialize(QueryError::Syntax(_)))));
}

#[test]
fn confirm_decides_on_a_payload() {
    let data = LoginData::from_query(CALLBACK).unwrap();
    let verify = Verify::confirm(&data, Ok(CONFIRMED.to_owned())).unwrap();
    assert_eq!(verify.claim_id(), 76561197960287930);
    assert_eq!(
        steam_id_message(Verify::confirm(&data, Ok(DENIED.to_owned()))),
        "Invalid data"
    );
    assert_eq!(
        steam_id_message(Verify::confirm(&data, Err("timed out".to_owned()))),
        "timed out"
    );
}

#[test]
fn revalidation_form_is_the_payload_in_check_authentication_mode() {
    let body = Verify::revalidation_form(CALLBACK).unwrap();
    assert_eq!(
        body,
        CALLBACK.replace("openid.mode=id_res", "openid.mode=check_authentication")
    );
}

#[test]
fn revalidation_form_ignores_the_mode_of_the_callback() {
    let expected = Verify::revalidation_form(CALLBACK).unwrap();
    for mode in ["cancel", "check_authentication", "setup_needed", ""] {
        let query = CALLBACK.replace("openid.mode=id_res", &format!("openid.mode={mode}"));
        assert_eq!(Verify::revalidation_form(&query).unwrap(), expected);
    }
}

#[test]
fn revalidation_form_is_refused_for_a_bad_claim() {
    let query = with_claim("https%3A%2F%2Fsteamcommunity.com%2Fopenid%2Fid%2F123");
    match Verify::revalidation_form(&query) {
        Err(Error::ParseSteamID(message)) => assert_eq!(message, "Invalid claimed url"),
        other => panic!("{other:?}"),
    }
}

#[test]
fn revalidation_form_is_refused_for_a_bad_query() {
    let query = CALLBACK.replace("&openid.sig=W0u5DRbtHE1GG0ZKXjerUZDUGmc%3D", "");
    match Verify::revalidation_form(&query) {
        Err(Error::Deserialize(QueryError::MissingField(name))) => assert_eq!(name, "openid.sig"),
        other => panic!("{other:?}"),
    }
}

#[test]
fn summaries_query_names_the_key_and_the_identity() {
    let pairs = verified().summaries_query("0123456789ABCDEF");
    assert_eq!(
        pairs,
        [
            ("key".to_owned(), "0123456789ABCDEF".to_owned()),
            ("steamids".to_owned(), "76561197960287930".to_owned()),
        ]
    );
}

#[test]
fn get_summaries_fails_when_nobody_is_found() {
    match verified().get_summaries(Ok(Vec::new())) {
        Err(Error::GetSummaries(message)) => assert_eq!(message, "Failed to find player"),
        other => panic!("{other:?}"),
    }
}

#[test]
fn get_summaries_returns_the_player_as_it_came() {
    let found = verified().get_summaries(Ok(vec![player("Rabscuttle")])).unwrap();
    let expected = player("Rabscuttle");
    assert_eq!(found.steamid, expected.steamid);
    assert_eq!(found.communityvisibilitystate, expected.communityvisibilitystate);
    assert_eq!(found.profilestate, expected.profilestate);
    assert_eq!(found.personaname, expected.personaname);
    assert_eq!(found.commentpermission, expected.commentpermission);
    assert_eq!(found.profileurl, expected.profileurl);
    assert_eq!(found.avatar, expected.avatar);
    assert_eq!(found.avatarmedium, expected.avatarmedium);
    assert_eq!(found.avatarfull, expected.avatarfull);
    assert_eq!(found.avatarhash, expected.avatarhash);
    assert_eq!(found.lastlogoff, expected.lastlogoff);
    assert_eq!(found.personastate, expected.personastate);
    assert_eq!(found.primaryclanid, expected.primaryclanid);
    assert_eq!(found.timecreated, expected.timecreated);
    assert_eq!(found.personastateflags, expected.personastateflags);
}

#[test]
fn get_summaries_returns_the_first_player() {
    let players = vec![player("first"), player("second"), player("third")];
    let found = verified().get_summaries(Ok(players)).unwrap();
    assert_eq!(found.personaname, "first");
}

#[test]
fn get_summaries_passes_a_failure_on() {
    match verified().get_summaries(Err("expected value at line 1 column 1".to_owned())) {
        Err(Error::GetSummaries(message)) => {
            assert_eq!(message, "expected value at line 1 column 1")
        }
        other => panic!("{other:?}"),
    }
}

#[test]
fn the_endpoints_are_fixed() {
    assert_eq!(
        steam_connect::LOGIN_ENDPOINT,
        "https://steamcommunity.com/openid/login"
    );
    assert_eq!(
        steam_connect::SUMMARIES_ENDPOINT,
        "https://api.steampowered.com/ISteamUser/GetPlayerSummaries/v0002/"
    );
}
