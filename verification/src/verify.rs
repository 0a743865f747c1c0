//! The decision on a login, and the profile of whoever logged in.

use crate::error::Error;
use crate::error::QueryFault;
use crate::identity::claimed_id;
use crate::identity::decimal;
use crate::identity::lemma_claimed_id_bound;
use crate::identity::pow10;
use crate::identity::to_decimal;
use crate::identity::ID_DIGITS;
use crate::login::login_payload;
use crate::login::LoginData;
use crate::login::LoginPayload;
use crate::response::confirms;
use crate::response::has_line;
use crate::response::is_valid;
use crate::response::lemma_confirms_iff_line;
use vstd::prelude::*;

verus! {

/// The profile API: a GET with the parameters of `Verify::summaries_query`
/// is answered with the players found.
pub const SUMMARIES_ENDPOINT: &'static str =
    "https://api.steampowered.com/ISteamUser/GetPlayerSummaries/v0002/";

/// A public profile, as the profile API reports it.
#[derive(Debug, Clone)]
pub struct PlayerSummaries {
    pub steamid: String,
    pub communityvisibilitystate: u32,
    pub profilestate: u32,
    pub personaname: String,
    pub commentpermission: u32,
    pub profileurl: String,
    pub avatar: String,
    pub avatarmedium: String,
    pub avatarfull: String,
    pub avatarhash: String,
    pub lastlogoff: u64,
    pub personastate: u32,
    pub primaryclanid: String,
    pub timecreated: u64,
    pub personastateflags: u32,
}

/// Why a login is turned down.
pub enum Rejection {
    /// The query string of the callback holds no payload.
    Query(QueryFault),
    /// The claimed identity is no identity URL.
    Claim,
    /// The provider could not be asked; the text says why.
    Transport(Seq<char>),
    /// The provider answered, and did not confirm.
    Denied,
}

/// What the provider's answer is to the contracts: its body, or the text of
/// the failure to get one.
pub open spec fn reply_text(reply: Result<String, String>) -> Result<Seq<char>, Seq<char>> {
    match reply {
        Ok(body) => Ok(body@),
        Err(failure) => Err(failure@),
    }
}

/// The decision on a payload, given the provider's answer to the
/// re-validation request. The payload must claim an identity URL, and the
/// provider must have answered with a line `is_valid:true`; the identity is
/// that of the claim. A claim that is no identity URL is turned down
/// whatever the provider said.
pub open spec fn verdict(payload: LoginPayload, reply: Result<Seq<char>, Seq<char>>) -> Result<
    nat,
    Rejection,
> {
    match claimed_id(payload.claimed_id) {
        None => Err(Rejection::Claim),
        Some(id) => match reply {
            Err(failure) => Err(Rejection::Transport(failure)),
            Ok(body) => if confirms(body) {
                Ok(id)
            } else {
                Err(Rejection::Denied)
            },
        },
    }
}

/// The decision on a login, from the query string of the callback and the
/// provider's answer: the query must hold a payload, and the verdict on
/// that payload decides.
pub open spec fn decision(query: Seq<char>, reply: Result<Seq<char>, Seq<char>>) -> Result<
    nat,
    Rejection,
> {
    match login_payload(query) {
        Err(fault) => Err(Rejection::Query(fault)),
        Ok(payload) => verdict(payload, reply),
    }
}

/// The error that stands for a rejection.
pub open spec fn reports(error: Error, rejection: Rejection) -> bool {
    match rejection {
        Rejection::Query(fault) => error matches Error::Deserialize(e) && e@ == fault,
        Rejection::Claim => error matches Error::ParseSteamID(message) && message@
            == "Invalid claimed url"@,
        Rejection::Transport(failure) => error matches Error::ParseSteamID(message) && message@
            == failure,
        Rejection::Denied => error matches Error::ParseSteamID(message) && message@
            == "Invalid data"@,
    }
}

/// A SteamID64 that the provider has confirmed.
#[derive(Debug)]
pub struct Verify {
    claimed_id: u64,
}

impl Verify {
    /// The identity is written with `ID_DIGITS` decimal digits: it is below
    /// ten to that power.
    #[verifier::type_invariant]
    pub closed spec fn well_formed(&self) -> bool {
        self.claimed_id < pow10(ID_DIGITS as nat)
    }

    /// The confirmed identity.
    pub closed spec fn identity(&self) -> nat {
        self.claimed_id as nat
    }

    /// The body to post to the provider for re-validation: the payload of
    /// the callback in `check_authentication` mode. Nothing is to be posted
    /// where the query holds no payload or the payload claims no identity
    /// URL: those are refused here, as `verify_request` refuses them.
    pub fn revalidation_form(query_string: &str) -> (r: Result<String, Error>)
        ensures
            match r {
                Ok(body) => login_payload(query_string@) matches Ok(payload) && claimed_id(
                    payload.claimed_id,
                ) is Some && payload.revalidation_form() == Some(body@),
                Err(Error::Deserialize(e)) => login_payload(query_string@) == Err::<
                    LoginPayload,
                    QueryFault,
                >(e@),
                Err(Error::ParseSteamID(message)) => login_payload(query_string@) matches Ok(
                    payload,
                ) && if claimed_id(payload.claimed_id) is None {
                    message@ == "Invalid claimed url"@
                } else {
                    payload.revalidation_form() is None
                },
                Err(_) => false,
            },
    {
        match LoginData::from_query(query_string) {
            Ok(data) => data.revalidation_form(),
            Err(e) => Err(e),
        }
    }

    /// Decides a login from the query string of the callback and what came
    /// of the re-validation request: `Ok` with the body of the provider's
    /// answer, `Err` with the text of the failure to get one.
    pub fn verify_request(query_string: &str, reply: Result<String, String>) -> (r: Result<
        Verify,
        Error,
    >)
        ensures
            match (r, decision(query_string@, reply_text(reply))) {
                (Ok(verified), Ok(id)) => verified.identity() == id,
                (Err(error), Err(rejection)) => reports(error, rejection),
                _ => false,
            },
    {
        match LoginData::from_query(query_string) {
            Ok(data) => Verify::confirm(&data, reply),
            Err(e) => Err(e),
        }
    }

    /// Decides a login from the payload of the callback and what came of
    /// the re-validation request. The login stands exactly if the payload
    /// claims an identity URL and the provider answered with a line
    /// `is_valid:true`; the identity is then the number in the claim.
    pub fn confirm(data: &LoginData, reply: Result<String, String>) -> (r: Result<Verify, Error>)
        ensures
            match (r, verdict(data@, reply_text(reply))) {
                (Ok(verified), Ok(id)) => verified.identity() == id,
                (Err(error), Err(rejection)) => reports(error, rejection),
                _ => false,
            },
    {
        let claimed_id = match data.claim_id() {
            Ok(id) => id,
            Err(e) => {
                return Err(e);
            },
        };
        let body = match reply {
            Ok(body) => body,
            Err(failure) => {
                return Err(Error::ParseSteamID(failure));
            },
        };
        if !is_valid(body.as_str()) {
            return Err(Error::ParseSteamID("Invalid data".to_owned()));
        }
        proof {
            lemma_claimed_id_bound(data.claimed_id@);
        }
        Ok(Verify { claimed_id })
    }

    /// The SteamID64.
    pub fn claim_id(&self) -> (id: u64)
        ensures
            id == self.identity(),
            id < pow10(ID_DIGITS as nat),
    {
        proof {
            use_type_invariant(self);
        }
        self.claimed_id
    }

    /// The query parameters of the profile lookup: the API key under `key`,
    /// the identity in decimal under `steamids`.
    pub fn summaries_query(&self, apikey: &str) -> (pairs: Vec<(String, String)>)
        ensures
            pairs.deep_view() == seq![
                ("key"@, apikey@),
                ("steamids"@, decimal(self.identity())),
            ],
    {
        let mut pairs: Vec<(String, String)> = Vec::new();
        pairs.push(("key".to_owned(), apikey.to_owned()));
        pairs.push(("steamids".to_owned(), to_decimal(self.claimed_id)));
        assert(pairs.deep_view() =~= seq![
            ("key"@, apikey@),
            ("steamids"@, decimal(self.identity())),
        ]);
        pairs
    }

    /// Picks the profile out of what came of the lookup: `Ok` with the
    /// players of the decoded answer, `Err` with the text of the failure to
    /// get or decode one. The first player is returned as it came.
    pub fn get_summaries(&self, reply: Result<Vec<PlayerSummaries>, String>) -> (r: Result<
        PlayerSummaries,
        Error,
    >)
        ensures
            match reply {
                Ok(players) => if players@.len() == 0 {
                    r matches Err(Error::GetSummaries(message)) && message@
                        == "Failed to find player"@
                } else {
                    r matches Ok(player) && player == players@[0]
                },
                Err(failure) => r matches Err(Error::GetSummaries(message)) && message == failure,
            },
    {
        match reply {
            Ok(players) => {
                let mut players = players;
                if players.len() == 0 {
                    Err(Error::GetSummaries("Failed to find player".to_owned()))
                } else {
                    Ok(players.swap_remove(0))
                }
            },
            Err(failure) => Err(Error::GetSummaries(failure)),
        }
    }
}

/// For a callback that holds a payload with an identity URL as its claim,
/// the login stands exactly if the provider's answer has the line
/// `is_valid:true`, and then with the identity of the claim. An answer
/// without that line turns the login down, whatever else it holds.
pub proof fn lemma_login_stands_iff_confirmed(query: Seq<char>, body: Seq<char>)
    requires
        login_payload(query) matches Ok(payload) && claimed_id(payload.claimed_id) is Some,
    ensures
        has_line(body, "is_valid:true"@) ==> decision(query, Ok(body)) == Ok::<nat, Rejection>(
            claimed_id(login_payload(query)->Ok_0.claimed_id)->0,
        ),
        !has_line(body, "is_valid:true"@) ==> decision(query, Ok(body)) == Err::<nat, Rejection>(
            Rejection::Denied,
        ),
{
    lemma_confirms_iff_line(body);
}

/// A login never stands without an answer from the provider, and never on
/// a claim that is no identity URL: the provider's word alone is not
/// enough, and neither is the claim.
pub proof fn lemma_login_needs_claim_and_answer(
    query: Seq<char>,
    reply: Result<Seq<char>, Seq<char>>,
)
    ensures
        decision(query, reply) matches Ok(id) ==> {
            &&& reply matches Ok(body) && confirms(body)
            &&& login_payload(query) matches Ok(payload) && claimed_id(payload.claimed_id) == Some(
                id,
            )
        },
{
}

} // verus!
