//! The two-call data aggregation behind the data route.
//!
//! Given a bearer token, `aggregate` fetches the champion rotation with the
//! service's own credential and the account with the caller's token, and
//! composes the two only when both succeed.  A failure of either call is
//! that call's specific error; nothing of the other call enters it.

use vstd::prelude::*;
use vstd::string::StringExecFns;

use crate::config::Configuration;
use crate::http::http_get;
use crate::http::HttpReply;
use crate::json::find_field;
use crate::json::find_field_or_alias;
use crate::json::get_field;
use crate::json::get_field_or_alias;
use crate::json::parse_json_object;
use crate::json::parse_object;
use crate::json::JsonValue;
use crate::json::JsonValueV;

verus! {

/// The account data of a user.
#[derive(Debug, Clone)]
pub struct AccountData {
    /// The player's unique identifier.
    pub puuid: String,
    /// The player's game name.
    pub game_name: String,
    /// The player's tag line.
    pub tag_line: String,
}

/// The view of an `AccountData`.
pub struct AccountDataV {
    pub puuid: Seq<char>,
    pub game_name: Seq<char>,
    pub tag_line: Seq<char>,
}

impl View for AccountData {
    type V = AccountDataV;

    open spec fn view(&self) -> AccountDataV {
        AccountDataV { puuid: self.puuid@, game_name: self.game_name@, tag_line: self.tag_line@ }
    }
}

/// The champion rotation data.
#[derive(Debug, Clone)]
pub struct ChampionRotationData {
    /// The champions available for free play.
    pub free_champion_ids: Vec<usize>,
    /// The champions available for free play to new players.
    pub free_champion_ids_for_new_players: Vec<usize>,
    /// The highest level counting as a new player.
    pub max_new_player_level: usize,
}

/// The view of a `ChampionRotationData`.
pub struct ChampionRotationDataV {
    pub free_champion_ids: Seq<usize>,
    pub free_champion_ids_for_new_players: Seq<usize>,
    pub max_new_player_level: usize,
}

impl View for ChampionRotationData {
    type V = ChampionRotationDataV;

    open spec fn view(&self) -> ChampionRotationDataV {
        ChampionRotationDataV {
            free_champion_ids: self.free_champion_ids@,
            free_champion_ids_for_new_players: self.free_champion_ids_for_new_players@,
            max_new_player_level: self.max_new_player_level,
        }
    }
}

/// The composed answer of the data route, only ever whole: an account, a
/// rotation, and a message that the composition leaves empty.
#[derive(Debug, Clone)]
pub struct AggregatedResult {
    /// The account data retrieved for the user.
    pub account: AccountData,
    /// The champion rotation data retrieved with the service credential.
    pub rotation: ChampionRotationData,
    /// An optional message for the client.
    pub message: String,
}

/// The view of an `AggregatedResult`.
pub struct AggregatedResultV {
    pub account: AccountDataV,
    pub rotation: ChampionRotationDataV,
    pub message: Seq<char>,
}

impl View for AggregatedResult {
    type V = AggregatedResultV;

    open spec fn view(&self) -> AggregatedResultV {
        AggregatedResultV {
            account: self.account@,
            rotation: self.rotation@,
            message: self.message@,
        }
    }
}

/// Why an aggregation failed.
#[derive(Debug, Clone)]
pub enum AggregateError {
    /// The caller supplied no access token; no call was made.
    Unauthorized,
    /// The rotation call failed: a status outside the 2xx range, a body
    /// that did not decode, or a transport failure standing as status 0.
    RotationFetchFailed { status: u16, body: String },
    /// The account call failed, in the same three ways.
    AccountFetchFailed { status: u16, body: String },
}

/// The view of an `AggregateError`.
pub enum AggregateErrorV {
    Unauthorized,
    RotationFetchFailed { status: u16, body: Seq<char> },
    AccountFetchFailed { status: u16, body: Seq<char> },
}

impl View for AggregateError {
    type V = AggregateErrorV;

    open spec fn view(&self) -> AggregateErrorV {
        match self {
            AggregateError::Unauthorized => AggregateErrorV::Unauthorized,
            AggregateError::RotationFetchFailed { status, body } => {
                AggregateErrorV::RotationFetchFailed { status: *status, body: body@ }
            },
            AggregateError::AccountFetchFailed { status, body } => {
                AggregateErrorV::AccountFetchFailed { status: *status, body: body@ }
            },
        }
    }
}

impl AggregateError {
    /// A human-readable description of the failure, as rendered for the
    /// client.
    pub fn describe(&self) -> (r: String)
        ensures
            self is Unauthorized ==> r@ == "unauthorized"@,
            self matches AggregateError::RotationFetchFailed { status: _, body } ==> r@
                == "error getting champion data - "@ + body@,
            self matches AggregateError::AccountFetchFailed { status: _, body } ==> r@
                == "error getting account data - "@ + body@,
    {
        match self {
            AggregateError::Unauthorized => "unauthorized".to_owned(),
            AggregateError::RotationFetchFailed { status: _, body } => {
                let mut m = "error getting champion data - ".to_owned();
                m.append(body.as_str());
                m
            },
            AggregateError::AccountFetchFailed { status: _, body } => {
                let mut m = "error getting account data - ".to_owned();
                m.append(body.as_str());
                m
            },
        }
    }
}

/// Whether every element fits in a `usize`.
pub open spec fn all_fit_usize(v: Seq<u64>) -> bool {
    forall|i: int| 0 <= i < v.len() ==> #[trigger] v[i] <= usize::MAX
}

/// The same numbers as `usize`s.
pub open spec fn to_usizes(v: Seq<u64>) -> Seq<usize> {
    v.map(|i: int, x: u64| x as usize)
}

/// The account data denoted by an answer body.  The wire names may come
/// camel-cased; both spellings are accepted.
pub open spec fn spec_account_data_of(s: Seq<char>) -> Option<AccountDataV> {
    match parse_object(s) {
        Some(ms) => match (
            find_field(ms, "puuid"@),
            find_field_or_alias(ms, "game_name"@, "gameName"@),
            find_field_or_alias(ms, "tag_line"@, "tagLine"@),
        ) {
            (
                Some(JsonValueV::Text(puuid)),
                Some(JsonValueV::Text(game_name)),
                Some(JsonValueV::Text(tag_line)),
            ) => Some(AccountDataV { puuid, game_name, tag_line }),
            _ => None,
        },
        None => None,
    }
}

/// The rotation data denoted by an answer body.  The wire names may come
/// camel-cased; both spellings are accepted.
pub open spec fn spec_rotation_data_of(s: Seq<char>) -> Option<ChampionRotationDataV> {
    match parse_object(s) {
        Some(ms) => match (
            find_field_or_alias(ms, "free_champion_ids"@, "freeChampionIds"@),
            find_field_or_alias(
                ms,
                "free_champion_ids_for_new_players"@,
                "freeChampionIdsForNewPlayers"@,
            ),
            find_field_or_alias(ms, "max_new_player_level"@, "maxNewPlayerLevel"@),
        ) {
            (
                Some(JsonValueV::Nums(ids)),
                Some(JsonValueV::Nums(new_ids)),
                Some(JsonValueV::Num(level)),
            ) => if all_fit_usize(ids) && all_fit_usize(new_ids) && level <= usize::MAX {
                Some(
                    ChampionRotationDataV {
                        free_champion_ids: to_usizes(ids),
                        free_champion_ids_for_new_players: to_usizes(new_ids),
                        max_new_player_level: level as usize,
                    },
                )
            } else {
                None
            },
            _ => None,
        },
        None => None,
    }
}

fn nums_to_usizes(v: &Vec<u64>) -> (r: Option<Vec<usize>>)
    ensures
        match r {
            Some(u) => all_fit_usize(v@) && u@ == to_usizes(v@),
            None => !all_fit_usize(v@),
        },
{
    let mut out: Vec<usize> = Vec::new();
    let mut k: usize = 0;
    while k < v.len()
        invariant
            k <= v.len(),
            out@.len() == k,
            forall|j: int| 0 <= j < k ==> #[trigger] v@[j] <= usize::MAX,
            forall|j: int| 0 <= j < k ==> #[trigger] out@[j] == v@[j] as usize,
        decreases v.len() - k,
    {
        let x = v[k];
        if x > usize::MAX as u64 {
            return None;
        }
        out.push(x as usize);
        k += 1;
    }
    proof {
        assert(out@ =~= to_usizes(v@));
    }
    Some(out)
}

/// Decodes an account answer into an `AccountData`.
pub fn parse_account_data(body: &str) -> (r: Option<AccountData>)
    ensures
        match r {
            Some(a) => spec_account_data_of(body@) == Some(a@),
            None => spec_account_data_of(body@) is None,
        },
{
    let ms = match parse_json_object(body) {
        Some(ms) => ms,
        None => {
            return None;
        },
    };
    let puuid = match get_field(&ms, "puuid") {
        Some(JsonValue::Text(t)) => t.clone(),
        _ => {
            return None;
        },
    };
    let game_name = match get_field_or_alias(&ms, "game_name", "gameName") {
        Some(JsonValue::Text(t)) => t.clone(),
        _ => {
            return None;
        },
    };
    let tag_line = match get_field_or_alias(&ms, "tag_line", "tagLine") {
        Some(JsonValue::Text(t)) => t.clone(),
        _ => {
            return None;
        },
    };
    Some(AccountData { puuid, game_name, tag_line })
}

/// Decodes a rotation answer into a `ChampionRotationData`.
pub fn parse_rotation_data(body: &str) -> (r: Option<ChampionRotationData>)
    ensures
        match r {
            Some(d) => spec_rotation_data_of(body@) == Some(d@),
            None => spec_rotation_data_of(body@) is None,
        },
{
    let ms = match parse_json_object(body) {
        Some(ms) => ms,
        None => {
            return None;
        },
    };
    let free_champion_ids = match get_field_or_alias(&ms, "free_champion_ids", "freeChampionIds") {
        Some(JsonValue::Nums(v)) => match nums_to_usizes(v) {
            Some(u) => u,
            None => {
                return None;
            },
        },
        _ => {
            return None;
        },
    };
    let free_champion_ids_for_new_players = match get_field_or_alias(
        &ms,
        "free_champion_ids_for_new_players",
        "freeChampionIdsForNewPlayers",
    ) {
        Some(JsonValue::Nums(v)) => match nums_to_usizes(v) {
            Some(u) => u,
            None => {
                return None;
            },
        },
        _ => {
            return None;
        },
    };
    let max_new_player_level = match get_field_or_alias(
        &ms,
        "max_new_player_level",
        "maxNewPlayerLevel",
    ) {
        Some(JsonValue::Num(n)) => {
            if *n <= usize::MAX as u64 {
                *n as usize
            } else {
                return None;
            }
        },
        _ => {
            return None;
        },
    };
    Some(
        ChampionRotationData {
            free_champion_ids,
            free_champion_ids_for_new_players,
            max_new_player_level,
        },
    )
}

/// The outcome owed for a rotation answer: a non-2xx status, a body that
/// does not decode, or a transport failure (standing as status 0) is a
/// `RotationFetchFailed` carrying that status and body; a 2xx body that
/// decodes is the rotation data.
pub open spec fn spec_rotation_outcome(status: u16, body: Seq<char>) -> Result<
    ChampionRotationDataV,
    AggregateErrorV,
> {
    if !(200 <= status && status < 300) {
        Err(AggregateErrorV::RotationFetchFailed { status, body })
    } else {
        match spec_rotation_data_of(body) {
            Some(d) => Ok(d),
            None => Err(AggregateErrorV::RotationFetchFailed { status, body }),
        }
    }
}

/// The outcome owed for an account answer, in the same three ways.
pub open spec fn spec_account_outcome(status: u16, body: Seq<char>) -> Result<
    AccountDataV,
    AggregateErrorV,
> {
    if !(200 <= status && status < 300) {
        Err(AggregateErrorV::AccountFetchFailed { status, body })
    } else {
        match spec_account_data_of(body) {
            Some(a) => Ok(a),
            None => Err(AggregateErrorV::AccountFetchFailed { status, body }),
        }
    }
}

/// The view of a rotation result.
pub open spec fn view_rotation_result(r: Result<ChampionRotationData, AggregateError>) -> Result<
    ChampionRotationDataV,
    AggregateErrorV,
> {
    match r {
        Ok(d) => Ok(d@),
        Err(e) => Err(e@),
    }
}

/// The view of an account result.
pub open spec fn view_account_result(r: Result<AccountData, AggregateError>) -> Result<
    AccountDataV,
    AggregateErrorV,
> {
    match r {
        Ok(a) => Ok(a@),
        Err(e) => Err(e@),
    }
}

/// The view of an aggregation result.
pub open spec fn view_aggregate_result(r: Result<AggregatedResult, AggregateError>) -> Result<
    AggregatedResultV,
    AggregateErrorV,
> {
    match r {
        Ok(a) => Ok(a@),
        Err(e) => Err(e@),
    }
}

/// Turns a rotation answer into the rotation outcome.  The whole decision
/// is a function of the status and the body alone.
pub fn rotation_from_response(status: u16, body: String) -> (r: Result<
    ChampionRotationData,
    AggregateError,
>)
    ensures
        view_rotation_result(r) == spec_rotation_outcome(status, body@),
{
    if !(200 <= status && status < 300) {
        return Err(AggregateError::RotationFetchFailed { status, body });
    }
    match parse_rotation_data(body.as_str()) {
        Some(d) => Ok(d),
        None => Err(AggregateError::RotationFetchFailed { status, body }),
    }
}

/// Turns an account answer into the account outcome.  The whole decision
/// is a function of the status and the body alone.
pub fn account_from_response(status: u16, body: String) -> (r: Result<AccountData, AggregateError>)
    ensures
        view_account_result(r) == spec_account_outcome(status, body@),
{
    if !(200 <= status && status < 300) {
        return Err(AggregateError::AccountFetchFailed { status, body });
    }
    match parse_account_data(body.as_str()) {
        Some(a) => Ok(a),
        None => Err(AggregateError::AccountFetchFailed { status, body }),
    }
}

/// The value of the `Authorization` header of the account call.
pub open spec fn spec_bearer_header(token: Seq<char>) -> Seq<char> {
    "Bearer "@ + token
}

/// Builds the bearer header value carrying the caller's token.
pub fn bearer_header(token: &str) -> (r: String)
    ensures
        r@ == spec_bearer_header(token@),
{
    let mut value = "Bearer ".to_owned();
    value.append(token);
    value
}

/// One GET to a data API endpoint, ready to send: the URL and the one
/// header that authenticates it.
pub struct ApiRequest {
    /// The endpoint.
    pub url: String,
    /// The name of the authenticating header.
    pub header_name: String,
    /// The value of the authenticating header.
    pub header_value: String,
}

/// Builds the account request: a GET whose `Authorization` header bears
/// the caller's token.
pub fn account_request(url: &str, access_token: &str) -> (r: ApiRequest)
    ensures
        r.url@ == url@,
        r.header_name@ == "Authorization"@,
        r.header_value@ == spec_bearer_header(access_token@),
{
    ApiRequest {
        url: url.to_owned(),
        header_name: "Authorization".to_owned(),
        header_value: bearer_header(access_token),
    }
}

/// Builds the rotation request: a GET whose `X-Riot-Token` header bears
/// the service credential alone, whatever token the caller presented.
pub fn rotation_request(url: &str, api_token: &str) -> (r: ApiRequest)
    ensures
        r.url@ == url@,
        r.header_name@ == "X-Riot-Token"@,
        r.header_value@ == api_token@,
{
    ApiRequest {
        url: url.to_owned(),
        header_name: "X-Riot-Token".to_owned(),
        header_value: api_token.to_owned(),
    }
}

/// Fetches the account data: one GET built by `account_request`, the
/// outcome decided by `spec_account_outcome` of whatever came back, a
/// transport failure standing as status 0 with its message as the body.
pub fn account_data(url: &str, token: &str) -> (r: Result<AccountData, AggregateError>)
    ensures
        r matches Err(e) ==> e is AccountFetchFailed,
{
    let req = account_request(url, token);
    match http_get(req.url.as_str(), req.header_name.as_str(), req.header_value.as_str()) {
        HttpReply::Response { status, body } => account_from_response(status, body),
        HttpReply::Transport { message } => Err(
            AggregateError::AccountFetchFailed { status: 0, body: message },
        ),
    }
}

/// Fetches the champion rotation data: one GET built by
/// `rotation_request`, the outcome decided by `spec_rotation_outcome` of
/// whatever came back, a transport failure standing as status 0 with its
/// message as the body.
pub fn champion_rotation_data(url: &str, token: &str) -> (r: Result<
    ChampionRotationData,
    AggregateError,
>)
    ensures
        r matches Err(e) ==> e is RotationFetchFailed,
{
    let req = rotation_request(url, token);
    match http_get(req.url.as_str(), req.header_name.as_str(), req.header_value.as_str()) {
        HttpReply::Response { status, body } => rotation_from_response(status, body),
        HttpReply::Transport { message } => Err(
            AggregateError::RotationFetchFailed { status: 0, body: message },
        ),
    }
}

/// How the two call outcomes compose: a rotation failure is the whole
/// outcome, whatever the account outcome; then an account failure; only
/// two successes compose, with an empty message.
pub open spec fn spec_aggregate_outcome(
    rot: Result<ChampionRotationDataV, AggregateErrorV>,
    acct: Result<AccountDataV, AggregateErrorV>,
) -> Result<AggregatedResultV, AggregateErrorV> {
    match rot {
        Err(e) => Err(e),
        Ok(rotation) => match acct {
            Err(e) => Err(e),
            Ok(account) => Ok(
                AggregatedResultV { account, rotation, message: Seq::empty() },
            ),
        },
    }
}

/// When the rotation call fails, the outcome is its error alone: whatever
/// the account call would have returned, nothing of it appears.
pub proof fn lemma_rotation_failure_masks_account(
    rot: Result<ChampionRotationDataV, AggregateErrorV>,
    acct_one: Result<AccountDataV, AggregateErrorV>,
    acct_two: Result<AccountDataV, AggregateErrorV>,
)
    requires
        rot is Err,
    ensures
        spec_aggregate_outcome(rot, acct_one) == spec_aggregate_outcome(rot, acct_two),
        spec_aggregate_outcome(rot, acct_one) == Err::<AggregatedResultV, AggregateErrorV>(
            rot->Err_0,
        ),
{
}

/// A rotation answer outside the 2xx range always fails the aggregation
/// with `RotationFetchFailed`, carrying exactly that status and body.
pub proof fn lemma_rotation_non_success(status: u16, body: Seq<char>)
    requires
        !(200 <= status && status < 300),
    ensures
        spec_rotation_outcome(status, body) == Err::<ChampionRotationDataV, AggregateErrorV>(
            AggregateErrorV::RotationFetchFailed { status, body },
        ),
{
}

/// Aggregates the two downstream answers for a caller.
///
/// An empty access token returns `Unauthorized` at once, and only an empty
/// token does; no network call is made for it.  For a non-empty token the
/// rotation is fetched first, with the service credential; its failure
/// returns without the account call ever being made.  Only two successes
/// compose, and the composed message is empty.
pub fn aggregate(access_token: &str, cfg: &Configuration) -> (r: Result<
    AggregatedResult,
    AggregateError,
>)
    ensures
        access_token@.len() == 0 <==> r == Err::<AggregatedResult, AggregateError>(
            AggregateError::Unauthorized,
        ),
        r matches Ok(a) ==> a.message@ == Seq::<char>::empty(),
        access_token@.len() > 0 ==> (r matches Err(e) ==> (e is RotationFetchFailed
            || e is AccountFetchFailed)),
{
    if access_token.is_empty() {
        return Err(AggregateError::Unauthorized);
    }
    let rotation = match champion_rotation_data(
        cfg.api.urls.champion_data.as_str(),
        cfg.api.token.as_str(),
    ) {
        Ok(d) => d,
        Err(e) => {
            return Err(e);
        },
    };
    let account = match account_data(cfg.api.urls.account_data.as_str(), access_token) {
        Ok(a) => a,
        Err(e) => {
            return Err(e);
        },
    };
    let message = String::new();
    Ok(AggregatedResult { account, rotation, message })
}

} // verus!
