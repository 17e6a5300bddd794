//! The client of the Riot League of Legends API.
//!
//! A [`LeagueClient`] is made for a region from an API key. Each accessor
//! gives the descriptor of its request; the two steps of a call,
//! [`LeagueClient::cached_resp`] and [`LeagueClient::fetched_resp`], serve it
//! from a cache or take in what the transport fetched.
use vstd::prelude::*;
use vstd::string::{StrSliceExecFns, StringExecFns};
use vstd::utf8::encode_utf8;
use crate::constants::{Division, LanguageCode, RankedQueue, RankedTier, Region};
use crate::ddragon::{data_base_url, DDragonClient, DDragonClientView};
use crate::error::{ClientError, ConfigFault};
use crate::fetch::{after_fetch, first_step, second_step, Step};
use crate::types::{Cache, RequestDescriptor, TransportOutcome};
use crate::utils::{latest_version, push_decimal, push_signed_decimal, decimal_text, signed_decimal_text};

verus! {

/// Main type for calling League API endpoints.
///
/// A `LeagueClient` can hold a [`DDragonClient`], added by
/// [`LeagueClient::with_ddragon`] and reached by [`LeagueClient::ddragon`].
/// The two share a cache when their calls are given the same one.
#[derive(Debug)]
pub struct LeagueClient {
    region: Region,
    base_url: String,
    ddragon: Option<DDragonClient>,
    api_key: String,
}

/// What a [`LeagueClient`] holds.
pub struct LeagueClientView {
    /// The region whose platform the client talks to.
    pub region: Region,
    /// What every URL of the client begins with.
    pub base_url: Seq<char>,
    /// The embedded CDN client, if one was added.
    pub ddragon: Option<DDragonClientView>,
    /// The API key that every request of the client presents.
    pub api_key: Seq<char>,
}

impl View for LeagueClient {
    type V = LeagueClientView;

    closed spec fn view(&self) -> LeagueClientView {
        LeagueClientView {
            region: self.region,
            base_url: self.base_url@,
            ddragon: match self.ddragon {
                Some(dd) => Some(dd@),
                None => None,
            },
            api_key: self.api_key@,
        }
    }
}

/// Whether the marker of an API token stands at position `i` of a text.
pub open spec fn marker_at(token: Seq<char>, i: int) -> bool {
    0 <= i && i + 5 <= token.len() && token.subrange(i, i + 5) == "RGAPI"@
}

/// The shape of an API token: 42 bytes of UTF-8 that hold the marker `RGAPI`.
pub open spec fn is_token(token: Seq<char>) -> bool {
    encode_utf8(token).len() == 42 && exists|i: int| marker_at(token, i)
}

/// What every URL of a region's API begins with.
pub open spec fn league_base_url(region: Region) -> Seq<char> {
    "https://"@ + region.platform_name() + ".api.riotgames.com/lol"@
}

/// The URL of a summoner, by name.
pub open spec fn summoner_by_name_url(base_url: Seq<char>, name: Seq<char>) -> Seq<char> {
    base_url + "/summoner/v4/summoners/by-name/"@ + name
}

/// The URL of the champion rotation.
pub open spec fn champion_rotations_url(base_url: Seq<char>) -> Seq<char> {
    base_url + "/platform/v3/champion-rotations"@
}

/// The URL of a summoner's champion masteries.
pub open spec fn champion_masteries_url(base_url: Seq<char>, summoner_id: Seq<char>) -> Seq<char> {
    base_url + "/champion-mastery/v4/champion-masteries/by-summoner/"@ + summoner_id
}

/// The URL of a summoner's mastery of one champion.
pub open spec fn champion_mastery_url(
    base_url: Seq<char>,
    summoner_id: Seq<char>,
    champion_id: u64,
) -> Seq<char> {
    champion_masteries_url(base_url, summoner_id) + "/by-champion/"@ + decimal_text(
        champion_id as nat,
    )
}

/// The URL of a summoner's total mastery score.
pub open spec fn mastery_score_url(base_url: Seq<char>, summoner_id: Seq<char>) -> Seq<char> {
    base_url + "/champion-mastery/v4/scores/by-summoner/"@ + summoner_id
}

/// The URL of a page of the ranked ladder; without a page, of its first.
pub open spec fn league_exp_url(
    base_url: Seq<char>,
    queue: RankedQueue,
    tier: RankedTier,
    division: Division,
    pages: Option<i32>,
) -> Seq<char> {
    let entries = base_url + "/league-exp/v4/entries/"@ + queue.name() + "/"@ + tier.name() + "/"@
        + division.name();
    match pages {
        Some(page) => entries + "?page="@ + signed_decimal_text(page as int),
        None => entries,
    }
}

fn starts_marker(token: &str, n: usize, i: usize) -> (r: bool)
    requires
        n == token@.len(),
        i + 5 <= n,
    ensures
        r == marker_at(token@, i as int),
{
    proof {
        reveal_strlit("RGAPI");
    }
    let r = token.get_char(i) == 'R' && token.get_char(i + 1) == 'G' && token.get_char(i + 2)
        == 'A' && token.get_char(i + 3) == 'P' && token.get_char(i + 4) == 'I';
    proof {
        let part = token@.subrange(i as int, i + 5);
        assert(part[0] == token@[i as int]);
        assert(part[1] == token@[i + 1]);
        assert(part[2] == token@[i + 2]);
        assert(part[3] == token@[i + 3]);
        assert(part[4] == token@[i + 4]);
        if r {
            assert(part =~= "RGAPI"@);
        }
    }
    r
}

/// Checks that `token` has the shape of an API token.
pub fn check_token(token: &str) -> (r: Result<(), ClientError>)
    ensures
        r == if is_token(token@) {
            Ok::<(), ClientError>(())
        } else {
            Err::<(), ClientError>(ClientError::MalformedConfig { reason: ConfigFault::WrongToken })
        },
{
    let wrong = Err(ClientError::MalformedConfig { reason: ConfigFault::WrongToken });
    let bytes = token.as_bytes();
    if bytes.len() != 42 {
        assert(encode_utf8(token@).len() != 42);
        return wrong;
    }
    let n = token.unicode_len();
    if n < 5 {
        assert(forall|i: int| !marker_at(token@, i));
        return wrong;
    }
    let mut i: usize = 0;
    while i <= n - 5
        invariant
            n == token@.len(),
            5 <= n,
            i <= n - 4,
            encode_utf8(token@).len() == 42,
            forall|j: int| 0 <= j < i ==> !marker_at(token@, j),
        decreases n - i,
    {
        if starts_marker(token, n, i) {
            assert(marker_at(token@, i as int));
            return Ok(());
        }
        i += 1;
    }
    assert(forall|j: int| !marker_at(token@, j));
    wrong
}

impl LeagueClient {
    /// A client for `region` with the API key `api_key`.
    ///
    /// Fails at once, before any request can be made, where no key is given
    /// or the key does not have the shape of an API token.
    pub fn new(region: Region, api_key: Option<String>) -> (r: Result<LeagueClient, ClientError>)
        ensures
            match r {
                Ok(client) => api_key matches Some(key) && is_token(key@) && client@ == (
                LeagueClientView {
                    region,
                    base_url: league_base_url(region),
                    ddragon: None,
                    api_key: key@,
                }),
                Err(e) => match api_key {
                    None => e == (ClientError::MalformedConfig { reason: ConfigFault::NoToken }),
                    Some(key) => !is_token(key@) && e == (ClientError::MalformedConfig {
                        reason: ConfigFault::WrongToken,
                    }),
                },
            },
    {
        match api_key {
            None => Err(ClientError::MalformedConfig { reason: ConfigFault::NoToken }),
            Some(api_key) => match check_token(api_key.as_str()) {
                Err(e) => Err(e),
                Ok(()) => Ok(Self::unchecked(region, api_key)),
            },
        }
    }

    /// A client for `region` with the API key `api_key`, whatever its shape.
    pub(crate) fn unchecked(region: Region, api_key: String) -> (client: LeagueClient)
        ensures
            client@ == (LeagueClientView {
                region,
                base_url: league_base_url(region),
                ddragon: None,
                api_key: api_key@,
            }),
    {
        let mut base_url = String::from_str("https://");
        base_url.append(region.as_platform_str());
        base_url.append(".api.riotgames.com/lol");
        LeagueClient { region, base_url, ddragon: None, api_key }
    }

    /// Adds an embedded CDN client for `language`, at the latest version
    /// that `versions`, the outcome of the version request, names.
    pub fn with_ddragon(self, language: LanguageCode, versions: TransportOutcome) -> (r: Result<
        LeagueClient,
        ClientError,
    >)
        ensures
            match r {
                Ok(client) => latest_version(versions) matches Ok(version) && client@ == (
                LeagueClientView {
                    ddragon: Some(
                        DDragonClientView {
                            region: self@.region,
                            version,
                            base_url: data_base_url(version, language),
                        },
                    ),
                    ..self@
                }),
                Err(e) => latest_version(versions) == Err::<Seq<char>, ClientError>(e),
            },
    {
        match DDragonClient::new_for_lapi(self.region, language, versions) {
            Ok(ddragon) => Ok(
                LeagueClient {
                    region: self.region,
                    base_url: self.base_url,
                    ddragon: Some(ddragon),
                    api_key: self.api_key,
                },
            ),
            Err(e) => Err(e),
        }
    }

    /// Whether a CDN client is embedded.
    pub fn has_ddragon(&self) -> (r: bool)
        ensures
            r == self@.ddragon is Some,
    {
        self.ddragon.is_some()
    }

    /// The embedded CDN client. There must be one: see
    /// [`LeagueClient::with_ddragon`].
    pub fn ddragon(&self) -> (dd: &DDragonClient)
        requires
            self@.ddragon is Some,
        ensures
            Some(dd@) == self@.ddragon,
    {
        match &self.ddragon {
            Some(dd) => dd,
            None => {
                proof {
                    assert(false);
                }
                vstd::pervasive::unreached()
            },
        }
    }

    fn descriptor(&self, url: String) -> (d: RequestDescriptor)
        ensures
            d.url == url,
            d.auth matches Some(key) && key@ == self@.api_key,
    {
        RequestDescriptor { url, auth: Some(self.api_key.clone()) }
    }

    /// The descriptor of the request for a summoner, by plain-text name.
    pub fn get_summoner_by_name(&self, name: &str) -> (d: RequestDescriptor)
        ensures
            d.url@ == summoner_by_name_url(self@.base_url, name@),
            d.auth matches Some(key) && key@ == self@.api_key,
    {
        let mut url = self.base_url.clone();
        url.append("/summoner/v4/summoners/by-name/");
        url.append(name);
        self.descriptor(url)
    }

    /// The descriptor of the request for the champion rotation.
    pub fn get_champion_info(&self) -> (d: RequestDescriptor)
        ensures
            d.url@ == champion_rotations_url(self@.base_url),
            d.auth matches Some(key) && key@ == self@.api_key,
    {
        let mut url = self.base_url.clone();
        url.append("/platform/v3/champion-rotations");
        self.descriptor(url)
    }

    /// The descriptor of the request for all champion masteries of a summoner.
    pub fn get_champion_masteries(&self, summoner_id: &str) -> (d: RequestDescriptor)
        ensures
            d.url@ == champion_masteries_url(self@.base_url, summoner_id@),
            d.auth matches Some(key) && key@ == self@.api_key,
    {
        let mut url = self.base_url.clone();
        url.append("/champion-mastery/v4/champion-masteries/by-summoner/");
        url.append(summoner_id);
        self.descriptor(url)
    }

    /// The descriptor of the request for a summoner's mastery of one champion.
    pub fn get_champion_mastery_by_id(&self, summoner_id: &str, champion_id: u64) -> (d:
        RequestDescriptor)
        ensures
            d.url@ == champion_mastery_url(self@.base_url, summoner_id@, champion_id),
            d.auth matches Some(key) && key@ == self@.api_key,
    {
        let mut url = self.base_url.clone();
        url.append("/champion-mastery/v4/champion-masteries/by-summoner/");
        url.append(summoner_id);
        url.append("/by-champion/");
        push_decimal(&mut url, champion_id);
        self.descriptor(url)
    }

    /// The descriptor of the request for a summoner's total mastery score.
    pub fn get_total_mastery_score(&self, summoner_id: &str) -> (d: RequestDescriptor)
        ensures
            d.url@ == mastery_score_url(self@.base_url, summoner_id@),
            d.auth matches Some(key) && key@ == self@.api_key,
    {
        let mut url = self.base_url.clone();
        url.append("/champion-mastery/v4/scores/by-summoner/");
        url.append(summoner_id);
        self.descriptor(url)
    }

    /// The descriptor of the request for a page of the ranked ladder of a
    /// queue, tier and division; without a page, for its first.
    pub fn get_league_exp_entries(
        &self,
        queue: RankedQueue,
        tier: RankedTier,
        division: Division,
        pages: Option<i32>,
    ) -> (d: RequestDescriptor)
        ensures
            d.url@ == league_exp_url(self@.base_url, queue, tier, division, pages),
            d.auth matches Some(key) && key@ == self@.api_key,
    {
        let mut url = self.base_url.clone();
        url.append("/league-exp/v4/entries/");
        url.append(queue.as_str());
        url.append("/");
        url.append(tier.as_str());
        url.append("/");
        url.append(division.as_str());
        match pages {
            Some(page) => {
                url.append("?page=");
                push_signed_decimal(&mut url, page);
            },
            None => {},
        }
        self.descriptor(url)
    }

    /// The error that a status code stands for in this client's region.
    pub fn get_status(&self, status: u16) -> (r: Result<(), ClientError>)
        ensures
            r == match ClientError::of_status(self@.region, status) {
                Some(e) => Err::<(), ClientError>(e),
                None => Ok(()),
            },
    {
        ClientError::check_status(self.region, status)
    }

    /// First step of a call through this client: see [`crate::fetch::cached_resp`].
    pub fn cached_resp<T, D>(&self, cache: &Cache, d: &RequestDescriptor, decode: D) -> (step: Step<
        T,
    >) where D: FnOnce(&str) -> Option<T>
        requires
            forall|s: &str| call_requires(decode, (s,)),
        ensures
            first_step(cache@, *d, decode, step),
    {
        crate::fetch::cached_resp(cache, d, decode)
    }

    /// Second step of a call through this client: see [`crate::fetch::fetched_resp`].
    /// A status of 503 is reported for this client's region.
    pub fn fetched_resp<T, D>(
        &self,
        cache: &mut Cache,
        d: &RequestDescriptor,
        outcome: TransportOutcome,
        decode: D,
    ) -> (r: Result<T, ClientError>) where D: FnOnce(&str) -> Option<T>
        requires
            forall|s: &str| call_requires(decode, (s,)),
        ensures
            second_step(self@.region, outcome, decode, r),
            final(cache)@ == after_fetch(old(cache)@, self@.region, *d, outcome, r is Ok),
    {
        crate::fetch::fetched_resp(cache, self.region, d, outcome, decode)
    }
}

} // verus!
