//! The client without a cache: every call is a round trip.
use vstd::prelude::*;
use crate::api::{
    champion_masteries_url, champion_mastery_url, champion_rotations_url, is_token,
    league_base_url, mastery_score_url, summoner_by_name_url, LeagueClient, LeagueClientView,
};
use crate::constants::Region;
use crate::error::{ClientError, ConfigFault};
use crate::fetch::{read_body, second_step};
use crate::types::{RequestDescriptor, TransportOutcome};

verus! {

/// Client of the League API that keeps nothing between calls.
#[derive(Debug)]
pub struct LeagueAPI {
    client: LeagueClient,
}

impl View for LeagueAPI {
    type V = LeagueClientView;

    closed spec fn view(&self) -> LeagueClientView {
        self.client@
    }
}

impl LeagueAPI {
    /// A client for `region` with the API key `api_key`.
    ///
    /// Fails where no key is given or the key does not have the shape of an
    /// API token.
    pub fn new(region: Region, api_key: Option<String>) -> (r: Result<LeagueAPI, ClientError>)
        ensures
            match r {
                Ok(client) => api_key matches Some(key) && is_token(key@) && client@ == (
                LeagueClientView {
                    region,
                    base_url: league_base_url(region),
                    ddragon: None,
                    api_key: key@,
                }),
                Err(e) => match api_key {
                    None => e == (ClientError::MalformedConfig { reason: ConfigFault::NoToken }),
                    Some(key) => !is_token(key@) && e == (ClientError::MalformedConfig {
                        reason: ConfigFault::WrongToken,
                    }),
                },
            },
    {
        match LeagueClient::new(region, api_key) {
            Ok(client) => Ok(LeagueAPI { client }),
            Err(e) => Err(e),
        }
    }

    /// A client for `region` with a development key, which is taken as it is.
    pub fn new_dev_client(region: Region, api_key: String) -> (client: LeagueAPI)
        ensures
            client@ == (LeagueClientView {
                region,
                base_url: league_base_url(region),
                ddragon: None,
                api_key: api_key@,
            }),
    {
        LeagueAPI { client: LeagueClient::unchecked(region, api_key) }
    }

    /// The descriptor of the request for a summoner, by plain-text name.
    pub fn get_summoner_by_name(&self, name: &str) -> (d: RequestDescriptor)
        ensures
            d.url@ == summoner_by_name_url(self@.base_url, name@),
            d.auth matches Some(key) && key@ == self@.api_key,
    {
        self.client.get_summoner_by_name(name)
    }

    /// The descriptor of the request for the champion rotation.
    pub fn get_champion_info(&self) -> (d: RequestDescriptor)
        ensures
            d.url@ == champion_rotations_url(self@.base_url),
            d.auth matches Some(key) && key@ == self@.api_key,
    {
        self.client.get_champion_info()
    }

    /// The descriptor of the request for all champion masteries of a summoner.
    pub fn get_champion_masteries(&self, summoner_id: &str) -> (d: RequestDescriptor)
        ensures
            d.url@ == champion_masteries_url(self@.base_url, summoner_id@),
            d.auth matches Some(key) && key@ == self@.api_key,
    {
        self.client.get_champion_masteries(summoner_id)
    }

    /// The descriptor of the request for a summoner's mastery of one champion.
    pub fn get_champion_mastery_by_id(&self, summoner_id: &str, champion_id: u64) -> (d:
        RequestDescriptor)
        ensures
            d.url@ == champion_mastery_url(self@.base_url, summoner_id@, champion_id),
            d.auth matches Some(key) && key@ == self@.api_key,
    {
        self.client.get_champion_mastery_by_id(summoner_id, champion_id)
    }

    /// The descriptor of the request for a summoner's total mastery score.
    pub fn get_total_mastery_score(&self, summoner_id: &str) -> (d: RequestDescriptor)
        ensures
            d.url@ == mastery_score_url(self@.base_url, summoner_id@),
            d.auth matches Some(key) && key@ == self@.api_key,
    {
        self.client.get_total_mastery_score(summoner_id)
    }

    /// Takes what the transport made of a request and decodes the body.
    ///
    /// A transport failure and a status code that stands for an error end
    /// the call with that error; a body that does not decode ends it with
    /// `DeserializationError`.
    pub fn get_and_deserialize<T, D>(&self, outcome: TransportOutcome, decode: D) -> (r: Result<
        T,
        ClientError,
    >) where D: FnOnce(&str) -> Option<T>
        requires
            forall|s: &str| call_requires(decode, (s,)),
        ensures
            second_step(self@.region, outcome, decode, r),
    {
        match outcome {
            TransportOutcome::Failed { fault } => Err(ClientError::TransportError { fault }),
            TransportOutcome::Response { status, body } => {
                match self.client.get_status(status) {
                    Err(e) => Err(e),
                    Ok(()) => {
                        let text = read_body(body.as_slice());
                        let s = text.as_str();
                        let parsed = decode(s);
                        assert(call_ensures(decode, (s,), parsed));
                        match parsed {
                            Some(value) => Ok(value),
                            None => Err(ClientError::DeserializationError),
                        }
                    },
                }
            },
        }
    }

    /// The error that a status code stands for in this client's region.
    pub fn get_status(&self, status: u16) -> (r: Result<(), ClientError>)
        ensures
            r == match ClientError::of_status(self@.region, status) {
                Some(e) => Err::<(), ClientError>(e),
                None => Ok(()),
            },
    {
        self.client.get_status(status)
    }
}

} // verus!
