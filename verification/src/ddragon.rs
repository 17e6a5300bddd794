//! The client of the DDragon static data CDN.
//!
//! A [`DDragonClient`] knows the CDN's latest version and the language to
//! ask in, and turns each accessor into the descriptor of its request. CDN
//! requests carry no API key.
use vstd::prelude::*;
use vstd::string::StringExecFns;
use crate::constants::{LanguageCode, Region};
use crate::error::ClientError;
use crate::fetch::{after_fetch, first_step, second_step, Step};
use crate::types::{Cache, RequestDescriptor, TransportOutcome};
use crate::utils::{get_latest_ddragon_version, latest_version};

verus! {

/// Client of the static data CDN.
#[derive(Debug, Clone)]
pub struct DDragonClient {
    region: Region,
    version: String,
    base_url: String,
}

/// What a [`DDragonClient`] holds.
pub struct DDragonClientView {
    /// The region that a `ServiceUnavailable` of this client names.
    pub region: Region,
    /// The CDN version that the client asks for.
    pub version: Seq<char>,
    /// What every data URL of the client begins with.
    pub base_url: Seq<char>,
}

impl View for DDragonClient {
    type V = DDragonClientView;

    closed spec fn view(&self) -> DDragonClientView {
        DDragonClientView { region: self.region, version: self.version@, base_url: self.base_url@ }
    }
}

/// The URL of the CDN's version list.
pub open spec fn versions_url() -> Seq<char> {
    "https://ddragon.leagueoflegends.com/api/versions.json"@
}

/// What the data URLs of a version and a language begin with.
pub open spec fn data_base_url(version: Seq<char>, language: LanguageCode) -> Seq<char> {
    "https://ddragon.leagueoflegends.com/cdn/"@ + version + "/data/"@ + language.name()
}

/// The URL of the document that lists all champions.
pub open spec fn champions_url(base_url: Seq<char>) -> Seq<char> {
    base_url + "/champion.json"@
}

/// The URL of the document of one champion.
pub open spec fn champion_url(base_url: Seq<char>, name: Seq<char>) -> Seq<char> {
    base_url + "/champion/"@ + name + ".json"@
}

impl DDragonClient {
    /// The request for the CDN's version list, whose outcome [`DDragonClient::new`]
    /// takes. It carries no API key.
    pub fn versions_request() -> (d: RequestDescriptor)
        ensures
            d.url@ == versions_url(),
            d.auth is None,
    {
        RequestDescriptor {
            url: String::from_str("https://ddragon.leagueoflegends.com/api/versions.json"),
            auth: None,
        }
    }

    /// A client for `language` at the latest version that `versions`, the
    /// outcome of the version request, names. Errors of its own are reported
    /// for the default region.
    pub fn new(language: LanguageCode, versions: TransportOutcome) -> (r: Result<
        DDragonClient,
        ClientError,
    >)
        ensures
            match r {
                Ok(client) => latest_version(versions) matches Ok(version) && client@ == (
                DDragonClientView {
                    region: (Region { area: crate::constants::region::Area::NA }),
                    version,
                    base_url: data_base_url(version, language),
                }),
                Err(e) => latest_version(versions) == Err::<Seq<char>, ClientError>(e),
            },
    {
        Self::new_for_lapi(Region::NA(), language, versions)
    }

    /// A client for `language` at the latest version that `versions` names,
    /// on behalf of a league client of `region`.
    pub(crate) fn new_for_lapi(region: Region, language: LanguageCode, versions: TransportOutcome) -> (r:
        Result<DDragonClient, ClientError>)
        ensures
            match r {
                Ok(client) => latest_version(versions) matches Ok(version) && client@ == (
                DDragonClientView { region, version, base_url: data_base_url(version, language) }),
                Err(e) => latest_version(versions) == Err::<Seq<char>, ClientError>(e),
            },
    {
        match get_latest_ddragon_version(versions) {
            Ok(version) => {
                let mut base_url = String::from_str("https://ddragon.leagueoflegends.com/cdn/");
                base_url.append(version.as_str());
                base_url.append("/data/");
                base_url.append(language.as_str());
                Ok(DDragonClient { region, version, base_url })
            },
            Err(e) => Err(e),
        }
    }

    /// The descriptor of the request for the document that lists all champions.
    pub fn get_champions(&self) -> (d: RequestDescriptor)
        ensures
            d.url@ == champions_url(self@.base_url),
            d.auth is None,
    {
        let mut url = self.base_url.clone();
        url.append("/champion.json");
        RequestDescriptor { url, auth: None }
    }

    /// The descriptor of the request for the document of the champion `name`.
    pub fn get_champion(&self, name: &str) -> (d: RequestDescriptor)
        ensures
            d.url@ == champion_url(self@.base_url, name@),
            d.auth is None,
    {
        let mut url = self.base_url.clone();
        url.append("/champion/");
        url.append(name);
        url.append(".json");
        RequestDescriptor { url, auth: None }
    }

    /// First step of a call through this client: see [`crate::fetch::cached_resp`].
    pub fn cached_resp<T, D>(&self, cache: &Cache, d: &RequestDescriptor, decode: D) -> (step: Step<
        T,
    >) where D: FnOnce(&str) -> Option<T>
        requires
            forall|s: &str| call_requires(decode, (s,)),
        ensures
            first_step(cache@, *d, decode, step),
    {
        crate::fetch::cached_resp(cache, d, decode)
    }

    /// Second step of a call through this client: see [`crate::fetch::fetched_resp`].
    pub fn fetched_resp<T, D>(
        &self,
        cache: &mut Cache,
        d: &RequestDescriptor,
        outcome: TransportOutcome,
        decode: D,
    ) -> (r: Result<T, ClientError>) where D: FnOnce(&str) -> Option<T>
        requires
            forall|s: &str| call_requires(decode, (s,)),
        ensures
            second_step(self@.region, outcome, decode, r),
            final(cache)@ == after_fetch(old(cache)@, self@.region, *d, outcome, r is Ok),
    {
        crate::fetch::fetched_resp(cache, self.region, d, outcome, decode)
    }
}

} // verus!
