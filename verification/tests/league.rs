use narwhalol::api::{check_token, LeagueClient};
use narwhalol::constants::division::Division;
use narwhalol::constants::lang_code::LanguageCode;
use narwhalol::constants::ranked_queue::RankedQueue;
use narwhalol::constants::ranked_tier::RankedTier;
use narwhalol::constants::region::Region;
use narwhalol::dto::api::{ChampionInfo, ChampionMastery, LeagueInfo, Summoner};
use narwhalol::error::{ClientError, ConfigFault, TransportFault};
use narwhalol::fetch::Step;
use narwhalol::types::{Cache, OutboundRequest, RequestDescriptor, TransportOutcome};
use serde_json::Value;

const KEY: &str = "RGAPI-01234567-89ab-cdef-0123-456789abcdef";

const SANTORIN: &str = "{\"id\":\"sant-id\",\"accountId\":\"rPnj4h5W6OhejxB-AO3hLOQctgZcckqV_82N_8_WuCFdO2A\",\"puuid\":\"sant-puuid\",\"name\":\"Santorin\",\"profileIconId\":4568,\"revisionDate\":1577836800000,\"summonerLevel\":212}";

const VETRO: &str = "{\"id\":\"abc\",\"accountId\":\"acc\",\"puuid\":\"pu\",\"name\":\"Vetro\",\"profileIconId\":7,\"revisionDate\":1500000000000,\"summonerLevel\":30}";

const ROTATION: &str = "{\"freeChampionIds\":[1,2,3,4,5,6,7,8,9,10,11,12,13,14],\"freeChampionIdsForNewPlayers\":[18,81,92],\"maxNewPlayerLevel\":10}";

const LEE_SIN_MASTERY: &str = "{\"chestGranted\":true,\"championLevel\":7,\"championPoints\":93748,\"championId\":64,\"championPointsUntilNextLevel\":0,\"lastPlayTime\":1577836800000,\"tokensEarned\":0,\"championPointsSinceLastLevel\":72148,\"summonerId\":\"sant-id\"}";

const LEE_SIN_DOCUMENT: &str = "{\"type\":\"champion\",\"format\":\"standAloneComplex\",\"version\":\"10.1.1\",\"data\":{\"LeeSin\":{\"id\":\"LeeSin\",\"key\":\"64\",\"name\":\"Lee Sin\"}}}";

const LADDER: &str = "[{\"queueType\":\"RANKED_SOLO_5x5\",\"summonerName\":\"first\",\"hotStreak\":false,\"wins\":300,\"veteran\":true,\"losses\":200,\"rank\":\"I\",\"tier\":\"CHALLENGER\",\"inactive\":false,\"freshBlood\":false,\"leagueId\":\"league\",\"summonerId\":\"first-id\",\"leaguePoints\":1200}]";

fn text(v: &Value, key: &str) -> Option<String> {
    Some(v.get(key)?.as_str()?.to_owned())
}

fn summoner_of(v: &Value) -> Option<Summoner> {
    Some(Summoner {
        profile_icon_id: i32::try_from(v.get("profileIconId")?.as_i64()?).ok()?,
        name: text(v, "name")?,
        puuid: text(v, "puuid")?,
        summoner_level: v.get("summonerLevel")?.as_u64()?,
        revision_date: v.get("revisionDate")?.as_u64()?,
        id: text(v, "id")?,
        account_id: text(v, "accountId")?,
    })
}

fn summoner(s: &str) -> Option<Summoner> {
    summoner_of(&serde_json::from_str::<Value>(s).ok()?)
}

fn ids(v: &Value, key: &str) -> Option<Vec<i64>> {
    v.get(key)?.as_array()?.iter().map(Value::as_i64).collect()
}

fn rotation(s: &str) -> Option<ChampionInfo> {
    let v = serde_json::from_str::<Value>(s).ok()?;
    Some(ChampionInfo {
        free_champion_ids: ids(&v, "freeChampionIds")?,
        free_champion_ids_for_new_players: ids(&v, "freeChampionIdsForNewPlayers")?,
        max_new_player_level: v.get("maxNewPlayerLevel")?.as_i64()?,
    })
}

fn mastery_of(v: &Value) -> Option<ChampionMastery> {
    Some(ChampionMastery {
        chest_granted: v.get("chestGranted")?.as_bool()?,
        champion_level: i32::try_from(v.get("championLevel")?.as_i64()?).ok()?,
        champion_points: i32::try_from(v.get("championPoints")?.as_i64()?).ok()?,
        champion_id: v.get("championId")?.as_i64()?,
        champion_points_until_next_level: v.get("championPointsUntilNextLevel")?.as_i64()?,
        last_play_time: v.get("lastPlayTime")?.as_i64()?,
        tokens_earned: v.get("tokensEarned")?.as_i64()?,
        champion_points_since_last_level: v.get("championPointsSinceLastLevel")?.as_i64()?,
        summoner_id: text(v, "summonerId")?,
    })
}

fn mastery(s: &str) -> Option<ChampionMastery> {
    mastery_of(&serde_json::from_str::<Value>(s).ok()?)
}

fn masteries(s: &str) -> Option<Vec<ChampionMastery>> {
    let v = serde_json::from_str::<Value>(s).ok()?;
    v.as_array()?.iter().map(mastery_of).collect()
}

fn score(s: &str) -> Option<i32> {
    serde_json::from_str::<i32>(s).ok()
}

fn league_of(v: &Value) -> Option<LeagueInfo> {
    Some(LeagueInfo {
        queue_type: text(v, "queueType")?,
        summoner_name: text(v, "summonerName")?,
        hot_streak: v.get("hotStreak")?.as_bool()?,
        wins: v.get("wins")?.as_i64()?,
        veteran: v.get("veteran")?.as_bool()?,
        losses: v.get("losses")?.as_i64()?,
        rank: text(v, "rank")?,
        tier: text(v, "tier")?,
        inactive: v.get("inactive")?.as_bool()?,
        fresh_blood: v.get("freshBlood")?.as_bool()?,
        league_id: text(v, "leagueId")?,
        summoner_id: text(v, "summonerId")?,
        league_points: v.get("leaguePoints")?.as_i64()?,
    })
}

fn ladder(s: &str) -> Option<Vec<LeagueInfo>> {
    let v = serde_json::from_str::<Value>(s).ok()?;
    v.as_array()?.iter().map(league_of).collect()
}

fn champion_key(name: &'static str) -> impl Fn(&str) -> Option<String> {
    move |s: &str| {
        let v = serde_json::from_str::<Value>(s).ok()?;
        text(v.get("data")?.get(name)?, "key")
    }
}

/// A transport that answers from a table and counts what it is asked.
struct Script {
    answers: Vec<(String, u16, String)>,
    calls: usize,
    seen: Vec<OutboundRequest>,
}

impl Script {
    fn new(answers: &[(&str, u16, &str)]) -> Script {
        Script {
            answers: answers
                .iter()
                .map(|(url, status, body)| (url.to_string(), *status, body.to_string()))
                .collect(),
            calls: 0,
            seen: Vec::new(),
        }
    }

    fn send(&mut self, request: OutboundRequest) -> TransportOutcome {
        self.calls += 1;
        let found = self.answers.iter().find(|(url, _, _)| *url == request.url).cloned();
        self.seen.push(request);
        match found {
            Some((_, status, body)) => TransportOutcome::Response { status, body: body.into_bytes() },
            None => TransportOutcome::Failed { fault: TransportFault::Hyper },
        }
    }
}

fn get<T>(
    client: &LeagueClient,
    cache: &mut Cache,
    transport: &mut Script,
    d: &RequestDescriptor,
    decode: impl Fn(&str) -> Option<T>,
) -> Result<T, ClientError> {
    match client.cached_resp(cache, d, &decode) {
        Step::Done(r) => r,
        Step::Send(request) => {
            let outcome = transport.send(request);
            client.fetched_resp(cache, d, outcome, &decode)
        }
    }
}

fn client(region: Region) -> LeagueClient {
    LeagueClient::new(region, Some(KEY.to_owned())).unwrap()
}

fn na_script() -> Script {
    Script::new(&[
        ("https://NA1.api.riotgames.com/lol/summoner/v4/summoners/by-name/Santorin", 200, SANTORIN),
        ("https://NA1.api.riotgames.com/lol/platform/v3/champion-rotations", 200, ROTATION),
        (
            "https://NA1.api.riotgames.com/lol/champion-mastery/v4/champion-masteries/by-summoner/sant-id",
            200,
            "[{\"chestGranted\":true,\"championLevel\":7,\"championPoints\":93748,\"championId\":64,\"championPointsUntilNextLevel\":0,\"lastPlayTime\":1577836800000,\"tokensEarned\":0,\"championPointsSinceLastLevel\":72148,\"summonerId\":\"sant-id\"}]",
        ),
        (
            "https://NA1.api.riotgames.com/lol/champion-mastery/v4/champion-masteries/by-summoner/sant-id/by-champion/64",
            200,
            LEE_SIN_MASTERY,
        ),
        ("https://NA1.api.riotgames.com/lol/champion-mastery/v4/scores/by-summoner/sant-id", 200, "192"),
        (
            "https://NA1.api.riotgames.com/lol/league-exp/v4/entries/RANKED_SOLO_5x5/CHALLENGER/I",
            200,
            LADDER,
        ),
        ("https://ddragon.leagueoflegends.com/cdn/10.1.1/data/en_US/champion/LeeSin.json", 200, LEE_SIN_DOCUMENT),
    ])
}

#[test]
fn api_gets_summoner_data() {
    let lapi = client(Region::NA());
    let mut cache = Cache::new();
    let mut transport = na_script();
    let sum = get(&lapi, &mut cache, &mut transport, &lapi.get_summoner_by_name("Santorin"), summoner)
        .unwrap();
    assert_eq!(&sum.account_id, "rPnj4h5W6OhejxB-AO3hLOQctgZcckqV_82N_8_WuCFdO2A")
}

#[test]
fn api_lapi_caches_properly() {
    let cli = client(Region::RU());
    let mut cache = Cache::new();
    let mut transport = Script::new(&[(
        "https://RU.api.riotgames.com/lol/summoner/v4/summoners/by-name/Vetro",
        200,
        VETRO,
    )]);
    let _ = get(&cli, &mut cache, &mut transport, &cli.get_summoner_by_name("Vetro"), summoner).unwrap();
    let before = transport.calls;
    let _ = get(&cli, &mut cache, &mut transport, &cli.get_summoner_by_name("Vetro"), summoner).unwrap();
    assert!(transport.calls - before == 0);
}

#[test]
fn client_lapi_caches_properly() {
    let cli = client(Region::RU());
    let mut cache = Cache::new();
    let d = cli.get_summoner_by_name("Vetro");
    let first: Step<Summoner> = cli.cached_resp(&cache, &d, summoner);
    let request = match first {
        Step::Send(request) => request,
        Step::Done(_) => panic!("an empty cache served a call"),
    };
    assert_eq!(request.url, "https://RU.api.riotgames.com/lol/summoner/v4/summoners/by-name/Vetro");
    let outcome = TransportOutcome::Response { status: 200, body: VETRO.as_bytes().to_vec() };
    let _ = cli.fetched_resp(&mut cache, &d, outcome, summoner).unwrap();
    let second: Step<Summoner> = cli.cached_resp(&cache, &d, summoner);
    assert!(matches!(second, Step::Done(Ok(_))));
}

#[test]
fn api_gets_champion_info() {
    let lapi = client(Region::default());
    let mut cache = Cache::new();
    let mut transport = na_script();
    let champ_info =
        get(&lapi, &mut cache, &mut transport, &lapi.get_champion_info(), rotation).unwrap();
    assert!(champ_info.free_champion_ids.len() > 10);
    assert!(champ_info.free_champion_ids_for_new_players.len() > 0);
    assert_ne!(champ_info.max_new_player_level, 0)
}

#[test]
fn api_gets_champion_masteries() {
    let lapi = client(Region::NA());
    let mut cache = Cache::new();
    let mut transport = na_script();
    let sum = get(&lapi, &mut cache, &mut transport, &lapi.get_summoner_by_name("Santorin"), summoner)
        .unwrap();
    let all = get(&lapi, &mut cache, &mut transport, &lapi.get_champion_masteries(&sum.id), masteries)
        .unwrap();
    assert_ne!(all.len(), 0)
}

#[test]
fn api_gets_champion_mastery_by_id() {
    let versions = TransportOutcome::Response {
        status: 200,
        body: b"[\"10.1.1\",\"9.24.2\"]".to_vec(),
    };
    let lapi = client(Region::default())
        .with_ddragon(LanguageCode::UNITED_STATES(), versions)
        .unwrap();
    let mut cache = Cache::new();
    let mut transport = na_script();
    let lee_sin_key: String = get(
        &lapi,
        &mut cache,
        &mut transport,
        &lapi.ddragon().get_champion("LeeSin"),
        champion_key("LeeSin"),
    )
    .unwrap();
    let sum = get(&lapi, &mut cache, &mut transport, &lapi.get_summoner_by_name("Santorin"), summoner)
        .unwrap();
    let one = get(
        &lapi,
        &mut cache,
        &mut transport,
        &lapi.get_champion_mastery_by_id(&sum.id, lee_sin_key.parse().unwrap()),
        mastery,
    )
    .unwrap();

    assert_eq!(one.champion_id, 64);
    assert_eq!(one.champion_level, 7);
    assert!(one.champion_points >= 93748)
}

#[test]
fn api_gets_total_mastery_score() {
    let lapi = client(Region::default());
    let mut cache = Cache::new();
    let mut transport = na_script();
    let sum = get(&lapi, &mut cache, &mut transport, &lapi.get_summoner_by_name("Santorin"), summoner)
        .unwrap();
    let total =
        get(&lapi, &mut cache, &mut transport, &lapi.get_total_mastery_score(&sum.id), score).unwrap();
    assert!(total >= 192)
}

#[test]
fn gets_league_exp() {
    let lapi = client(Region::default());
    let mut cache = Cache::new();
    let mut transport = na_script();
    let d = lapi.get_league_exp_entries(
        RankedQueue::SOLO(),
        RankedTier::CHALLENGER(),
        Division::I(),
        None,
    );
    let challengers = get(&lapi, &mut cache, &mut transport, &d, ladder).unwrap();
    assert!(challengers.len() > 0);
}

#[test]
fn lookup_by_name_is_fetched_once_and_then_served() {
    let cli = client(Region::EUW());
    let mut cache = Cache::new();
    let mut transport = Script::new(&[(
        "https://EUW1.api.riotgames.com/lol/summoner/v4/summoners/by-name/Vetro",
        200,
        VETRO,
    )]);
    let first = get(&cli, &mut cache, &mut transport, &cli.get_summoner_by_name("Vetro"), summoner)
        .unwrap();
    assert_eq!(first.name, "Vetro");
    assert_eq!(transport.calls, 1);
    let second = get(&cli, &mut cache, &mut transport, &cli.get_summoner_by_name("Vetro"), summoner)
        .unwrap();
    assert_eq!(format!("{:?}", second), format!("{:?}", first));
    assert_eq!(transport.calls, 1);
    assert_eq!(
        cache.lookup("https://EUW1.api.riotgames.com/lol/summoner/v4/summoners/by-name/Vetro"),
        Some(VETRO.to_owned())
    );
}

#[test]
fn unavailable_service_names_the_region_and_caches_nothing() {
    let cli = client(Region::KR());
    let mut cache = Cache::new();
    let url = "https://KR.api.riotgames.com/lol/platform/v3/champion-rotations";
    let mut transport = Script::new(&[(url, 503, "{\"status\":{\"status_code\":503}}")]);
    let r = get(&cli, &mut cache, &mut transport, &cli.get_champion_info(), rotation);
    assert_eq!(r.unwrap_err(), ClientError::ServiceUnavailable { region: Region::KR() });
    assert!(!cache.contains(url));
    assert_eq!(cache.lookup(url), None);
}

#[test]
fn not_found_is_not_cached_and_is_asked_again() {
    let cli = client(Region::NA());
    let mut cache = Cache::new();
    let url = "https://NA1.api.riotgames.com/lol/summoner/v4/summoners/by-name/nobody";
    let mut transport = Script::new(&[(url, 404, "{}")]);
    let d = cli.get_summoner_by_name("nobody");
    assert_eq!(
        get(&cli, &mut cache, &mut transport, &d, summoner).unwrap_err(),
        ClientError::DataNotFound
    );
    assert!(!cache.contains(url));
    assert_eq!(transport.calls, 1);
    assert_eq!(
        get(&cli, &mut cache, &mut transport, &d, summoner).unwrap_err(),
        ClientError::DataNotFound
    );
    assert_eq!(transport.calls, 2);
}

#[test]
fn every_error_status_is_returned_and_not_cached() {
    let cli = client(Region::TR());
    let d = cli.get_champion_info();
    let table = [
        (400, ClientError::BadRequest),
        (401, ClientError::Unauthorized),
        (403, ClientError::Forbidden),
        (404, ClientError::DataNotFound),
        (405, ClientError::MethodNotAllowed),
        (415, ClientError::UnsupportedMediaType),
        (429, ClientError::RateLimitExceeded { limit: 0 }),
        (500, ClientError::InternalServerError),
        (502, ClientError::BadGateway),
        (503, ClientError::ServiceUnavailable { region: Region::TR() }),
        (504, ClientError::GatewayTimeout),
    ];
    for (status, error) in table {
        let mut cache = Cache::new();
        let outcome = TransportOutcome::Response { status, body: ROTATION.as_bytes().to_vec() };
        let r: Result<ChampionInfo, ClientError> = cli.fetched_resp(&mut cache, &d, outcome, rotation);
        assert_eq!(r.unwrap_err(), error);
        assert!(!cache.contains(&d.url));
    }
}

#[test]
fn a_transport_failure_is_returned_and_not_cached() {
    let cli = client(Region::NA());
    let d = cli.get_champion_info();
    for fault in [
        TransportFault::Hyper,
        TransportFault::NativeTls,
        TransportFault::Io,
        TransportFault::UnsupportedScheme,
        TransportFault::UrlNotParsed,
    ] {
        let mut cache = Cache::new();
        let r: Result<ChampionInfo, ClientError> =
            cli.fetched_resp(&mut cache, &d, TransportOutcome::Failed { fault }, rotation);
        assert_eq!(r.unwrap_err(), ClientError::TransportError { fault });
        assert!(!cache.contains(&d.url));
    }
}

#[test]
fn a_body_of_another_shape_is_an_error_of_its_own_and_not_cached() {
    let cli = client(Region::NA());
    let d = cli.get_champion_info();
    let mut cache = Cache::new();
    let outcome = TransportOutcome::Response { status: 200, body: VETRO.as_bytes().to_vec() };
    let r: Result<ChampionInfo, ClientError> = cli.fetched_resp(&mut cache, &d, outcome, rotation);
    assert_eq!(r.unwrap_err(), ClientError::DeserializationError);
    assert!(!cache.contains(&d.url));
}

#[test]
fn an_unlisted_status_passes_to_the_decoder() {
    let cli = client(Region::NA());
    let d = cli.get_champion_info();
    let mut cache = Cache::new();
    let outcome = TransportOutcome::Response { status: 201, body: ROTATION.as_bytes().to_vec() };
    let r: Result<ChampionInfo, ClientError> = cli.fetched_resp(&mut cache, &d, outcome, rotation);
    assert_eq!(r.unwrap().max_new_player_level, 10);
    assert_eq!(cache.lookup(&d.url), Some(ROTATION.to_owned()));

    let mut cache = Cache::new();
    let outcome = TransportOutcome::Response { status: 418, body: b"I'm a teapot".to_vec() };
    let r: Result<ChampionInfo, ClientError> = cli.fetched_resp(&mut cache, &d, outcome, rotation);
    assert_eq!(r.unwrap_err(), ClientError::DeserializationError);
    assert!(!cache.contains(&d.url));
}

#[test]
fn a_cached_body_of_another_shape_is_an_error_and_stays() {
    let cli = client(Region::NA());
    let d = cli.get_champion_info();
    let mut cache = Cache::new();
    cache.insert(d.url.clone(), VETRO.to_owned());
    let step: Step<ChampionInfo> = cli.cached_resp(&cache, &d, rotation);
    assert!(matches!(step, Step::Done(Err(ClientError::DeserializationError))));
    assert_eq!(cache.lookup(&d.url), Some(VETRO.to_owned()));
    let step: Step<Summoner> = cli.cached_resp(&cache, &d, summoner);
    assert!(matches!(step, Step::Done(Ok(_))));
}

#[test]
fn league_requests_carry_the_key_and_cdn_requests_none() {
    let versions = TransportOutcome::Response { status: 200, body: b"[\"10.1.1\"]".to_vec() };
    let cli = client(Region::NA()).with_ddragon(LanguageCode::KOREA(), versions).unwrap();
    let cache = Cache::new();

    let d = cli.get_champion_info();
    assert_eq!(d.auth.as_deref(), Some(KEY));
    let step: Step<ChampionInfo> = cli.cached_resp(&cache, &d, rotation);
    let request = match step {
        Step::Send(request) => request,
        Step::Done(_) => panic!("an empty cache served a call"),
    };
    assert_eq!(request.header("X-Riot-Token"), Some(KEY));
    assert_eq!(request.header("Accept"), None);
    assert_eq!(request.url, d.url);

    let d = cli.ddragon().get_champions();
    assert_eq!(d.auth, None);
    let step: Step<String> = cli.cached_resp(&cache, &d, champion_key("Ahri"));
    let request = match step {
        Step::Send(request) => request,
        Step::Done(_) => panic!("an empty cache served a call"),
    };
    assert_eq!(request.header("X-Riot-Token"), None);
    assert_eq!(request.riot_token, None);
    assert_eq!(request.url, "https://ddragon.leagueoflegends.com/cdn/10.1.1/data/ko_KR/champion.json");
}

#[test]
fn the_cache_key_is_the_url_alone() {
    let cli = client(Region::NA());
    let mut cache = Cache::new();
    let with_key = cli.get_league_exp_entries(
        RankedQueue::FLEX(),
        RankedTier::GOLD(),
        Division::II(),
        Some(1),
    );
    let page_two = cli.get_league_exp_entries(
        RankedQueue::FLEX(),
        RankedTier::GOLD(),
        Division::II(),
        Some(2),
    );
    assert_eq!(
        with_key.url,
        "https://NA1.api.riotgames.com/lol/league-exp/v4/entries/RANKED_FLEX_SR/GOLD/II?page=1"
    );
    assert_eq!(
        page_two.url,
        "https://NA1.api.riotgames.com/lol/league-exp/v4/entries/RANKED_FLEX_SR/GOLD/II?page=2"
    );
    let one = TransportOutcome::Response { status: 200, body: LADDER.as_bytes().to_vec() };
    let two = TransportOutcome::Response { status: 200, body: b"[]".to_vec() };
    let _: Vec<LeagueInfo> = cli.fetched_resp(&mut cache, &with_key, one, ladder).unwrap();
    let step: Step<Vec<LeagueInfo>> = cli.cached_resp(&cache, &page_two, ladder);
    assert!(matches!(step, Step::Send(_)));
    let _: Vec<LeagueInfo> = cli.fetched_resp(&mut cache, &page_two, two, ladder).unwrap();
    assert_eq!(cache.lookup(&with_key.url), Some(LADDER.to_owned()));
    assert_eq!(cache.lookup(&page_two.url), Some("[]".to_owned()));

    let without_key = RequestDescriptor { url: with_key.url.clone(), auth: None };
    let other_key = RequestDescriptor { url: with_key.url.clone(), auth: Some("other".to_owned()) };
    for d in [without_key, other_key] {
        let step: Step<Vec<LeagueInfo>> = cli.cached_resp(&cache, &d, ladder);
        match step {
            Step::Done(Ok(entries)) => assert_eq!(entries.len(), 1),
            _ => panic!("the same URL was not served from the cache"),
        }
    }
}

#[test]
fn accessors_build_their_urls() {
    let cli = client(Region::OCE());
    let base = "https://OC1.api.riotgames.com/lol";
    assert_eq!(cli.get_summoner_by_name("Hide").url, format!("{}/summoner/v4/summoners/by-name/Hide", base));
    assert_eq!(cli.get_champion_info().url, format!("{}/platform/v3/champion-rotations", base));
    assert_eq!(
        cli.get_champion_masteries("id-1").url,
        format!("{}/champion-mastery/v4/champion-masteries/by-summoner/id-1", base)
    );
    assert_eq!(
        cli.get_champion_mastery_by_id("id-1", 0).url,
        format!("{}/champion-mastery/v4/champion-masteries/by-summoner/id-1/by-champion/0", base)
    );
    assert_eq!(
        cli.get_champion_mastery_by_id("id-1", u64::MAX).url,
        format!(
            "{}/champion-mastery/v4/champion-masteries/by-summoner/id-1/by-champion/18446744073709551615",
            base
        )
    );
    assert_eq!(
        cli.get_total_mastery_score("id-1").url,
        format!("{}/champion-mastery/v4/scores/by-summoner/id-1", base)
    );
    assert_eq!(
        cli.get_league_exp_entries(RankedQueue::TWISTED_TREELINE(), RankedTier::IRON(), Division::IV(), None).url,
        format!("{}/league-exp/v4/entries/RANKED_FLEX_TT/IRON/IV", base)
    );
    assert_eq!(
        cli.get_league_exp_entries(RankedQueue::SOLO(), RankedTier::MASTER(), Division::I(), Some(-3)).url,
        format!("{}/league-exp/v4/entries/RANKED_SOLO_5x5/MASTER/I?page=-3", base)
    );
    assert_eq!(
        cli.get_league_exp_entries(RankedQueue::SOLO(), RankedTier::MASTER(), Division::I(), Some(i32::MIN)).url,
        format!("{}/league-exp/v4/entries/RANKED_SOLO_5x5/MASTER/I?page=-2147483648", base)
    );
    assert_eq!(
        cli.get_league_exp_entries(RankedQueue::SOLO(), RankedTier::MASTER(), Division::I(), Some(i32::MAX)).url,
        format!("{}/league-exp/v4/entries/RANKED_SOLO_5x5/MASTER/I?page=2147483647", base)
    );
}

#[test]
fn a_client_is_made_only_from_a_token() {
    assert!(LeagueClient::new(Region::NA(), Some(KEY.to_owned())).is_ok());
    assert_eq!(
        LeagueClient::new(Region::NA(), None).unwrap_err(),
        ClientError::MalformedConfig { reason: ConfigFault::NoToken }
    );
    let wrong = ClientError::MalformedConfig { reason: ConfigFault::WrongToken };
    for token in [
        "",
        "RGAPI",
        "RGAPI-01234567-89ab-cdef-0123-456789abcde",
        "RGAPI-01234567-89ab-cdef-0123-456789abcdef0",
        "rgapi-01234567-89ab-cdef-0123-456789abcdef",
        "RGAP-I01234567-89ab-cdef-0123-456789abcdef",
        "012345678901234567890123456789012345678901",
    ] {
        assert_eq!(LeagueClient::new(Region::NA(), Some(token.to_owned())).unwrap_err(), wrong);
        assert_eq!(check_token(token), Err(wrong));
    }
}

#[test]
fn the_marker_may_stand_anywhere_in_a_token() {
    assert_eq!(check_token(KEY), Ok(()));
    assert_eq!(check_token("0123456789012345678901234567890123456RGAPI"), Ok(()));
    assert_eq!(check_token("012345678901234567RGAPI0123456789012345678"), Ok(()));
    assert_eq!(check_token("RGAPRGAPI012345678901234567890123456789012"), Ok(()));
}

#[test]
fn a_token_is_measured_in_bytes() {
    let two_byte_letters = format!("RGAPI-{}", "é".repeat(18));
    assert_eq!(two_byte_letters.len(), 42);
    assert_eq!(two_byte_letters.chars().count(), 24);
    assert_eq!(check_token(&two_byte_letters), Ok(()));
    let forty_two_letters = format!("RGAPI-{}", "é".repeat(36));
    assert_eq!(forty_two_letters.chars().count(), 42);
    assert!(check_token(&forty_two_letters).is_err());
}

#[test]
fn a_client_has_a_cdn_client_only_once_one_was_added() {
    let cli = client(Region::NA());
    assert!(!cli.has_ddragon());
    let versions = TransportOutcome::Response { status: 200, body: b"[\"9.3.1\"]".to_vec() };
    let cli = cli.with_ddragon(LanguageCode::FRANCE(), versions).unwrap();
    assert!(cli.has_ddragon());
    assert_eq!(
        cli.ddragon().get_champion("Ahri").url,
        "https://ddragon.leagueoflegends.com/cdn/9.3.1/data/fr_FR/champion/Ahri.json"
    );
    let failed = TransportOutcome::Failed { fault: TransportFault::Io };
    assert_eq!(
        client(Region::NA()).with_ddragon(LanguageCode::FRANCE(), failed).unwrap_err(),
        ClientError::TransportError { fault: TransportFault::Io }
    );
}
