//! Client core for the Riot League of Legends REST API and the DDragon static
//! data CDN: request descriptors, the URL-keyed response cache, the
//! fetch-or-cache steps and the status-to-error mapping.
//!
//! Nothing here touches the network. A client turns an accessor into a
//! [`types::RequestDescriptor`]; [`fetch::cached_resp`] serves it from a
//! [`types::Cache`] or names the request to send; [`fetch::fetched_resp`]
//! takes in what the transport made of that request.
pub mod api;
pub mod constants;
pub mod ddragon;
pub mod dto;
pub mod error;
pub mod fetch;
pub mod synchronous;
pub mod types;
pub mod utils;

pub use api::LeagueClient;
pub use constants::{Division, LanguageCode, RankedQueue, RankedTier, Region};
pub use ddragon::DDragonClient;
pub use dto::api::{ChampionInfo, ChampionMastery, LeagueInfo, Summoner};
pub use dto::ddragon::{
    ChampionBlockData, ChampionDataValues, ChampionImageData, ChampionInfoData, ChampionItemData,
    ChampionPassiveData, ChampionSkinData, ChampionSpellLevelTipData,
};
pub use error::ClientError;
