//! Documents of the static data CDN.
use vstd::prelude::*;

verus! {

/// A champion's ratings, each out of ten.
#[derive(Debug, Clone)]
pub struct ChampionInfoData {
    pub attack: i32,
    pub defense: i32,
    pub magic: i32,
    pub difficulty: i32,
}

/// Where an image stands in its sprite sheet.
#[derive(Debug, Clone)]
pub struct ChampionImageData {
    pub full: String,
    pub sprite: String,
    pub group: String,
    pub x: i32,
    pub y: i32,
    pub w: i32,
    pub h: i32,
}

/// A skin of a champion.
#[derive(Debug, Clone)]
pub struct ChampionSkinData {
    pub id: String,
    pub num: i32,
    pub name: String,
    pub chromas: bool,
}

/// What a spell gains with each level.
#[derive(Debug, Clone)]
pub struct ChampionSpellLevelTipData {
    pub label: Vec<String>,
    pub effect: Vec<String>,
}

/// A champion's passive ability.
#[derive(Debug, Clone)]
pub struct ChampionPassiveData {
    pub name: String,
    pub description: String,
    pub image: ChampionImageData,
}

/// The data values of a spell; the CDN publishes none.
#[derive(Debug, Clone)]
pub struct ChampionDataValues {}

/// A block of recommended items.
#[derive(Debug, Clone)]
pub struct ChampionBlockData {
    pub type_field: String,
    pub rec_math: Option<bool>,
    pub rec_steps: Option<bool>,
    pub min_summoner_level: Option<i64>,
    pub max_summoner_level: Option<i64>,
    pub show_if_summoner_spell: Option<String>,
    pub hide_if_summoner_spell: Option<String>,
    pub append_after_section: Option<String>,
    pub visible_with_all_of: Vec<String>,
    pub hidden_with_any_of: Vec<String>,
    pub items: Vec<ChampionItemData>,
}

/// A recommended item.
#[derive(Debug, Clone)]
pub struct ChampionItemData {
    pub id: String,
    pub count: i64,
    pub hide_count: Option<bool>,
}

} // verus!
