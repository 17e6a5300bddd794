//! Game regions and the platform names under which the API serves them.
use vstd::prelude::*;

verus! {

/// The areas that the API serves.
#[derive(Debug, Clone, Copy, PartialEq, Eq, Hash, Structural)]
pub enum Area {
    /// Brazil
    BR,
    /// Europe North East
    EUNE,
    /// Europe West
    EUW,
    /// Japan
    JP,
    /// Korea
    KR,
    /// Latin America North
    LAN,
    /// Latin America South
    LAS,
    /// North America
    NA,
    /// Oceania
    OCE,
    /// Turkey
    TR,
    /// Russia
    RU,
    /// Public Beta Environment
    PBE,
}

/// A game region.
#[derive(Debug, Clone, Copy, PartialEq, Eq, Hash, Structural)]
pub struct Region {
    pub area: Area,
}

#[allow(non_snake_case)]
impl Region {
    /// Brazil
    pub fn BR() -> (r: Region)
        ensures
            r == (Region { area: Area::BR }),
    {
        Region { area: Area::BR }
    }

    /// Europe North East
    pub fn EUNE() -> (r: Region)
        ensures
            r == (Region { area: Area::EUNE }),
    {
        Region { area: Area::EUNE }
    }

    /// Europe West
    pub fn EUW() -> (r: Region)
        ensures
            r == (Region { area: Area::EUW }),
    {
        Region { area: Area::EUW }
    }

    /// Japan
    pub fn JP() -> (r: Region)
        ensures
            r == (Region { area: Area::JP }),
    {
        Region { area: Area::JP }
    }

    /// Korea
    pub fn KR() -> (r: Region)
        ensures
            r == (Region { area: Area::KR }),
    {
        Region { area: Area::KR }
    }

    /// Latin America North
    pub fn LAN() -> (r: Region)
        ensures
            r == (Region { area: Area::LAN }),
    {
        Region { area: Area::LAN }
    }

    /// Latin America South
    pub fn LAS() -> (r: Region)
        ensures
            r == (Region { area: Area::LAS }),
    {
        Region { area: Area::LAS }
    }

    /// North America
    pub fn NA() -> (r: Region)
        ensures
            r == (Region { area: Area::NA }),
    {
        Region { area: Area::NA }
    }

    /// Oceania
    pub fn OCE() -> (r: Region)
        ensures
            r == (Region { area: Area::OCE }),
    {
        Region { area: Area::OCE }
    }

    /// Turkey
    pub fn TR() -> (r: Region)
        ensures
            r == (Region { area: Area::TR }),
    {
        Region { area: Area::TR }
    }

    /// Russia
    pub fn RU() -> (r: Region)
        ensures
            r == (Region { area: Area::RU }),
    {
        Region { area: Area::RU }
    }

    /// Public Beta Environment
    pub fn PBE() -> (r: Region)
        ensures
            r == (Region { area: Area::PBE }),
    {
        Region { area: Area::PBE }
    }

    /// The region's short name.
    pub open spec fn name(self) -> Seq<char> {
        match self.area {
            Area::BR => "BR"@,
            Area::EUNE => "EUNE"@,
            Area::EUW => "EUW"@,
            Area::JP => "JP"@,
            Area::KR => "KR"@,
            Area::LAN => "LAN"@,
            Area::LAS => "LAS"@,
            Area::NA => "NA"@,
            Area::OCE => "OCE"@,
            Area::TR => "TR"@,
            Area::RU => "RU"@,
            Area::PBE => "PBE"@,
        }
    }

    /// The platform name, as it stands in the host name of a request.
    pub open spec fn platform_name(self) -> Seq<char> {
        match self.area {
            Area::BR => "BR1"@,
            Area::EUNE => "EUN1"@,
            Area::EUW => "EUW1"@,
            Area::JP => "JP1"@,
            Area::KR => "KR"@,
            Area::LAN => "LA1"@,
            Area::LAS => "LA2"@,
            Area::NA => "NA1"@,
            Area::OCE => "OC1"@,
            Area::TR => "TR1"@,
            Area::RU => "RU"@,
            Area::PBE => "PBE1"@,
        }
    }

    /// String representation of Region
    #[inline]
    pub fn as_str(&self) -> (s: &'static str)
        ensures
            s@ == self.name(),
    {
        match self.area {
            Area::BR => "BR",
            Area::EUNE => "EUNE",
            Area::EUW => "EUW",
            Area::JP => "JP",
            Area::KR => "KR",
            Area::LAN => "LAN",
            Area::LAS => "LAS",
            Area::NA => "NA",
            Area::OCE => "OCE",
            Area::TR => "TR",
            Area::RU => "RU",
            Area::PBE => "PBE",
        }
    }

    /// Platform string to make requests
    #[inline]
    pub fn as_platform_str(&self) -> (s: &'static str)
        ensures
            s@ == self.platform_name(),
    {
        match self.area {
            Area::BR => "BR1",
            Area::EUNE => "EUN1",
            Area::EUW => "EUW1",
            Area::JP => "JP1",
            Area::KR => "KR",
            Area::LAN => "LA1",
            Area::LAS => "LA2",
            Area::NA => "NA1",
            Area::OCE => "OC1",
            Area::TR => "TR1",
            Area::RU => "RU",
            Area::PBE => "PBE1",
        }
    }
}

impl Default for Region {
    #[inline]
    fn default() -> (r: Region)
        ensures
            r == (Region { area: Area::NA }),
    {
        Region::NA()
    }
}

} // verus!
