//! Language codes of the static data CDN.
use vstd::prelude::*;
use vstd::std_specs::cmp::PartialEqSpecImpl;
use crate::utils::same_text;

verus! {

/// The locales in which static data is published.
#[derive(Debug, Clone, Copy, PartialEq, Eq, Hash, Structural)]
pub enum Locale {
    /// Czech (Czech Republic)
    CzechRepublic,
    /// Greek (Greece)
    Greece,
    /// Polish (Poland)
    Poland,
    /// Romanian (Romania)
    Romania,
    /// Hungarian (Hungary)
    Hungary,
    /// English (United Kingdom)
    UnitedKingdom,
    /// German (Germany)
    Germany,
    /// Spanish (Spain)
    Spain,
    /// Italian (Italy)
    Italy,
    /// French (France)
    France,
    /// Japanese (Japan)
    Japan,
    /// Korean (Korea)
    Korea,
    /// Spanish (Mexico)
    Mexico,
    /// Spanish (Argentina)
    Argentina,
    /// Portuguese (Brazil)
    Brazil,
    /// English (United States)
    UnitedStates,
    /// English (Australia)
    Australia,
    /// Russian (Russia)
    Russia,
    /// Turkish (Turkey)
    Turkey,
    /// Malay (Malaysia)
    Malaysia,
    /// English (Republic of the Philippines)
    RepublicOfThePhilipinnes,
    /// English (Singapore)
    Singapore,
    /// Thai (Thailand)
    Thailand,
    /// Vietnamese (Vietnam)
    Vietnam,
    /// Indonesian (Indonesia)
    Indonesia,
    /// Chinese (Malaysia)
    MalaysiaChinese,
    /// Chinese (China)
    China,
    /// Chinese (Taiwan)
    Taiwan,
}

/// A language code.
#[derive(Debug, Clone, Copy, PartialEq, Eq, Hash, Structural)]
pub struct LanguageCode {
    pub locale: Locale,
}

#[allow(non_snake_case)]
impl LanguageCode {
    /// Czech (Czech Republic)
    pub fn CZECH_REPUBLIC() -> (r: LanguageCode)
        ensures
            r == (LanguageCode { locale: Locale::CzechRepublic }),
    {
        LanguageCode { locale: Locale::CzechRepublic }
    }

    /// Greek (Greece)
    pub fn GREECE() -> (r: LanguageCode)
        ensures
            r == (LanguageCode { locale: Locale::Greece }),
    {
        LanguageCode { locale: Locale::Greece }
    }

    /// Polish (Poland)
    pub fn POLAND() -> (r: LanguageCode)
        ensures
            r == (LanguageCode { locale: Locale::Poland }),
    {
        LanguageCode { locale: Locale::Poland }
    }

    /// Romanian (Romania)
    pub fn ROMANIA() -> (r: LanguageCode)
        ensures
            r == (LanguageCode { locale: Locale::Romania }),
    {
        LanguageCode { locale: Locale::Romania }
    }

    /// Hungarian (Hungary)
    pub fn HUNGARY() -> (r: LanguageCode)
        ensures
            r == (LanguageCode { locale: Locale::Hungary }),
    {
        LanguageCode { locale: Locale::Hungary }
    }

    /// English (United Kingdom)
    pub fn UNITED_KINGDOM() -> (r: LanguageCode)
        ensures
            r == (LanguageCode { locale: Locale::UnitedKingdom }),
    {
        LanguageCode { locale: Locale::UnitedKingdom }
    }

    /// German (Germany)
    pub fn GERMANY() -> (r: LanguageCode)
        ensures
            r == (LanguageCode { locale: Locale::Germany }),
    {
        LanguageCode { locale: Locale::Germany }
    }

    /// Spanish (Spain)
    pub fn SPAIN() -> (r: LanguageCode)
        ensures
            r == (LanguageCode { locale: Locale::Spain }),
    {
        LanguageCode { locale: Locale::Spain }
    }

    /// Italian (Italy)
    pub fn ITALY() -> (r: LanguageCode)
        ensures
            r == (LanguageCode { locale: Locale::Italy }),
    {
        LanguageCode { locale: Locale::Italy }
    }

    /// French (France)
    pub fn FRANCE() -> (r: LanguageCode)
        ensures
            r == (LanguageCode { locale: Locale::France }),
    {
        LanguageCode { locale: Locale::France }
    }

    /// Japanese (Japan)
    pub fn JAPAN() -> (r: LanguageCode)
        ensures
            r == (LanguageCode { locale: Locale::Japan }),
    {
        LanguageCode { locale: Locale::Japan }
    }

    /// Korean (Korea)
    pub fn KOREA() -> (r: LanguageCode)
        ensures
            r == (LanguageCode { locale: Locale::Korea }),
    {
        LanguageCode { locale: Locale::Korea }
    }

    /// Spanish (Mexico)
    pub fn MEXICO() -> (r: LanguageCode)
        ensures
            r == (LanguageCode { locale: Locale::Mexico }),
    {
        LanguageCode { locale: Locale::Mexico }
    }

    /// Spanish (Argentina)
    pub fn ARGENTINA() -> (r: LanguageCode)
        ensures
            r == (LanguageCode { locale: Locale::Argentina }),
    {
        LanguageCode { locale: Locale::Argentina }
    }

    /// Portuguese (Brazil)
    pub fn BRAZIL() -> (r: LanguageCode)
        ensures
            r == (LanguageCode { locale: Locale::Brazil }),
    {
        LanguageCode { locale: Locale::Brazil }
    }

    /// English (United States)
    pub fn UNITED_STATES() -> (r: LanguageCode)
        ensures
            r == (LanguageCode { locale: Locale::UnitedStates }),
    {
        LanguageCode { locale: Locale::UnitedStates }
    }

    /// English (Australia)
    pub fn AUSTRALIA() -> (r: LanguageCode)
        ensures
            r == (LanguageCode { locale: Locale::Australia }),
    {
        LanguageCode { locale: Locale::Australia }
    }

    /// Russian (Russia)
    pub fn RUSSIA() -> (r: LanguageCode)
        ensures
            r == (LanguageCode { locale: Locale::Russia }),
    {
        LanguageCode { locale: Locale::Russia }
    }

    /// Turkish (Turkey)
    pub fn TURKEY() -> (r: LanguageCode)
        ensures
            r == (LanguageCode { locale: Locale::Turkey }),
    {
        LanguageCode { locale: Locale::Turkey }
    }

    /// Malay (Malaysia)
    pub fn MALAYSIA() -> (r: LanguageCode)
        ensures
            r == (LanguageCode { locale: Locale::Malaysia }),
    {
        LanguageCode { locale: Locale::Malaysia }
    }

    /// English (Republic of the Philippines)
    pub fn PHILIPINNES() -> (r: LanguageCode)
        ensures
            r == (LanguageCode { locale: Locale::RepublicOfThePhilipinnes }),
    {
        LanguageCode { locale: Locale::RepublicOfThePhilipinnes }
    }

    /// English (Singapore)
    pub fn SINGAPORE() -> (r: LanguageCode)
        ensures
            r == (LanguageCode { locale: Locale::Singapore }),
    {
        LanguageCode { locale: Locale::Singapore }
    }

    /// Thai (Thailand)
    pub fn THAILAND() -> (r: LanguageCode)
        ensures
            r == (LanguageCode { locale: Locale::Thailand }),
    {
        LanguageCode { locale: Locale::Thailand }
    }

    /// Vietnamese (Vietnam)
    pub fn VIETNAM() -> (r: LanguageCode)
        ensures
            r == (LanguageCode { locale: Locale::Vietnam }),
    {
        LanguageCode { locale: Locale::Vietnam }
    }

    /// Indonesian (Indonesia)
    pub fn INDONESIA() -> (r: LanguageCode)
        ensures
            r == (LanguageCode { locale: Locale::Indonesia }),
    {
        LanguageCode { locale: Locale::Indonesia }
    }

    /// Chinese (Malaysia)
    pub fn MALAYSIA_CHINESE() -> (r: LanguageCode)
        ensures
            r == (LanguageCode { locale: Locale::MalaysiaChinese }),
    {
        LanguageCode { locale: Locale::MalaysiaChinese }
    }

    /// Chinese (China)
    pub fn CHINA() -> (r: LanguageCode)
        ensures
            r == (LanguageCode { locale: Locale::China }),
    {
        LanguageCode { locale: Locale::China }
    }

    /// Chinese (Taiwan)
    pub fn TAIWAN() -> (r: LanguageCode)
        ensures
            r == (LanguageCode { locale: Locale::Taiwan }),
    {
        LanguageCode { locale: Locale::Taiwan }
    }

    /// The locale tag, as it stands in a request path.
    pub open spec fn name(self) -> Seq<char> {
        match self.locale {
            Locale::CzechRepublic => "cs_CZ"@,
            Locale::Greece => "el_GR"@,
            Locale::Poland => "pl_PL"@,
            Locale::Romania => "ro_RO"@,
            Locale::Hungary => "hu_HU"@,
            Locale::UnitedKingdom => "en_GB"@,
            Locale::Germany => "de_DE"@,
            Locale::Spain => "es_ES"@,
            Locale::Italy => "it_IT"@,
            Locale::France => "fr_FR"@,
            Locale::Japan => "ja_JP"@,
            Locale::Korea => "ko_KR"@,
            Locale::Mexico => "es_MX"@,
            Locale::Argentina => "es_AR"@,
            Locale::Brazil => "pt_BR"@,
            Locale::UnitedStates => "en_US"@,
            Locale::Australia => "en_AU"@,
            Locale::Russia => "ru_RU"@,
            Locale::Turkey => "tr_TR"@,
            Locale::Malaysia => "ms_MY"@,
            Locale::RepublicOfThePhilipinnes => "en_PH"@,
            Locale::Singapore => "en_SG"@,
            Locale::Thailand => "th_TH"@,
            Locale::Vietnam => "vn_VN"@,
            Locale::Indonesia => "id_ID"@,
            Locale::MalaysiaChinese => "zh_MY"@,
            Locale::China => "zh_CN"@,
            Locale::Taiwan => "zh_TW"@,
        }
    }

    /// The locale tag.
    #[inline]
    pub fn as_str(&self) -> (s: &'static str)
        ensures
            s@ == self.name(),
    {
        match self.locale {
            Locale::CzechRepublic => "cs_CZ",
            Locale::Greece => "el_GR",
            Locale::Poland => "pl_PL",
            Locale::Romania => "ro_RO",
            Locale::Hungary => "hu_HU",
            Locale::UnitedKingdom => "en_GB",
            Locale::Germany => "de_DE",
            Locale::Spain => "es_ES",
            Locale::Italy => "it_IT",
            Locale::France => "fr_FR",
            Locale::Japan => "ja_JP",
            Locale::Korea => "ko_KR",
            Locale::Mexico => "es_MX",
            Locale::Argentina => "es_AR",
            Locale::Brazil => "pt_BR",
            Locale::UnitedStates => "en_US",
            Locale::Australia => "en_AU",
            Locale::Russia => "ru_RU",
            Locale::Turkey => "tr_TR",
            Locale::Malaysia => "ms_MY",
            Locale::RepublicOfThePhilipinnes => "en_PH",
            Locale::Singapore => "en_SG",
            Locale::Thailand => "th_TH",
            Locale::Vietnam => "vn_VN",
            Locale::Indonesia => "id_ID",
            Locale::MalaysiaChinese => "zh_MY",
            Locale::China => "zh_CN",
            Locale::Taiwan => "zh_TW",
        }
    }
}

impl PartialEq<str> for LanguageCode {
    #[inline]
    fn eq(&self, other: &str) -> (r: bool) {
        same_text(self.as_str(), other)
    }
}

impl PartialEqSpecImpl<str> for LanguageCode {
    open spec fn obeys_eq_spec() -> bool {
        true
    }

    open spec fn eq_spec(&self, other: &str) -> bool {
        self.name() == other@
    }
}

impl<'a> PartialEq<&'a str> for LanguageCode {
    #[inline]
    fn eq(&self, other: &&'a str) -> (r: bool) {
        same_text(self.as_str(), *other)
    }
}

impl<'a> PartialEqSpecImpl<&'a str> for LanguageCode {
    open spec fn obeys_eq_spec() -> bool {
        true
    }

    open spec fn eq_spec(&self, other: &&'a str) -> bool {
        self.name() == other@
    }
}

impl PartialEq<LanguageCode> for str {
    #[inline]
    fn eq(&self, other: &LanguageCode) -> (r: bool) {
        same_text(self, other.as_str())
    }
}

impl PartialEqSpecImpl<LanguageCode> for str {
    open spec fn obeys_eq_spec() -> bool {
        true
    }

    open spec fn eq_spec(&self, other: &LanguageCode) -> bool {
        self@ == other.name()
    }
}

} // verus!
