//! The fixed vocabularies of the API: regions, languages, queues, tiers, divisions.
pub mod division;
pub mod lang_code;
pub mod ranked_queue;
pub mod ranked_tier;
pub mod region;

pub use division::Division;
pub use lang_code::LanguageCode;
pub use ranked_queue::RankedQueue;
pub use ranked_tier::RankedTier;
pub use region::Region;
