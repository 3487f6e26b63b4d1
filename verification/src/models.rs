//! The shared data model: listings, their numbers and their enrichments.

pub mod decimal;
pub mod encodings;
pub mod enrichments;
pub mod flat;

pub use self::decimal::Decimal;
pub use self::encodings::Encoding;
pub use self::enrichments::Enrichments;
pub use self::flat::ContractType;
pub use self::flat::Location;
pub use self::flat::Property;
pub use self::flat::PropertyData;
pub use self::flat::PropertyType;
