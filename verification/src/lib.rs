//! Section-ID calculator: maps a short character name (and, under the
//! modern dialect, an optional character class) to one of ten fixed guild
//! records, each carrying static metadata and a twelve-entry drop-rate
//! table. The whole library is a pure function over its inputs: validate
//! the name, hash it to a digit 0-9, and look the digit up in the table.

pub mod calc;
pub mod dialect;
pub mod drops;
pub mod error;
pub mod guild;
pub mod text;

pub use calc::calculate;
pub use calc::calculate_with;
pub use calc::get_guild_for_name;
pub use dialect::CharacterClass;
pub use dialect::Dialect;
pub use dialect::calculate_section_id;
pub use dialect::char_value;
pub use dialect::modern_section_id;
pub use dialect::validate_name;
pub use drops::DropRates;
pub use error::SectionIdError;
pub use guild::Guild;
pub use guild::SectionID;
pub use guild::get_guild;
pub use guild::get_section_id;
