//! Civil-time queries: parsing date-time text into absolute instants,
//! resolving IANA zone identifiers, hour arithmetic on instants, and the
//! canonical renderings of an instant seen through a zone.

pub mod instant;
pub mod text;
pub mod zone;
pub mod render;
pub mod parse;
pub mod catalog;
pub mod server;
pub mod laws;

pub use instant::{Instant, TimeError, add_hours};
pub use zone::{ZoneId, resolve};
pub use render::{TimeFormatInfo, TimeInfo, TimezoneInfo, format_time_info};
pub use parse::parse_instant;
pub use catalog::select_zones;
pub use server::TimeDateServer;
