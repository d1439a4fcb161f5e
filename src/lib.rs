//! Device resolution, command routing and smart-home projection for a small
//! home-automation gateway.
//!
//! The library holds the decisions; the surrounding program performs the
//! network and storage calls and hands their results back as plain values.

pub mod device_type;
pub mod hardware_type;
pub mod text;
pub mod zone_id;
pub mod traits;
pub mod attributes;
pub mod http;
pub mod tv;
pub mod google;
pub mod device;
pub mod sqlsprinkler;
pub mod resolver;
pub mod router;
pub mod listing;
pub mod auth;
