//! Clock, identity and text helpers.

pub mod id_util;
pub mod text_util;
pub mod time_util;
