pub mod announce;
pub mod london;
