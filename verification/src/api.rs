pub mod response;
pub mod responses;
pub mod enums;
pub mod params;
pub mod types;
pub mod requests;
