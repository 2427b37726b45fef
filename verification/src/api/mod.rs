pub mod assemble;
pub mod listing;
pub mod musicbrainz;
pub mod request;
pub mod select;
pub mod wire;
