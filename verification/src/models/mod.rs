pub mod album;
pub mod artist;
pub mod library;


pub use album::Album;
pub use artist::Artist;
pub use library::{AlbumRecord, CoverArtStatus};
