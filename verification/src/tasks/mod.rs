pub mod cover_art;
