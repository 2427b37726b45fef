//! Where the program keeps its files, and how it names itself to the remote
//! services.
use vstd::prelude::*;
use vstd::string::*;

verus! {

/// Paths and identity of one run of the program. Paths are texts with `/`
/// between their parts.
pub struct AppConfig {
    data_dir: String,
    album_art_dir: String,
    notes_dir: String,
    db_path: String,
    template_dir: String,
    template_path: String,
    user_agent: String,
    client_id: String,
}

/// What an [`AppConfig`] holds, as plain values.
pub struct AppConfigView {
    pub data_dir: Seq<char>,
    pub album_art_dir: Seq<char>,
    pub notes_dir: Seq<char>,
    pub db_path: Seq<char>,
    pub template_dir: Seq<char>,
    pub template_path: Seq<char>,
    pub user_agent: Seq<char>,
    pub client_id: Seq<char>,
}

impl View for AppConfig {
    type V = AppConfigView;

    closed spec fn view(&self) -> AppConfigView {
        AppConfigView {
            data_dir: self.data_dir@,
            album_art_dir: self.album_art_dir@,
            notes_dir: self.notes_dir@,
            db_path: self.db_path@,
            template_dir: self.template_dir@,
            template_path: self.template_path@,
            user_agent: self.user_agent@,
            client_id: self.client_id@,
        }
    }
}

/// The path of `name` inside the directory `base`.
pub open spec fn child_path_of(base: Seq<char>, name: Seq<char>) -> Seq<char> {
    base + "/"@ + name
}

/// The client identifier made from a token.
pub open spec fn client_id_of(token: Seq<char>) -> Seq<char> {
    "rust-mb-client-"@ + token
}

/// The user agent that carries a client identifier.
pub open spec fn user_agent_of(client_id: Seq<char>) -> Seq<char> {
    "rust-mb-library/0.1.0 ( https://musicbrainz.org ; unique-id="@ + client_id + " )"@
}

/// The configuration of a run whose client identifier is made from `token`.
pub open spec fn config_of(token: Seq<char>) -> AppConfigView {
    AppConfigView {
        data_dir: "data"@,
        album_art_dir: child_path_of("data"@, "album_art"@),
        notes_dir: child_path_of("data"@, "notes"@),
        db_path: child_path_of("data"@, "library.db"@),
        template_dir: "templates"@,
        template_path: child_path_of("templates"@, "note_template.md"@),
        user_agent: user_agent_of(client_id_of(token)),
        client_id: client_id_of(token),
    }
}

/// The path of `name` inside the directory `base`.
pub fn child_path(base: &str, name: &str) -> (r: String)
    ensures
        r@ == child_path_of(base@, name@),
{
    let mut out = String::from_str(base);
    out.append("/");
    out.append(name);
    out
}

/// The number of characters of a token: 32 hexadecimal digits in five groups,
/// with a hyphen between each two.
pub const TOKEN_LENGTH: usize = 36;

/// Draws a fresh token through the uuid crate: `Uuid::new_v4()`, written out
/// by `to_string()`. The token is random, so its characters have no name; the
/// uuid crate writes every identifier in its hyphenated form, which has 36
/// characters. The crate gives up where the system has no source of random
/// numbers, which no argument of this function can rule out.
#[verifier::external_body]
fn fresh_token() -> (r: String)
    ensures
        r@.len() == TOKEN_LENGTH,
{
    uuid::Uuid::new_v4().to_string()
}

impl Default for AppConfig {
    /// The configuration of a run with a fresh client identifier, made from
    /// a token of 36 characters.
    fn default() -> (r: Self)
        ensures
            exists|token: Seq<char>| token.len() == TOKEN_LENGTH && r@ == config_of(token),
    {
        let token = fresh_token();
        AppConfig::with_token(token.as_str())
    }
}

impl Clone for AppConfig {
    fn clone(&self) -> (r: Self)
        ensures
            r@ == self@,
    {
        AppConfig {
            data_dir: self.data_dir.clone(),
            album_art_dir: self.album_art_dir.clone(),
            notes_dir: self.notes_dir.clone(),
            db_path: self.db_path.clone(),
            template_dir: self.template_dir.clone(),
            template_path: self.template_path.clone(),
            user_agent: self.user_agent.clone(),
            client_id: self.client_id.clone(),
        }
    }
}

impl AppConfig {
    /// The configuration of a run whose client identifier is made from
    /// `token`.
    pub fn with_token(token: &str) -> (r: Self)
        ensures
            r@ == config_of(token@),
    {
        let mut client_id = String::from_str("rust-mb-client-");
        client_id.append(token);
        let mut user_agent = String::from_str(
            "rust-mb-library/0.1.0 ( https://musicbrainz.org ; unique-id=",
        );
        user_agent.append(client_id.as_str());
        user_agent.append(" )");
        AppConfig {
            data_dir: String::from_str("data"),
            album_art_dir: child_path("data", "album_art"),
            notes_dir: child_path("data", "notes"),
            db_path: child_path("data", "library.db"),
            template_dir: String::from_str("templates"),
            template_path: child_path("templates", "note_template.md"),
            user_agent,
            client_id,
        }
    }

    pub fn data_dir(&self) -> (r: &str)
        ensures
            r@ == self@.data_dir,
    {
        self.data_dir.as_str()
    }

    pub fn album_art_dir(&self) -> (r: &str)
        ensures
            r@ == self@.album_art_dir,
    {
        self.album_art_dir.as_str()
    }

    pub fn notes_dir(&self) -> (r: &str)
        ensures
            r@ == self@.notes_dir,
    {
        self.notes_dir.as_str()
    }

    pub fn db_path(&self) -> (r: &str)
        ensures
            r@ == self@.db_path,
    {
        self.db_path.as_str()
    }

    pub fn template_path(&self) -> (r: &str)
        ensures
            r@ == self@.template_path,
    {
        self.template_path.as_str()
    }

    pub fn user_agent(&self) -> (r: &str)
        ensures
            r@ == self@.user_agent,
    {
        self.user_agent.as_str()
    }

    pub fn client_id(&self) -> (r: &str)
        ensures
            r@ == self@.client_id,
    {
        self.client_id.as_str()
    }

    /// The directories that must exist before the program starts, in the
    /// order in which they are made: the data directory, the directories of
    /// cover art and of notes, and the directory of the note template.
    pub fn required_directories(&self) -> (r: Vec<String>)
        ensures
            crate::text::views(r@) == seq![
                self@.data_dir,
                self@.album_art_dir,
                self@.notes_dir,
                self@.template_dir,
            ],
    {
        let mut out: Vec<String> = Vec::new();
        out.push(self.data_dir.clone());
        out.push(self.album_art_dir.clone());
        out.push(self.notes_dir.clone());
        out.push(self.template_dir.clone());
        proof {
            assert(crate::text::views(out@) =~= seq![
                self@.data_dir,
                self@.album_art_dir,
                self@.notes_dir,
                self@.template_dir,
            ]);
        }
        out
    }
}

/// The text of the note template that is written where none exists yet.
pub fn default_note_template() -> (r: &'static str)
    ensures
        r@ == default_note_template_text(),
{
    "---\ntitle: {title}\nartist: {artist}\nrelease_date: {release_date}\nmusicbrainz_id: {musicbrainz_id}\nprimary_type: {primary_type}\n---\n\n# {title}\n\n**Artist:** {artist}\n\n**Release Date:** {release_date}\n\n**Primary Type:** {primary_type}\n\n**Secondary Types:** {secondary_types}\n\n**Cover Art:** ![]({cover_art_relative_path})\n\n## Tracklist\n\n{track_listing}\n\n## Notes\n\n- \n\n"
}

/// The note template as a text: a front matter, then headings for artist,
/// release date, types, cover art, track list and notes, with a placeholder
/// in curly brackets for each value.
pub open spec fn default_note_template_text() -> Seq<char> {
    "---\ntitle: {title}\nartist: {artist}\nrelease_date: {release_date}\nmusicbrainz_id: {musicbrainz_id}\nprimary_type: {primary_type}\n---\n\n# {title}\n\n**Artist:** {artist}\n\n**Release Date:** {release_date}\n\n**Primary Type:** {primary_type}\n\n**Secondary Types:** {secondary_types}\n\n**Cover Art:** ![]({cover_art_relative_path})\n\n## Tracklist\n\n{track_listing}\n\n## Notes\n\n- \n\n"@
}

} // verus!
