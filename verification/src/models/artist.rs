//! An artist as the catalog's search reports it.
use vstd::prelude::*;
use vstd::string::*;

verus! {

#[derive(Debug, PartialEq)]
pub struct Artist {
    pub id: String,
    pub name: String,
    pub disambiguation: String,
    pub score: i32,
}

/// What an [`Artist`] holds, as plain values.
pub struct ArtistView {
    pub id: Seq<char>,
    pub name: Seq<char>,
    pub disambiguation: Seq<char>,
    pub score: int,
}

impl View for Artist {
    type V = ArtistView;

    open spec fn view(&self) -> ArtistView {
        ArtistView {
            id: self.id@,
            name: self.name@,
            disambiguation: self.disambiguation@,
            score: self.score as int,
        }
    }
}

/// The name shown for an artist: the bare name, or the name followed by the
/// disambiguation in round brackets where there is one.
pub open spec fn display_name_of(name: Seq<char>, disambiguation: Seq<char>) -> Seq<char> {
    if disambiguation.len() == 0 {
        name
    } else {
        name + " ("@ + disambiguation + ")"@
    }
}

impl Default for Artist {
    fn default() -> (r: Self)
        ensures
            r@ == (ArtistView {
                id: Seq::empty(),
                name: Seq::empty(),
                disambiguation: Seq::empty(),
                score: 0,
            }),
    {
        Artist { id: String::new(), name: String::new(), disambiguation: String::new(), score: 0 }
    }
}

impl Clone for Artist {
    fn clone(&self) -> (r: Self)
        ensures
            r@ == self@,
    {
        Artist {
            id: self.id.clone(),
            name: self.name.clone(),
            disambiguation: self.disambiguation.clone(),
            score: self.score,
        }
    }
}

impl Artist {
    pub fn display_name(&self) -> (r: String)
        ensures
            r@ == display_name_of(self.name@, self.disambiguation@),
    {
        if self.disambiguation.as_str().is_empty() {
            self.name.clone()
        } else {
            let mut out = self.name.clone();
            out.append(" (");
            out.append(self.disambiguation.as_str());
            out.append(")");
            out
        }
    }
}

/// Copies a list of artists.
pub fn copy_artists(list: &Vec<Artist>) -> (r: Vec<Artist>)
    ensures
        artist_views(r@) == artist_views(list@),
{
    let mut out: Vec<Artist> = Vec::new();
    let n: usize = list.len();
    let mut i: usize = 0;
    while i < n
        invariant
            n == list@.len(),
            i <= n,
            out@.len() == i,
            forall|k: int| 0 <= k < i ==> out@[k]@ == list@[k]@,
        decreases n - i,
    {
        out.push(list[i].clone());
        i = i + 1;
    }
    proof {
        assert(artist_views(out@) =~= artist_views(list@));
    }
    out
}

/// The views of a list of artists.
pub open spec fn artist_views(list: Seq<Artist>) -> Seq<ArtistView> {
    list.map_values(|a: Artist| a@)
}

} // verus!
