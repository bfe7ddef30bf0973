use vstd::prelude::*;

use crate::quality::Quality;

verus! {

/// A site the pipeline can pull from: its identity, base URL, and the
/// quality tiers it advertises.  The network-facing half of a site
/// (searching, fetching) lives with the driver that owns the HTTP
/// session; this capability interface covers what the verified pipeline
/// itself consumes.
pub trait AnimeSite: Sized {
    /// The site's display name.
    spec fn name_spec(&self) -> Seq<char>;

    /// The site's base URL.
    spec fn base_url_spec(&self) -> Seq<char>;

    /// The quality tiers the site serves.
    spec fn qualities_spec(&self) -> Seq<Quality>;

    fn name(&self) -> (r: String)
        ensures
            r@ == self.name_spec(),
    ;

    fn base_url(&self) -> (r: String)
        ensures
            r@ == self.base_url_spec(),
    ;

    fn available_qualities(&self) -> (r: Vec<Quality>)
        ensures
            r@ == self.qualities_spec(),
    ;
}

/// One series of a site: its identity and its fetched episode list.
pub trait AnimeSeries: Sized {
    /// The owning site's name.
    spec fn site_name_spec(&self) -> Seq<char>;

    /// The series title.
    spec fn title_spec(&self) -> Seq<char>;

    /// How many episodes have been fetched so far.
    spec fn episode_count_spec(&self) -> nat;

    fn site_name(&self) -> (r: String)
        ensures
            r@ == self.site_name_spec(),
    ;

    fn title(&self) -> (r: String)
        ensures
            r@ == self.title_spec(),
    ;

    fn episode_count(&self) -> (r: usize)
        ensures
            r as nat == self.episode_count_spec(),
    ;
}

/// One episode of a series, ready to be resolved and downloaded.
pub trait AnimeEpisode: Sized {
    /// The title the episode presents.
    spec fn series_title_spec(&self) -> Seq<char>;

    /// The episode number, already rendered.
    spec fn episode_number_spec(&self) -> Seq<char>;

    fn series_title(&self) -> (r: String)
        ensures
            r@ == self.series_title_spec(),
    ;

    fn episode_number_str(&self) -> (r: String)
        ensures
            r@ == self.episode_number_spec(),
    ;

    /// The human-readable heading for this episode.
    fn pretty_title(&self) -> (r: String)
        ensures
            r@ == self.series_title_spec() + " - Episode "@ + self.episode_number_spec(),
    ;
}

} // verus!
