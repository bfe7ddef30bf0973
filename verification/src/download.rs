use vstd::prelude::*;

use crate::errors::AnimeDownloaderError;

verus! {

/// A download backend: URLs queue up through `add_url_link`; the run
/// itself is driven by whoever owns the engine process and its RPC
/// channel.
pub trait Downloader: Sized {
    /// The URLs queued so far, in order.
    spec fn queued(&self) -> Seq<Seq<char>>;

    /// The backend's name.
    fn name(&self) -> (r: &'static str);

    /// Queues one URL for the next run.
    fn add_url_link(&mut self, url: String) -> (r: Result<(), AnimeDownloaderError>)
        ensures
            r is Ok ==> final(self).queued() == old(self).queued().push(url@),
            r is Err ==> final(self).queued() == old(self).queued(),
    ;
}

} // verus!
