//! The directory that holds downloaded models.

use crate::models::registry::{catalogue, find_model, ModelInfo, ModelRegistry};
use crate::text::{concat, join_path, joined_path, path_exists, path_with_extension, with_extension};
use vstd::prelude::*;

verus! {

/// The model store: a cache directory and the address models are downloaded from.
pub struct ModelManager {
    cache_dir: String,
    download_url: String,
}

impl ModelManager {
    pub closed spec fn spec_cache_dir(&self) -> Seq<char> {
        self.cache_dir@
    }

    pub closed spec fn spec_download_url(&self) -> Seq<char> {
        self.download_url@
    }

    pub fn new(cache_dir: String, download_url: String) -> (r: Self)
        ensures
            r.spec_cache_dir() == cache_dir@,
            r.spec_download_url() == download_url@,
    {
        ModelManager { cache_dir, download_url }
    }

    pub fn cache_dir(&self) -> (r: &str)
        ensures
            r@ == self.spec_cache_dir(),
    {
        self.cache_dir.as_str()
    }

    pub fn download_url(&self) -> (r: &str)
        ensures
            r@ == self.spec_download_url(),
    {
        self.download_url.as_str()
    }

    /// The path a model has in the cache directory, whether or not it is there.
    pub fn model_dir(&self, model_id: &str) -> (r: String)
        ensures
            r@ == joined_path(self.spec_cache_dir(), model_id@),
    {
        join_path(self.cache_dir.as_str(), model_id)
    }

    /// The answer of `model_path` once the file system has said whether the model's path
    /// exists (`present`): the path in the cache directory if it does, `None` if not.
    pub fn path_if_present(&self, model_id: &str, present: bool) -> (r: Option<String>)
        ensures
            present ==> (r matches Some(p) && p@ == joined_path(self.spec_cache_dir(), model_id@)),
            !present ==> r is None,
    {
        if present {
            Some(self.model_dir(model_id))
        } else {
            None
        }
    }

    /// The path of a model if it has been downloaded. The file system decides which of the two
    /// answers comes back (see `path_if_present` for each); a path given back is the model's
    /// path in the cache directory.
    pub fn model_path(&self, model_id: &str) -> (r: Option<String>)
        ensures
            r matches Some(p) ==> p@ == joined_path(self.spec_cache_dir(), model_id@),
    {
        let path = self.model_dir(model_id);
        let present = path_exists(path.as_str());
        self.path_if_present(model_id, present)
    }

    /// Whether a model has been downloaded (the file system decides).
    pub fn is_downloaded(&self, model_id: &str) -> (r: bool) {
        self.model_path(model_id).is_some()
    }

    /// Where a download of a model goes: the model's directory, and the archive fetched next to
    /// it (the directory path with the extension "tar.gz").
    pub fn download_paths(&self, model_id: &str) -> (r: (String, String))
        ensures
            r.0@ == joined_path(self.spec_cache_dir(), model_id@),
            r.1@ == path_with_extension(joined_path(self.spec_cache_dir(), model_id@), "tar.gz"@),
    {
        let dir = self.model_dir(model_id);
        proof {
            reveal_strlit("tar.gz");
        }
        let archive = with_extension(dir.as_str(), "tar.gz");
        (dir, archive)
    }
}


/// The message for an id that is not in the catalogue, when downloading.
pub open spec fn unknown_download_message(id: Seq<char>) -> Seq<char> {
    "Model '"@ + id + "' not found. Run `handy-cli list-models` to see available models."@
}

/// The message for an id that is not in the catalogue, when deleting.
pub open spec fn unknown_delete_message(id: Seq<char>) -> Seq<char> {
    "Model '"@ + id + "' not found."@
}

/// The message for a catalogue model that has no download URL.
pub open spec fn no_url_message(id: Seq<char>) -> Seq<char> {
    "Model '"@ + id + "' has no download URL"@
}

/// The message for deleting a catalogue model that is not on disk.
pub open spec fn not_downloaded_message(id: Seq<char>) -> Seq<char> {
    "Model '"@ + id + "' is not downloaded. Custom models cannot be re-downloaded."@
}

/// "Model '<id>" followed by `tail`.
fn model_message(id: &str, tail: &str) -> (r: String)
    ensures
        r@ == "Model '"@ + id@ + tail@,
{
    let a = concat("Model '", id);
    concat(a.as_str(), tail)
}

impl ModelManager {
    /// The catalogue model to download for an id: an unknown id and a model without URL are
    /// refused.
    pub fn model_for_download(model_id: &str) -> (r: Result<ModelInfo, String>)
        ensures
            match find_model(catalogue(), model_id@) {
                None => r matches Err(e) && e@ == unknown_download_message(model_id@),
                Some(m) => if m.url is None {
                    r matches Err(e) && e@ == no_url_message(model_id@)
                } else {
                    r matches Ok(info) && info@ == m
                },
            },
    {
        match ModelRegistry::get(model_id) {
            None => Err(
                model_message(
                    model_id,
                    "' not found. Run `handy-cli list-models` to see available models.",
                ),
            ),
            Some(m) => {
                if m.url.is_none() {
                    Err(model_message(model_id, "' has no download URL"))
                } else {
                    Ok(m)
                }
            },
        }
    }

    /// The catalogue model to delete for an id, given whether it is on disk: an unknown id and
    /// a model that is not downloaded are refused.
    pub fn model_for_deletion(model_id: &str, downloaded: bool) -> (r: Result<ModelInfo, String>)
        ensures
            match find_model(catalogue(), model_id@) {
                None => r matches Err(e) && e@ == unknown_delete_message(model_id@),
                Some(m) => if !downloaded {
                    r matches Err(e) && e@ == not_downloaded_message(model_id@)
                } else {
                    r matches Ok(info) && info@ == m
                },
            },
    {
        match ModelRegistry::get(model_id) {
            None => Err(model_message(model_id, "' not found.")),
            Some(m) => {
                if !downloaded {
                    Err(
                        model_message(
                            model_id,
                            "' is not downloaded. Custom models cannot be re-downloaded.",
                        ),
                    )
                } else {
                    Ok(m)
                }
            },
        }
    }
}

} // verus!
