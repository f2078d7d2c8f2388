//! Loading assets by path.
use vstd::prelude::*;

verus! {

/// Loads assets of type `T` by their path.
pub trait AssetLoader<T> {
    fn load(&self, path: &str) -> T;
}

/// Loads the raw bytes of files by their path.
pub trait RawAssetLoader {
    fn load_raw(&self, path: &str) -> &[u8];

    /// In case of a caching implementation, this may need to clone the whole buffer.
    fn load_raw_owned(&self, path: &str) -> Option<Vec<u8>>;
}

} // verus!
