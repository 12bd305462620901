//! Paths inside the local build cache, as plain strings. Checking and
//! cleaning the file system belongs to callers.

use vstd::prelude::*;

use crate::numfmt::{spec_dec_nat, u64_to_dec};
use crate::strutil::push_char;

verus! {

/// The local cache of downloaded builds, identified by its directory.
#[derive(Debug)]
pub struct CacheManager {
    pub cache_dir: String,
}

impl CacheManager {
    /// A cache rooted at the given directory.
    pub fn from_dir(dir: &str) -> (c: CacheManager)
        ensures
            c.cache_dir@ == dir@,
    {
        CacheManager { cache_dir: dir.to_owned() }
    }

    /// The cache directory path.
    pub fn cache_dir(&self) -> (r: &String)
        ensures
            r@ == self.cache_dir@,
    {
        &self.cache_dir
    }

    /// The directory holding one build's extracted files.
    pub fn build_dir(&self, build_number: u64) -> (r: String)
        ensures
            r@ == self.cache_dir@ + seq!['/'] + spec_dec_nat(build_number as int),
    {
        let mut r = self.cache_dir.clone();
        push_char(&mut r, '/');
        r.append(u64_to_dec(build_number).as_str());
        proof {
            assert(r@ =~= self.cache_dir@ + seq!['/'] + spec_dec_nat(build_number as int));
        }
        r
    }

    /// The path of one build's downloaded archive.
    pub fn zip_path(&self, build_number: u64) -> (r: String)
        ensures
            r@ == self.cache_dir@ + seq!['/'] + spec_dec_nat(build_number as int) + ".zip"@,
    {
        let mut r = self.cache_dir.clone();
        push_char(&mut r, '/');
        r.append(u64_to_dec(build_number).as_str());
        r.append(".zip");
        proof {
            assert(r@ =~= self.cache_dir@ + seq!['/'] + spec_dec_nat(build_number as int)
                + ".zip"@);
        }
        r
    }
}

} // verus!
