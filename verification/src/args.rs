//! The settings of a run.

use vstd::prelude::*;
use vstd::string::*;

verus! {

/// The settings of a run of the indexer.
#[derive(Debug, Clone, PartialEq, Eq)]
pub struct IndexerArgs {
    /// Path of the persistent store.
    pub database: String,
    /// How many metadata requests may be under way at once.
    pub max_parallel_small_requests: usize,
    /// How many artifact downloads may be under way at once.
    pub max_parallel_large_requests: usize,
    /// Directory that the catalogue is written to.
    pub output_directory: String,
    /// Leave the reconciliation out.
    pub no_sync: bool,
    /// Leave the emission of the catalogue out.
    pub no_generate: bool,
}

impl IndexerArgs {
    /// Each budget admits at least one request.
    pub open spec fn well_formed(&self) -> bool {
        self.max_parallel_small_requests >= 1 && self.max_parallel_large_requests >= 1
    }

    /// The settings of a run that was given none: the store in
    /// `indexer.db`, thirty-two small and four large requests at once, the
    /// catalogue in `meta`, and nothing left out.
    pub fn defaults() -> (args: IndexerArgs)
        ensures
            args.database@ == "indexer.db"@,
            args.max_parallel_small_requests == 32,
            args.max_parallel_large_requests == 4,
            args.output_directory@ == "meta"@,
            !args.no_sync,
            !args.no_generate,
            args.well_formed(),
    {
        IndexerArgs {
            database: String::from_str("indexer.db"),
            max_parallel_small_requests: 32,
            max_parallel_large_requests: 4,
            output_directory: String::from_str("meta"),
            no_sync: false,
            no_generate: false,
        }
    }

    /// Tells whether each budget admits at least one request.
    pub fn is_well_formed(&self) -> (ok: bool)
        ensures
            ok == self.well_formed(),
    {
        self.max_parallel_small_requests >= 1 && self.max_parallel_large_requests >= 1
    }
}

} // verus!
