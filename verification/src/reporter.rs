//! Where epoch reports are written.

use vstd::prelude::*;
use vstd::string::*;
use crate::text::{path_join, decimal, join_path, decimal_string};

verus! {

/// Writes one JSON report per epoch under `<base_dir>/<run_id>/`.
pub struct Reporter {
    base_dir: String,
}

impl Reporter {
    /// The directory the reports go under.
    pub closed spec fn base_dir_view(&self) -> Seq<char> {
        self.base_dir@
    }

    /// Reports under `.neuroplasticity/runs`.
    pub fn new() -> (r: Self)
        ensures
            r.base_dir_view() == ".neuroplasticity/runs"@,
    {
        Reporter { base_dir: String::from_str(".neuroplasticity/runs") }
    }

    /// Reports under `base_dir`.
    pub fn new_with_base_dir(base_dir: &str) -> (r: Self)
        ensures
            r.base_dir_view() == base_dir@,
    {
        Reporter { base_dir: String::from_str(base_dir) }
    }

    /// The directory the reports go under.
    pub fn base_dir(&self) -> (r: String)
        ensures
            r@ == self.base_dir_view(),
    {
        self.base_dir.clone()
    }

    /// The directory of one run: `<base_dir>/<run_id>`.
    pub fn run_dir(&self, run_id: &str) -> (r: String)
        ensures
            r@ == path_join(self.base_dir_view(), run_id@),
    {
        join_path(self.base_dir.as_str(), run_id)
    }

    /// The report file of one epoch: `<base_dir>/<run_id>/epoch-<n>.json`.
    pub fn epoch_file_path(&self, run_id: &str, epoch_number: u32) -> (r: String)
        ensures
            r@ == path_join(
                path_join(self.base_dir_view(), run_id@),
                "epoch-"@ + decimal(epoch_number as nat) + ".json"@,
            ),
    {
        let dir = self.run_dir(run_id);
        let mut name = String::from_str("epoch-");
        let d = decimal_string(epoch_number as u64);
        name.append(d.as_str());
        name.append(".json");
        join_path(dir.as_str(), name.as_str())
    }
}

impl Default for Reporter {
    fn default() -> (r: Self)
        ensures
            r.base_dir_view() == ".neuroplasticity/runs"@,
    {
        Self::new()
    }
}

} // verus!
