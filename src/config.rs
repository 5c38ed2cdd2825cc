//! The general settings of a backup run.
use vstd::prelude::*;

verus! {

/// Settings that hold for the whole run.
#[derive(Debug, Clone, PartialEq)]
pub struct General {
    /// The top-level directory all backups are placed in.
    pub root: String,
    /// How many repositories may be synchronised at once.
    pub threads: usize,
    /// The number of failed synchronisations after which the run is
    /// abandoned. `0` means there is no limit.
    pub error_threshold: usize,
    /// Destinations, relative to `root`, that are never synchronised.
    pub blacklist: Vec<String>,
}

/// The part of [`General`] that decisions depend on.
pub struct GeneralView {
    pub threads: nat,
    pub error_threshold: nat,
    pub blacklist: Seq<Seq<char>>,
}

impl View for General {
    type V = GeneralView;

    open spec fn view(&self) -> GeneralView {
        GeneralView {
            threads: self.threads as nat,
            error_threshold: self.error_threshold as nat,
            blacklist: self.blacklist@.map_values(|s: String| s@),
        }
    }
}

/// Whether two texts name the same path, component by component (so that
/// `a//b/` and `a/b` are the same).
pub uninterp spec fn same_path(a: Seq<char>, b: Seq<char>) -> bool;

/// Relies on `PartialEq for std::path::Path`: paths are compared by their
/// components, and equal texts are equal paths.
#[verifier::external_body]
fn paths_equal(a: &str, b: &str) -> (r: bool)
    ensures
        r == same_path(a@, b@),
        a@ == b@ ==> r,
{
    std::path::Path::new(a) == std::path::Path::new(b)
}

/// Whether `dest` is the same path as one of the entries of `blacklist`.
pub open spec fn is_blacklisted(blacklist: Seq<Seq<char>>, dest: Seq<char>) -> bool {
    exists|i: int| 0 <= i < blacklist.len() && same_path(#[trigger] blacklist[i], dest)
}

/// Relies on num_cpus::get: the number of CPUs this process may use, which
/// is never below one.
#[verifier::external_body]
fn available_cpus() -> (r: usize)
    ensures
        r >= 1,
{
    num_cpus::get()
}

impl Default for General {
    /// The root is the current directory, one worker runs per available CPU,
    /// failures are not limited and nothing is blacklisted.
    fn default() -> (r: General)
        ensures
            r.root@ == seq!['.'],
            r.threads >= 1,
            r.error_threshold == 0,
            r.blacklist@.len() == 0,
    {
        let root = String::from_str(".");
        proof {
            reveal_strlit(".");
        }
        General { root, threads: available_cpus(), error_threshold: 0, blacklist: Vec::new() }
    }
}

impl General {
    /// Whether a destination is excluded from synchronisation.
    pub fn is_blacklisted(&self, dest: &str) -> (r: bool)
        ensures
            r == is_blacklisted(self@.blacklist, dest@),
    {
        let mut i: usize = 0;
        while i < self.blacklist.len()
            invariant
                i <= self.blacklist@.len(),
                forall|j: int| 0 <= j < i ==> !same_path(#[trigger] self.blacklist@[j]@, dest@),
            decreases self.blacklist@.len() - i,
        {
            let found = paths_equal(self.blacklist[i].as_str(), dest);
            assert(self@.blacklist[i as int] == self.blacklist@[i as int]@);
            if found {
                return true;
            }
            i = i + 1;
        }
        assert forall|j: int| 0 <= j < self@.blacklist.len() implies !same_path(
            #[trigger] self@.blacklist[j],
            dest@,
        ) by {
            assert(self@.blacklist[j] == self.blacklist@[j]@);
        }
        false
    }
}

} // verus!
