use vstd::prelude::*;
use vstd::string::StringExecFns;

verus! {

/// What a detail query can fail with: the selected disk is gone, or the
/// filesystem could not be read.
#[derive(Debug)]
pub enum QueryError {
    /// No mounted disk carries the queried name; holds that name.
    NotFound(String),
    /// The filesystem query failed; holds the reported reason.
    Io(String),
}

/// The message shown for a missing disk.
pub open spec fn not_found_chars(name: Seq<char>) -> Seq<char> {
    "disk '"@ + name + "' was not found"@
}

impl QueryError {
    /// A human-readable description of the failure.
    pub fn message(&self) -> (r: String)
        ensures
            self matches QueryError::NotFound(n) ==> r@ == not_found_chars(n@),
            self matches QueryError::Io(e) ==> r@ == e@,
    {
        match self {
            QueryError::NotFound(n) => {
                let mut s = String::from_str("disk '");
                s.append(n.as_str());
                s.append("' was not found");
                proof {
                    assert(s@ =~= not_found_chars(n@));
                }
                s
            },
            QueryError::Io(e) => e.clone(),
        }
    }
}

} // verus!
