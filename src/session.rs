//! Parameters that a connection negotiated, as conversions see them.

use vstd::prelude::*;

use crate::text::str_eq;

verus! {

/// A read-only view of the parameters that the server reported for a
/// connection, lent to one conversion.
#[derive(Debug)]
pub struct SessionInfo<'a> {
    parameters: &'a [(String, String)],
}

impl<'a> SessionInfo<'a> {
    /// The parameters, as name and value pairs.
    pub closed spec fn params(&self) -> Seq<(String, String)> {
        self.parameters@
    }

    pub fn new(parameters: &'a [(String, String)]) -> (r: SessionInfo<'a>)
        ensures
            r.params() == parameters@,
    {
        SessionInfo { parameters }
    }

    /// Returns the value of the named backend parameter, such as `timezone`
    /// or `server_version`: the first one of that name.
    pub fn parameter(&self, param: &str) -> (r: Option<&'a str>)
        ensures
            r is None <==> forall|i: int|
                0 <= i < self.params().len() ==> #[trigger] self.params()[i].0@ != param@,
            r matches Some(v) ==> exists|i: int|
                0 <= i < self.params().len() && #[trigger] self.params()[i].0@ == param@
                    && v@ == self.params()[i].1@ && forall|j: int|
                    0 <= j < i ==> self.params()[j].0@ != param@,
    {
        let mut i: usize = 0;
        while i < self.parameters.len()
            invariant
                i <= self.params().len(),
                self.params() == self.parameters@,
                forall|j: int| 0 <= j < i ==> self.params()[j].0@ != param@,
            decreases self.params().len() - i,
        {
            let entry = &self.parameters[i];
            if str_eq(entry.0.as_str(), param) {
                return Some(entry.1.as_str());
            }
            i += 1;
        }
        None
    }
}

} // verus!
