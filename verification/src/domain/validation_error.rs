use vstd::prelude::*;
use vstd::string::StringExecFns;

verus! {

/// Why a submitted value was turned down: the value as it came in, and the
/// reason in words.
#[derive(Debug)]
pub struct ValidationError {
    pub value: String,
    pub reason: String,
}

impl ValidationError {
    /// The text of the whole complaint: the value, a space, the reason.
    pub open spec fn spec_message(self) -> Seq<char> {
        self.value@ + seq![' '] + self.reason@
    }

    /// Builds the error for `value`, turned down for `reason`.
    pub fn new(value: String, reason: &str) -> (e: ValidationError)
        ensures
            e.value@ == value@,
            e.reason@ == reason@,
    {
        ValidationError { value, reason: String::from_str(reason) }
    }

    /// The complaint as one line of text.
    pub fn message(&self) -> (m: String)
        ensures
            m@ == self.spec_message(),
    {
        let mut m = self.value.clone();
        proof {
            reveal_strlit(" ");
        }
        m.append(" ");
        assert(" "@ =~= seq![' ']);
        m.append(self.reason.as_str());
        assert(m@ =~= self.spec_message());
        m
    }
}

} // verus!
