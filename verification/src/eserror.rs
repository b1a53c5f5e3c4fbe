//! The error report carried through this crate: a name, a message and a
//! stack trace, each a plain string.

use vstd::prelude::*;
use vstd::string::StringExecFns;

verus! {

/// An error as the scripting host reports it: an error name (such as
/// `TypeError`), a human-readable message, and a stack trace.
pub struct EsError {
    pub name: String,
    pub message: String,
    pub stack: String,
}

impl EsError {
    /// Builds an error from its three parts, kept verbatim.
    pub fn new(name: String, message: String, stack: String) -> (r: Self)
        ensures
            r.name@ == name@,
            r.message@ == message@,
            r.stack@ == stack@,
    {
        Self { name, message, stack }
    }

    /// Builds an error that carries only a message; name and stack are empty.
    pub fn new_str(err: &str) -> (r: Self)
        ensures
            r.name@ == Seq::<char>::empty(),
            r.message@ == err@,
            r.stack@ == Seq::<char>::empty(),
    {
        Self::new_string(err.to_owned())
    }

    /// Builds an error that carries only a message; name and stack are empty.
    pub fn new_string(err: String) -> (r: Self)
        ensures
            r.name@ == Seq::<char>::empty(),
            r.message@ == err@,
            r.stack@ == Seq::<char>::empty(),
    {
        EsError { name: String::new(), message: err, stack: String::new() }
    }

    pub fn get_message(&self) -> (r: &str)
        ensures
            r@ == self.message@,
    {
        self.message.as_str()
    }

    pub fn get_stack(&self) -> (r: &str)
        ensures
            r@ == self.stack@,
    {
        self.stack.as_str()
    }

    pub fn get_name(&self) -> (r: &str)
        ensures
            r@ == self.name@,
    {
        self.name.as_str()
    }

    /// The one-line rendering of the error: `name: message atstack`.
    pub fn display_string(&self) -> (r: String)
        ensures
            r@ == self.name@ + ": "@ + self.message@ + " at"@ + self.stack@,
    {
        let mut e = self.name.clone();
        e.append(": ");
        e.append(self.message.as_str());
        e.append(" at");
        e.append(self.stack.as_str());
        assert(e@ =~= self.name@ + ": "@ + self.message@ + " at"@ + self.stack@);
        e
    }
}

} // verus!
