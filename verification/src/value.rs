//! The abstract runtime value the formatter consumes: a category, and the
//! two string views the host could take of the value. A failed conversion is
//! recorded as `None` and degrades to the empty string wherever it is read.

use vstd::prelude::*;

verus! {

/// The category a runtime value reports of itself.
#[derive(Clone, Copy, PartialEq, Eq, Structural, Debug)]
pub enum Category {
    Str,
    Number,
    Boolean,
    Object,
    Array,
    Function,
    Other,
}

/// A snapshot of one argument of a logging call: its category, its plain
/// text coercion and its structured (serialized) representation. Either
/// conversion may have failed on the host side, recorded as `None`.
pub struct Value {
    pub category: Category,
    pub display: Option<String>,
    pub structured: Option<String>,
}

impl Value {
    /// The plain text coercion, with a failed conversion degraded to empty.
    pub open spec fn display_seq(self) -> Seq<char> {
        match self.display {
            Option::Some(s) => s@,
            Option::None => Seq::empty(),
        }
    }

    /// The structured representation, with a failed conversion degraded to
    /// empty.
    pub open spec fn structured_seq(self) -> Seq<char> {
        match self.structured {
            Option::Some(s) => s@,
            Option::None => Seq::empty(),
        }
    }

    /// The categories rendered through structured serialization by default.
    pub open spec fn is_aggregate(self) -> bool {
        self.category is Object || self.category is Array || self.category is Function
    }

    /// The default rendering: structured for aggregates, plain otherwise.
    pub open spec fn default_seq(self) -> Seq<char> {
        if self.is_aggregate() {
            self.structured_seq()
        } else {
            self.display_seq()
        }
    }

    pub fn new(category: Category, display: Option<String>, structured: Option<String>) -> (r:
        Value)
        ensures
            r.category == category,
            r.display == display,
            r.structured == structured,
    {
        Value { category, display, structured }
    }

    /// The plain text coercion; a failed conversion yields the empty string.
    pub fn to_display_string(&self) -> (r: String)
        ensures
            r@ == self.display_seq(),
    {
        match &self.display {
            Option::Some(s) => s.clone(),
            Option::None => String::new(),
        }
    }

    /// The structured representation; a failed conversion yields the empty
    /// string.
    pub fn to_structured_string(&self) -> (r: String)
        ensures
            r@ == self.structured_seq(),
    {
        match &self.structured {
            Option::Some(s) => s.clone(),
            Option::None => String::new(),
        }
    }

    /// The default rendering used for arguments that no directive consumed:
    /// aggregates are serialized, everything else is coerced to plain text.
    pub fn default_render(&self) -> (r: String)
        ensures
            r@ == self.default_seq(),
    {
        match self.category {
            Category::Object | Category::Array | Category::Function => self.to_structured_string(),
            _ => self.to_display_string(),
        }
    }
}

} // verus!
