//! State carried while parsing XML schemas.
use vstd::prelude::*;

verus! {

/// The schemas met so far while parsing.
pub struct XmlParserContext<T> {
    pub schemas: Vec<T>,
}

impl<T> XmlParserContext<T> {
    /// A context that has met no schema yet.
    pub fn new() -> (r: Self)
        ensures
            r.schemas@.len() == 0,
    {
        XmlParserContext { schemas: Vec::new() }
    }
}

} // verus!
