//! Client settings.
use vstd::prelude::*;

verus! {

/// Switches that govern how the client parses and transports documents.
pub struct Settings {
    pub strict: bool,
    pub raw_response: bool,
    pub force_https: bool,
    pub extra_https_headers: bool,
    pub xml_huge_tree: bool,
    pub forbid_dtd: bool,
    pub forbid_entities: bool,
    pub forbid_external: bool,
    pub xsd_ignore_sequence_order: bool,
}

impl Settings {
    /// The defaults: strict parsing and raw responses; no forced HTTPS and no
    /// extra headers; no huge trees; DTDs, entities and external references
    /// forbidden; schema sequence order kept.
    pub fn new() -> (r: Self)
        ensures
            r.strict,
            r.raw_response,
            !r.force_https,
            !r.extra_https_headers,
            !r.xml_huge_tree,
            r.forbid_dtd,
            r.forbid_entities,
            r.forbid_external,
            !r.xsd_ignore_sequence_order,
    {
        Self {
            strict: true,
            raw_response: true,
            // transport
            force_https: false,
            extra_https_headers: false,
            // XML processing
            xml_huge_tree: false,
            forbid_dtd: true,
            forbid_entities: true,
            forbid_external: true,
            // schema workarounds
            xsd_ignore_sequence_order: false,
        }
    }
}

} // verus!
