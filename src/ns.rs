//! Namespaces of SOAP, WSDL and the related standards.
use vstd::prelude::*;

verus! {

pub const SOAP_11: &'static str = "http://schemas.xmlsoap.org/wsdl/soap/";
pub const SOAP_12: &'static str = "http://schemas.xmlsoap.org/wsdl/soap12/";
pub const SOAP_ENV_11: &'static str = "http://schemas.xmlsoap.org/soap/envelope/";
pub const SOAP_ENV_12: &'static str = "http://www.w3.org/2003/05/soap-envelope";

pub const XSI: &'static str = "http://www.w3.org/2001/XMLSchema-instance";
pub const XSD: &'static str = "http://www.w3.org/2001/XMLSchema";

pub const WSDL: &'static str = "http://schemas.xmlsoap.org/wsdl/";
pub const HTTP: &'static str = "http://schemas.xmlsoap.org/wsdl/http/";
pub const MIME: &'static str = "http://schemas.xmlsoap.org/wsdl/mime/";

pub const WSA: &'static str = "http://www.w3.org/2005/08/addressing";

pub const DS: &'static str = "http://www.w3.org/2000/09/xmldsig#";
pub const WSSE: &'static str = "http://docs.oasis-open.org/wss/2004/01/oasis-200401-wss-wssecurity-secext-1.0.xsd";
pub const WSU: &'static str = "http://docs.oasis-open.org/wss/2004/01/oasis-200401-wss-wssecurity-utility-1.0.xsd";

/// The prefix used for the schema namespace.
pub const NAMESPACE_TO_PREFIX: &'static str = "xsd";

} // verus!
