//! Provider metadata resolver: the checks made on a discovery document.
use vstd::prelude::*;

verus! {

/// The OAuth server metadata that the client needs from the provider.
pub struct OAuthProviderMetadata {
    pub issuer: String,
    pub introspection_endpoint: String,
    pub revocation_endpoint: String,
}

/// Why discovery failed.
pub enum DiscoveryFailure {
    /// The provider answered with this HTTP status instead of 200.
    Status(u16),
    /// The body was not a metadata document; the parser's message.
    Parse(String),
    /// The document names another issuer than the configured one.
    IssuerMismatch { found: String, expected: String },
}

/// Checks a discovery response: the status must be 200, the body must parse
/// (`parsed` is what parsing it gave, consulted only on status 200), and the
/// document's issuer must equal the configured issuer URL exactly.
pub fn discovery_response(
    issuer_url: &str,
    status: u16,
    parsed: Result<OAuthProviderMetadata, String>,
) -> (r: Result<OAuthProviderMetadata, DiscoveryFailure>)
    ensures
        status != 200 ==> (r matches Err(DiscoveryFailure::Status(s)) && s == status),
        status == 200 ==> match parsed {
            Err(msg) => r matches Err(DiscoveryFailure::Parse(m)) && m@ == msg@,
            Ok(meta) => if meta.issuer@ == issuer_url@ {
                r matches Ok(m) && m.issuer@ == meta.issuer@ && m.introspection_endpoint@
                    == meta.introspection_endpoint@ && m.revocation_endpoint@
                    == meta.revocation_endpoint@
            } else {
                r matches Err(DiscoveryFailure::IssuerMismatch { found, expected })
                    && found@ == meta.issuer@ && expected@ == issuer_url@
            },
        },
{
    if status != 200 {
        return Err(DiscoveryFailure::Status(status));
    }
    match parsed {
        Err(msg) => Err(DiscoveryFailure::Parse(msg)),
        Ok(meta) => {
            let expected = String::from_str(issuer_url);
            if meta.issuer == expected {
                Ok(meta)
            } else {
                Err(DiscoveryFailure::IssuerMismatch { found: meta.issuer, expected })
            }
        },
    }
}

} // verus!
