//! The connector plugin contract: the shape every connector adapter must
//! implement to plug into the envelope, authentication and transport
//! types. The core neither implements nor enumerates connectors; any
//! adapter that produces the normalized response and error shapes and
//! accepts the envelope and authentication types plugs in, so the set of
//! connectors stays open and independently extensible.

use vstd::prelude::*;
use crate::auth::ConnectorAuthType;
use crate::errors::ErrorResponse;
use crate::transport::Response;
use crate::types::RouterData;

verus! {

/// One connector adapter for one flow: it turns an envelope into the
/// connector's wire request, the connector's raw reply into the typed
/// response or the normalized error, and the merchant's credentials into
/// whatever the connector's transport expects.
pub trait ConnectorAdapter<Flow, Request, ResponsePayload> {
    /// Build the connector's wire request for the envelope.
    fn build_request(&self, data: &RouterData<Flow, Request, ResponsePayload>) -> Result<
        Vec<u8>,
        ErrorResponse,
    >;

    /// Fold the raw reply into the typed response, or normalize the
    /// failure.
    fn parse_response(&self, raw: &Response) -> Result<ResponsePayload, ErrorResponse>;

    /// Turn the merchant's credentials into the connector's own
    /// key/value form.
    fn map_auth(&self, auth: &ConnectorAuthType) -> Result<Vec<(String, String)>, ErrorResponse>;
}

} // verus!
