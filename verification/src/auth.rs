//! Connector authentication model: a tagged union describing how
//! credentials are presented to a connector, built from merchant-supplied
//! configuration whose discriminator field selects the variant. No variant
//! is ever partially filled, and an unrecognized or incomplete
//! configuration is a reported error, never a panic.

use vstd::prelude::*;
use vstd::string::StringExecFns;
use crate::masking::{Strategy, TypeName, WithType};

verus! {

/// How credentials are handed to a connector.
#[derive(Clone)]
pub enum ConnectorAuthType {
    /// A single key sent in a transport header.
    HeaderKey { api_key: String },
    /// A key pair sent in the request body.
    BodyKey { api_key: String, key1: String },
}

/// The mathematical value of a [`ConnectorAuthType`].
pub enum ConnectorAuthTypeView {
    HeaderKey { api_key: Seq<char> },
    BodyKey { api_key: Seq<char>, key1: Seq<char> },
}

impl View for ConnectorAuthType {
    type V = ConnectorAuthTypeView;

    open spec fn view(&self) -> ConnectorAuthTypeView {
        match self {
            ConnectorAuthType::HeaderKey { api_key } => (ConnectorAuthTypeView::HeaderKey {
                api_key: api_key@,
            }),
            ConnectorAuthType::BodyKey { api_key, key1 } => (ConnectorAuthTypeView::BodyKey {
                api_key: api_key@,
                key1: key1@,
            }),
        }
    }
}

impl Default for ConnectorAuthType {
    /// The placeholder used before real credentials are loaded: a header
    /// key with an empty key. It must never reach a live connector call.
    fn default() -> (r: Self)
        ensures
            r@ == (ConnectorAuthTypeView::HeaderKey { api_key: Seq::<char>::empty() }),
    {
        ConnectorAuthType::HeaderKey { api_key: String::new() }
    }
}

impl TypeName for ConnectorAuthType {
    open spec fn declared_name_spec() -> Seq<char> {
        "ConnectorAuthType"@
    }

    fn declared_name() -> (r: String) {
        String::from_str("ConnectorAuthType")
    }
}

impl ConnectorAuthType {
    /// The only rendering this type offers for diagnostics: its content is
    /// always masked, only the type is revealed.
    pub fn masked_rendering(&self) -> (r: String)
        ensures
            r@ == <WithType as Strategy<Self>>::rendered(self),
    {
        WithType::fmt(self)
    }
}

/// A configuration error: the reasons an authentication configuration is
/// rejected before it can reach any connector call.
#[derive(Clone, Copy, Debug, PartialEq, Eq, Structural)]
pub enum AuthConfigError {
    /// The discriminator names no known authentication pattern.
    UnrecognizedAuthType,
    /// The selected variant requires `api_key`, which is absent.
    MissingApiKey,
    /// `BodyKey` requires `key1`, which is absent.
    MissingKey1,
}

/// The authentication configuration object as plain values: the
/// discriminator field and the optional credential fields, exactly the
/// fields of the wire object.
pub struct AuthConfigParts {
    pub auth_type: String,
    pub api_key: Option<String>,
    pub key1: Option<String>,
}

/// What building a [`ConnectorAuthType`] from a configuration object
/// yields: the variant selected by the discriminator, filled from the
/// required fields, or the configuration error that rejects the object.
pub open spec fn parse_parts_spec(
    auth_type: Seq<char>,
    api_key: Option<Seq<char>>,
    key1: Option<Seq<char>>,
) -> Result<ConnectorAuthTypeView, AuthConfigError> {
    if auth_type == "HeaderKey"@ {
        match api_key {
            Some(k) => Ok(ConnectorAuthTypeView::HeaderKey { api_key: k }),
            None => Err(AuthConfigError::MissingApiKey),
        }
    } else if auth_type == "BodyKey"@ {
        match api_key {
            Some(k) => match key1 {
                Some(k1) => Ok(ConnectorAuthTypeView::BodyKey { api_key: k, key1: k1 }),
                None => Err(AuthConfigError::MissingKey1),
            },
            None => Err(AuthConfigError::MissingApiKey),
        }
    } else {
        Err(AuthConfigError::UnrecognizedAuthType)
    }
}

/// The configuration object that a [`ConnectorAuthType`] serializes to.
pub open spec fn serialize_parts_spec(v: ConnectorAuthTypeView) -> (
    Seq<char>,
    Option<Seq<char>>,
    Option<Seq<char>>,
) {
    match v {
        ConnectorAuthTypeView::HeaderKey { api_key } => ("HeaderKey"@, Some(api_key), None),
        ConnectorAuthTypeView::BodyKey { api_key, key1 } => (
            "BodyKey"@,
            Some(api_key),
            Some(key1),
        ),
    }
}

impl ConnectorAuthType {
    /// Build the authentication value from a configuration object. Exactly
    /// the objects that [`parse_parts_spec`] accepts are accepted, and a
    /// rejected object reports the same configuration error.
    pub fn from_config_parts(parts: AuthConfigParts) -> (r: Result<Self, AuthConfigError>)
        ensures
            match r {
                Ok(v) => parse_parts_spec(
                    parts.auth_type@,
                    parts.api_key.deep_view(),
                    parts.key1.deep_view(),
                ) == Ok::<ConnectorAuthTypeView, AuthConfigError>(v@),
                Err(e) => parse_parts_spec(
                    parts.auth_type@,
                    parts.api_key.deep_view(),
                    parts.key1.deep_view(),
                ) == Err::<ConnectorAuthTypeView, AuthConfigError>(e),
            },
    {
        let header_tag = String::from_str("HeaderKey");
        let body_tag = String::from_str("BodyKey");
        if parts.auth_type == header_tag {
            match parts.api_key {
                Some(k) => Ok(ConnectorAuthType::HeaderKey { api_key: k }),
                None => Err(AuthConfigError::MissingApiKey),
            }
        } else if parts.auth_type == body_tag {
            match parts.api_key {
                Some(k) => match parts.key1 {
                    Some(k1) => Ok(ConnectorAuthType::BodyKey { api_key: k, key1: k1 }),
                    None => Err(AuthConfigError::MissingKey1),
                },
                None => Err(AuthConfigError::MissingApiKey),
            }
        } else {
            Err(AuthConfigError::UnrecognizedAuthType)
        }
    }

    /// Serialize the authentication value back to a configuration object,
    /// exactly as [`serialize_parts_spec`] says.
    pub fn to_config_parts(&self) -> (r: AuthConfigParts)
        ensures
            r.auth_type@ == serialize_parts_spec(self@).0,
            r.api_key.deep_view() == serialize_parts_spec(self@).1,
            r.key1.deep_view() == serialize_parts_spec(self@).2,
    {
        match self {
            ConnectorAuthType::HeaderKey { api_key } => AuthConfigParts {
                auth_type: String::from_str("HeaderKey"),
                api_key: Some(api_key.clone()),
                key1: None,
            },
            ConnectorAuthType::BodyKey { api_key, key1 } => AuthConfigParts {
                auth_type: String::from_str("BodyKey"),
                api_key: Some(api_key.clone()),
                key1: Some(key1.clone()),
            },
        }
    }
}

/// Serializing any authentication value to its configuration object and
/// building the value back from that object returns the value unchanged,
/// with no error.
pub proof fn lemma_auth_config_round_trip(v: ConnectorAuthTypeView)
    ensures
        parse_parts_spec(
            serialize_parts_spec(v).0,
            serialize_parts_spec(v).1,
            serialize_parts_spec(v).2,
        ) == Ok::<ConnectorAuthTypeView, AuthConfigError>(v),
{
    reveal_strlit("HeaderKey");
    reveal_strlit("BodyKey");
    assert("HeaderKey"@.len() == 9);
    assert("BodyKey"@.len() == 7);
}

} // verus!
