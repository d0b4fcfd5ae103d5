//! Handles, tokens and attributes that pass between the security plugins.

use vstd::prelude::*;

verus! {

/// Names a validated identity to the authentication plugin.
pub type IdentityHandle = u32;

/// Names a running handshake to the authentication plugin.
pub type HandshakeHandle = u32;

/// Names validated permissions to the access control plugin.
pub type PermissionsHandle = u32;

/// Names key material to the cryptographic plugin.
pub type CryptoHandle = u32;

/// Names the key material of a participant.
pub type ParticipantCryptoHandle = CryptoHandle;

/// Names the key material of an endpoint.
pub type EndpointCryptoHandle = CryptoHandle;

/// Names the key material of a data writer.
pub type DatawriterCryptoHandle = EndpointCryptoHandle;

/// Names the key material of a data reader.
pub type DatareaderCryptoHandle = EndpointCryptoHandle;

/// A named text value.
#[derive(Clone, PartialEq, Eq, Debug)]
pub struct Property {
    pub name: String,
    pub value: String,
    pub propagate: bool,
}

/// A named binary value.
#[derive(Clone, PartialEq, Eq, Debug)]
pub struct BinaryProperty {
    pub name: String,
    pub value: Vec<u8>,
    pub propagate: bool,
}

/// The contents that all tokens share: a class and the properties it calls for.
#[derive(Clone, PartialEq, Eq, Debug)]
pub struct DataHolder {
    pub class_id: String,
    pub properties: Vec<Property>,
    pub binary_properties: Vec<BinaryProperty>,
}

/// What a participant makes known of its identity.
#[derive(Clone, PartialEq, Eq, Debug)]
pub struct IdentityToken {
    pub data_holder: DataHolder,
}

/// What a participant makes known of the status of its identity.
#[derive(Clone, PartialEq, Eq, Debug)]
pub struct IdentityStatusToken {
    pub data_holder: DataHolder,
}

/// What a participant makes known of its permissions.
#[derive(Clone, PartialEq, Eq, Debug)]
pub struct PermissionsToken {
    pub data_holder: DataHolder,
}

/// The credential that backs a participant's permissions.
#[derive(Clone, PartialEq, Eq, Debug)]
pub struct PermissionsCredentialToken {
    pub data_holder: DataHolder,
}

/// The credential of a peer that passed the handshake.
#[derive(Clone, PartialEq, Eq, Debug)]
pub struct AuthenticatedPeerCredentialToken {
    pub data_holder: DataHolder,
}

/// The request that opens an authentication.
#[derive(Clone, PartialEq, Eq, Debug)]
pub struct AuthRequestMessageToken {
    pub data_holder: DataHolder,
}

/// One message of a handshake.
#[derive(Clone, PartialEq, Eq, Debug)]
pub struct HandshakeMessageToken {
    pub data_holder: DataHolder,
}

/// Key material on its way to a peer.
#[derive(Clone, PartialEq, Eq, Debug)]
pub struct CryptoToken {
    pub data_holder: DataHolder,
}

/// Key material of a participant on its way to a peer.
pub type ParticipantCryptoToken = CryptoToken;

/// Key material of a data writer on its way to a peer.
pub type DatawriterCryptoToken = CryptoToken;

/// Key material of a data reader on its way to a peer.
pub type DatareaderCryptoToken = CryptoToken;

/// The secret that two participants agreed on in a handshake, with the
/// challenges that went into it.
#[derive(Clone, PartialEq, Eq, Debug)]
pub struct SharedSecretHandle {
    pub shared_secret: Vec<u8>,
    pub challenge1: Vec<u8>,
    pub challenge2: Vec<u8>,
}

/// How a participant is to be protected.
#[derive(Clone, PartialEq, Eq, Debug)]
pub struct ParticipantSecurityAttributes {
    pub allow_unauthenticated_participants: bool,
    pub is_access_protected: bool,
    pub is_rtps_protected: bool,
    pub is_discovery_protected: bool,
    pub is_liveliness_protected: bool,
    pub plugin_participant_attributes: u32,
    pub ac_participant_properties: Vec<Property>,
}

/// How a topic is to be protected.
#[derive(Clone, Copy, PartialEq, Eq, Debug)]
pub struct TopicSecurityAttributes {
    pub is_read_protected: bool,
    pub is_write_protected: bool,
    pub is_discovery_protected: bool,
    pub is_liveliness_protected: bool,
}

/// How an endpoint is to be protected.
#[derive(Clone, PartialEq, Eq, Debug)]
pub struct EndpointSecurityAttributes {
    pub topic_security_attributes: TopicSecurityAttributes,
    pub is_submessage_protected: bool,
    pub is_payload_protected: bool,
    pub is_key_protected: bool,
    pub plugin_endpoint_attributes: u32,
    pub ac_endpoint_properties: Vec<Property>,
}

/// The discovery data that a secured participant announces, serialized.
#[derive(Clone, PartialEq, Eq, Debug)]
pub struct ParticipantBuiltinTopicDataSecure {
    pub serialized: Vec<u8>,
}

} // verus!
