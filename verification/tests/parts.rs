use dds_security::guid::{EntityId, GuidPrefix, GUID};
use dds_security::qos::policy::{into_properties, Property as PropertyPolicy};
use dds_security::recipients::remove_duplicates;
use dds_security::rtps::ParameterList;
use dds_security::types::Property;
use dds_security::SecurityError;

fn prefix() -> GuidPrefix {
    GuidPrefix { bytes: [0, 1, 2, 3, 4, 5, 6, 7, 0x80, 0x9a, 0xbc, 0xff] }
}

fn guid(kind: u8) -> GUID {
    GUID { prefix: prefix(), entity_id: EntityId { entity_key: [0, 1, 2], entity_kind: kind } }
}

#[test]
fn errors_in_words() {
    assert_eq!(
        SecurityError::IdentityHandleNotFound(prefix()).message(),
        "Could not find an IdentityHandle for the GUID prefix 0001020304050607809abcff"
    );
    assert_eq!(
        SecurityError::PermissionsHandleNotFound(prefix()).message(),
        "Could not find a PermissionsHandle for the GUID prefix 0001020304050607809abcff"
    );
    assert_eq!(
        SecurityError::HandshakeHandleNotFound(prefix()).message(),
        "Could not find a HandshakeHandle for the GUID prefix 0001020304050607809abcff"
    );
    assert_eq!(
        SecurityError::ParticipantCryptoHandleNotFound(prefix()).message(),
        "Could not find a ParticipantCryptoHandle for the GuidPrefix 0001020304050607809abcff"
    );
    assert_eq!(
        SecurityError::LocalEndpointCryptoHandleNotFound(guid(0xc7)).message(),
        "Could not find a local EndpointCryptoHandle for the GUID 0001020304050607809abcff000102c7"
    );
    assert_eq!(
        SecurityError::RemoteEndpointCryptoHandleNotFound {
            local_endpoint: guid(2),
            proxy: guid(7)
        }
        .message(),
        "Could not find a remote EndpointCryptoHandle for the (local_endpoint_guid, proxy_guid) \
         pair (0001020304050607809abcff00010202, 0001020304050607809abcff00010207)"
    );
    assert_eq!(
        SecurityError::UnexpectedLocalIdentityOutcome.message(),
        "Validating local identity produced an unexpected outcome"
    );
    assert_eq!(SecurityError::Plugin("no key".to_string()).message(), "no key");
}

#[test]
fn duplicates_are_removed() {
    assert_eq!(remove_duplicates(&vec![]), Vec::<u32>::new());
    assert_eq!(remove_duplicates(&vec![4]), vec![4]);
    assert_eq!(remove_duplicates(&vec![5, 3, 5, 1, 3, 9, 1]), vec![1, 3, 5, 9]);
    assert_eq!(remove_duplicates(&vec![0, u32::MAX, 0]), vec![0, u32::MAX]);
    assert_eq!(remove_duplicates(&vec![9, 8, 7, 6, 5]), vec![5, 6, 7, 8, 9]);
}

#[test]
fn order_and_repetition_make_no_difference() {
    assert_eq!(
        remove_duplicates(&vec![2, 7, 2, 4]),
        remove_duplicates(&vec![4, 4, 4, 2, 7, 7])
    );
}

#[test]
fn properties_of_a_policy() {
    let property =
        Property { name: "n".to_string(), value: "v".to_string(), propagate: true };
    let policy = PropertyPolicy { value: vec![property.clone()], binary_value: vec![] };
    assert_eq!(into_properties(Some(policy)), vec![property]);
    assert_eq!(into_properties(None), vec![]);
}

#[test]
fn new_parameter_list_is_empty() {
    assert_eq!(ParameterList::new().parameters, vec![]);
}
