//! What can go wrong.

use vstd::prelude::*;

use crate::guid::{GuidPrefix, GUID};

verus! {

/// Why a security operation failed.
#[derive(Clone, PartialEq, Eq, Debug)]
pub enum SecurityError {
    /// No identity handle is stored for the participant.
    IdentityHandleNotFound(GuidPrefix),
    /// No permissions handle is stored for the participant.
    PermissionsHandleNotFound(GuidPrefix),
    /// No handshake handle is stored for the participant.
    HandshakeHandleNotFound(GuidPrefix),
    /// No crypto handle is stored for the participant.
    ParticipantCryptoHandleNotFound(GuidPrefix),
    /// No crypto handle is stored for the local endpoint.
    LocalEndpointCryptoHandleNotFound(GUID),
    /// No crypto handle is stored for the remote endpoint as matched with the
    /// local one.
    RemoteEndpointCryptoHandleNotFound { local_endpoint: GUID, proxy: GUID },
    /// The validation of the local identity came to an outcome that it should
    /// not have.
    UnexpectedLocalIdentityOutcome,
    /// A plugin failed, for the reason given.
    Plugin(String),
}

/// The result of a security operation.
pub type SecurityResult<T> = Result<T, SecurityError>;

/// Two results taken one after the other: both values, or the first error.
pub open spec fn both<S, T>(first: SecurityResult<S>, second: SecurityResult<T>) -> SecurityResult<
    (S, T),
> {
    match first {
        Ok(s) => match second {
            Ok(t) => Ok((s, t)),
            Err(e) => Err(e),
        },
        Err(e) => Err(e),
    }
}

/// Results taken one after the other: all values in order, or the first error.
pub open spec fn all<T>(results: Seq<SecurityResult<T>>) -> SecurityResult<Seq<T>>
    decreases results.len(),
{
    if results.len() == 0 {
        Ok(Seq::empty())
    } else {
        match all(results.drop_last()) {
            Ok(values) => match results.last() {
                Ok(value) => Ok(values.push(value)),
                Err(e) => Err(e),
            },
            Err(e) => Err(e),
        }
    }
}

/// Results taken one after the other give all values in order if there is no
/// error among them, and else the error that comes first.
pub proof fn law_all<T>(results: Seq<SecurityResult<T>>)
    ensures
        match all(results) {
            Ok(values) => {
                &&& values.len() == results.len()
                &&& forall|i: int|
                    0 <= i < results.len() ==> #[trigger] results[i] == Ok::<T, SecurityError>(
                        values[i],
                    )
            },
            Err(e) => exists|first: int|
                {
                    &&& 0 <= first < results.len()
                    &&& #[trigger] results[first] == Err::<T, SecurityError>(e)
                    &&& forall|i: int| 0 <= i < first ==> (#[trigger] results[i]) is Ok
                },
        },
    decreases results.len(),
{
    if results.len() > 0 {
        let shorter = results.drop_last();
        law_all(shorter);
        match all(shorter) {
            Ok(values) => {
                assert forall|i: int| 0 <= i < shorter.len() implies #[trigger] results[i]
                    == Ok::<T, SecurityError>(values[i]) by {
                    assert(shorter[i] == results[i]);
                }
            },
            Err(e) => {
                let first = choose|first: int|
                    {
                        &&& 0 <= first < shorter.len()
                        &&& #[trigger] shorter[first] == Err::<T, SecurityError>(e)
                        &&& forall|i: int| 0 <= i < first ==> (#[trigger] shorter[i]) is Ok
                    };
                assert(results[first] == Err::<T, SecurityError>(e));
                assert forall|i: int| 0 <= i < first implies (#[trigger] results[i]) is Ok by {
                    assert(shorter[i] == results[i]);
                }
            },
        }
    }
}

/// An error among the first results decides, whatever comes after them.
pub proof fn lemma_all_stops<T>(results: Seq<SecurityResult<T>>, n: int)
    requires
        0 <= n <= results.len(),
        all(results.take(n)) is Err,
    ensures
        all(results) == all(results.take(n)),
    decreases results.len() - n,
{
    if n < results.len() {
        let longer = results.take(n + 1);
        assert(longer.drop_last() =~= results.take(n));
        lemma_all_stops(results, n + 1);
    } else {
        assert(results.take(n) =~= results);
    }
}

/// The hexadecimal digit of a number below sixteen.
pub open spec fn hex_digit(n: u8) -> char {
    "0123456789abcdef"@[n as int]
}

/// Octets in hexadecimal, two digits each.
pub open spec fn hex(octets: Seq<u8>) -> Seq<char>
    decreases octets.len(),
{
    if octets.len() == 0 {
        Seq::empty()
    } else {
        hex(octets.drop_last()).push(hex_digit(octets.last() / 16)).push(
            hex_digit(octets.last() % 16),
        )
    }
}

/// The text of a participant's identifier.
pub open spec fn prefix_text(prefix: GuidPrefix) -> Seq<char> {
    hex(prefix.bytes@)
}

/// The text of an endpoint's identifier.
pub open spec fn guid_text(guid: GUID) -> Seq<char> {
    hex(guid.prefix.bytes@) + hex(guid.entity_id.entity_key@) + hex(
        seq![guid.entity_id.entity_kind],
    )
}

/// Appends octets in hexadecimal.
fn append_hex(text: &mut String, octets: &[u8])
    ensures
        final(text)@ == old(text)@ + hex(octets@),
{
    proof {
        reveal_strlit("0123456789abcdef");
        assert(octets@.take(0) =~= Seq::<u8>::empty());
        assert(text@ =~= old(text)@ + hex(octets@.take(0)));
    }
    for i in 0..octets.len()
        invariant
            text@ == old(text)@ + hex(octets@.take(i as int)),
            "0123456789abcdef"@.len() == 16,
    {
        let high: usize = (octets[i] / 16) as usize;
        let low: usize = (octets[i] % 16) as usize;
        let digits: &str = "0123456789abcdef";
        text.append(digits.substring_char(high, high + 1));
        text.append(digits.substring_char(low, low + 1));
        proof {
            assert(octets@.take(i + 1).drop_last() =~= octets@.take(i as int));
            assert(octets@.take(i + 1).last() == octets@[i as int]);
            assert(text@ =~= old(text)@ + hex(octets@.take(i + 1)));
        }
    }
    assert(octets@.take(octets@.len() as int) =~= octets@);
}

/// Appends the text of an endpoint's identifier.
fn append_guid(text: &mut String, guid: &GUID)
    ensures
        final(text)@ == old(text)@ + guid_text(*guid),
{
    let prefix: &[u8] = guid.prefix.bytes.as_slice();
    let key: &[u8] = guid.entity_id.entity_key.as_slice();
    let kind: [u8; 1] = [guid.entity_id.entity_kind];
    append_hex(text, prefix);
    append_hex(text, key);
    append_hex(text, kind.as_slice());
    proof {
        assert(kind@ =~= seq![guid.entity_id.entity_kind]);
        assert(text@ =~= old(text)@ + guid_text(*guid));
    }
}

impl SecurityError {
    /// The text of the error.
    pub open spec fn text(self) -> Seq<char> {
        match self {
            SecurityError::IdentityHandleNotFound(prefix) =>
                "Could not find an IdentityHandle for the GUID prefix "@ + prefix_text(prefix),
            SecurityError::PermissionsHandleNotFound(prefix) =>
                "Could not find a PermissionsHandle for the GUID prefix "@ + prefix_text(prefix),
            SecurityError::HandshakeHandleNotFound(prefix) =>
                "Could not find a HandshakeHandle for the GUID prefix "@ + prefix_text(prefix),
            SecurityError::ParticipantCryptoHandleNotFound(prefix) =>
                "Could not find a ParticipantCryptoHandle for the GuidPrefix "@ + prefix_text(
                    prefix,
                ),
            SecurityError::LocalEndpointCryptoHandleNotFound(guid) =>
                "Could not find a local EndpointCryptoHandle for the GUID "@ + guid_text(guid),
            SecurityError::RemoteEndpointCryptoHandleNotFound { local_endpoint, proxy } =>
                "Could not find a remote EndpointCryptoHandle for the (local_endpoint_guid, proxy_guid) pair ("@
                    + guid_text(local_endpoint) + ", "@ + guid_text(proxy) + ")"@,
            SecurityError::UnexpectedLocalIdentityOutcome =>
                "Validating local identity produced an unexpected outcome"@,
            SecurityError::Plugin(reason) => reason@,
        }
    }

    /// The error in words.
    pub fn message(&self) -> (message: String)
        ensures
            message@ == self.text(),
    {
        let mut text: String = String::new();
        match self {
            SecurityError::IdentityHandleNotFound(prefix) => {
                text.append("Could not find an IdentityHandle for the GUID prefix ");
                append_hex(&mut text, prefix.bytes.as_slice());
            },
            SecurityError::PermissionsHandleNotFound(prefix) => {
                text.append("Could not find a PermissionsHandle for the GUID prefix ");
                append_hex(&mut text, prefix.bytes.as_slice());
            },
            SecurityError::HandshakeHandleNotFound(prefix) => {
                text.append("Could not find a HandshakeHandle for the GUID prefix ");
                append_hex(&mut text, prefix.bytes.as_slice());
            },
            SecurityError::ParticipantCryptoHandleNotFound(prefix) => {
                text.append("Could not find a ParticipantCryptoHandle for the GuidPrefix ");
                append_hex(&mut text, prefix.bytes.as_slice());
            },
            SecurityError::LocalEndpointCryptoHandleNotFound(guid) => {
                text.append("Could not find a local EndpointCryptoHandle for the GUID ");
                append_guid(&mut text, guid);
            },
            SecurityError::RemoteEndpointCryptoHandleNotFound { local_endpoint, proxy } => {
                text.append(
                    "Could not find a remote EndpointCryptoHandle for the (local_endpoint_guid, proxy_guid) pair (",
                );
                append_guid(&mut text, local_endpoint);
                text.append(", ");
                append_guid(&mut text, proxy);
                text.append(")");
            },
            SecurityError::UnexpectedLocalIdentityOutcome => {
                text.append("Validating local identity produced an unexpected outcome");
            },
            SecurityError::Plugin(reason) => {
                text.append(reason.as_str());
            },
        }
        assert(text@ =~= self.text());
        text
    }
}

} // verus!
