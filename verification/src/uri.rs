//! uProtocol URIs (`UUri`): the addresses of topics, methods and entities.
use vstd::prelude::*;
use vstd::string::*;

verus! {

/// Maximum number of characters of an authority name.
pub const AUTHORITY_NAME_MAX_LENGTH: usize = 128;

/// Resource id of an entity's RPC reply-to address (and of notification
/// destinations).
pub const RESOURCE_ID_RESPONSE: u16 = 0;
/// Smallest resource id of an event topic.
pub const RESOURCE_ID_MIN_EVENT: u16 = 0x8000;
/// Wildcard resource id.
pub const WILDCARD_RESOURCE_ID: u16 = 0xFFFF;
/// Wildcard major version.
pub const WILDCARD_ENTITY_VERSION: u8 = 0xFF;

/// Error returned when a `UUri` cannot be created or fails a check.
#[derive(Clone, Debug, PartialEq, Eq)]
pub enum UUriError {
    /// The URI (or one of its parts) violates the URI rules.
    ValidationError(String),
}

impl UUriError {
    /// The text of this error: its message.
    pub open spec fn text(self) -> Seq<char> {
        match self {
            UUriError::ValidationError(m) => m@,
        }
    }

    /// Renders this error as text.
    pub fn to_string(&self) -> (s: String)
        ensures
            s@ == self.text(),
    {
        match self {
            UUriError::ValidationError(m) => String::from_str(m.as_str()),
        }
    }
}

/// The message with which `UUri::try_from_parts` rejects an authority name.
pub open spec fn invalid_authority_text() -> Seq<char> {
    "invalid authority name"@
}

/// The message with which the URI checks reject a URI holding a wildcard.
pub open spec fn wildcard_error_text() -> Seq<char> {
    "URI contains wildcards"@
}

/// The message with which `verify_event` rejects `u`.
pub open spec fn event_error_text(u: UUriModel) -> Seq<char> {
    if u.has_wildcard() {
        wildcard_error_text()
    } else {
        "resource ID does not map to an event"@
    }
}

/// The message with which `verify_rpc_method` rejects `u`.
pub open spec fn rpc_method_error_text(u: UUriModel) -> Seq<char> {
    if u.has_wildcard() {
        wildcard_error_text()
    } else {
        "resource ID does not map to an RPC method"@
    }
}

/// The message with which `verify_rpc_response` rejects `u`.
pub open spec fn rpc_response_error_text(u: UUriModel) -> Seq<char> {
    if u.has_wildcard() {
        wildcard_error_text()
    } else {
        "resource ID is not an RPC response resource ID"@
    }
}

/// Abstract value of a `UUri`.
pub ghost struct UUriModel {
    pub authority: Seq<char>,
    pub ue_id: u32,
    pub version: u8,
    pub resource: u16,
}

/// A uProtocol URI: authority name, uEntity id (instance id in the upper
/// 16 bits, type id in the lower 16 bits), uEntity major version and resource id.
#[derive(Debug, PartialEq, Eq, Hash)]
pub struct UUri {
    authority_name: String,
    ue_id: u32,
    ue_version_major: u8,
    resource_id: u16,
}

/// Whether `c` may appear in an authority name: the characters of an RFC 3986
/// registered name (unreserved, sub-delims and `%`).
pub open spec fn authority_char_ok(c: char) -> bool {
    ||| ('a' <= c && c <= 'z')
    ||| ('A' <= c && c <= 'Z')
    ||| ('0' <= c && c <= '9')
    ||| c == '-' || c == '.' || c == '_' || c == '~' || c == '%'
    ||| c == '!' || c == '$' || c == '&' || c == '\'' || c == '(' || c == ')'
    ||| c == '*' || c == '+' || c == ',' || c == ';' || c == '='
}

/// Whether `s` is a valid authority name: at most 128 allowed characters
/// (the empty name denotes the local authority).
pub open spec fn valid_authority(s: Seq<char>) -> bool {
    &&& s.len() <= AUTHORITY_NAME_MAX_LENGTH
    &&& forall|i: int| 0 <= i < s.len() ==> authority_char_ok(#[trigger] s[i])
}

impl View for UUri {
    type V = UUriModel;

    closed spec fn view(&self) -> UUriModel {
        UUriModel {
            authority: self.authority_name@,
            ue_id: self.ue_id,
            version: self.ue_version_major,
            resource: self.resource_id,
        }
    }
}

impl UUri {
    /// Every `UUri` has a valid authority name.
    #[verifier::type_invariant]
    spec fn inv(self) -> bool {
        valid_authority(self.authority_name@)
    }

}

impl UUriModel {
    /// Whether any part of the URI is a wildcard.
    pub open spec fn has_wildcard(self) -> bool {
        ||| self.authority == seq!['*']
        ||| self.ue_id & 0xFFFF_0000 == 0xFFFF_0000
        ||| self.ue_id & 0x0000_FFFF == 0x0000_FFFF
        ||| self.version == WILDCARD_ENTITY_VERSION
        ||| self.resource == WILDCARD_RESOURCE_ID
    }

    /// Whether this is a valid, wildcard-free event topic.
    pub open spec fn is_valid_event(self) -> bool {
        !self.has_wildcard() && self.resource >= RESOURCE_ID_MIN_EVENT
    }

    /// Whether this is a valid, wildcard-free RPC method address.
    pub open spec fn is_valid_rpc_method(self) -> bool {
        !self.has_wildcard() && 1 <= self.resource && self.resource < RESOURCE_ID_MIN_EVENT
    }

    /// Whether this is a valid, wildcard-free RPC reply-to address.
    pub open spec fn is_valid_rpc_response(self) -> bool {
        !self.has_wildcard() && self.resource == RESOURCE_ID_RESPONSE
    }

    /// Whether the URI has a valid authority name (as every URI built by
    /// `UUri::try_from_parts` has).
    pub open spec fn wf(self) -> bool {
        valid_authority(self.authority)
    }
}

impl Clone for UUri {
    fn clone(&self) -> (r: UUri)
        ensures
            r@ == self@,
    {
        proof { use_type_invariant(self); }
        UUri {
            authority_name: self.authority_name.clone(),
            ue_id: self.ue_id,
            ue_version_major: self.ue_version_major,
            resource_id: self.resource_id,
        }
    }
}

fn validation_error(message: &str) -> (e: UUriError)
    ensures
        e.text() == message@,
{
    UUriError::ValidationError(String::from_str(message))
}

/// Checks an authority name character by character.
pub fn is_valid_authority(authority: &str) -> (b: bool)
    ensures
        b == valid_authority(authority@),
{
    let n = authority.unicode_len();
    if n > AUTHORITY_NAME_MAX_LENGTH {
        return false;
    }
    let mut i: usize = 0;
    while i < n
        invariant
            n == authority@.len(),
            i <= n,
            forall|j: int| 0 <= j < i ==> authority_char_ok(#[trigger] authority@[j]),
        decreases n - i,
    {
        let c = authority.get_char(i);
        let ok = ('a' <= c && c <= 'z') || ('A' <= c && c <= 'Z') || ('0' <= c && c <= '9')
            || c == '-' || c == '.' || c == '_' || c == '~' || c == '%' || c == '!' || c == '$'
            || c == '&' || c == '\'' || c == '(' || c == ')' || c == '*' || c == '+' || c == ','
            || c == ';' || c == '=';
        if !ok {
            return false;
        }
        i = i + 1;
    }
    true
}

impl UUri {
    /// Creates a URI from its parts.
    ///
    /// Fails if the authority name is longer than 128 characters or holds a
    /// character that a registered name may not hold.
    pub fn try_from_parts(authority: &str, entity_id: u32, entity_version: u8, resource_id: u16) -> (r: Result<UUri, UUriError>)
        ensures
            r is Ok <==> valid_authority(authority@),
            r matches Ok(u) ==> u@ == (UUriModel {
                authority: authority@,
                ue_id: entity_id,
                version: entity_version,
                resource: resource_id,
            }),
            r matches Err(e) ==> e.text() == invalid_authority_text(),
    {
        if !is_valid_authority(authority) {
            return Err(validation_error("invalid authority name"));
        }
        Ok(UUri {
            authority_name: authority.to_owned(),
            ue_id: entity_id,
            ue_version_major: entity_version,
            resource_id,
        })
    }

    /// Returns the authority name, which is a valid authority name.
    pub fn authority_name(&self) -> (s: &str)
        ensures
            s@ == self@.authority,
            self@.wf(),
    {
        proof { use_type_invariant(self); }
        self.authority_name.as_str()
    }

    /// Returns the complete 32-bit uEntity id.
    pub fn ue_id(&self) -> (id: u32)
        ensures
            id == self@.ue_id,
    {
        self.ue_id
    }

    /// Returns the uEntity type id (lower 16 bits of the uEntity id).
    pub fn uentity_type_id(&self) -> (id: u16)
        ensures
            id as u32 == self@.ue_id & 0xFFFF,
    {
        let id = self.ue_id;
        assert(id & 0xFFFF <= 0xFFFF) by (bit_vector);
        (id & 0xFFFF) as u16
    }

    /// Returns the uEntity instance id (upper 16 bits of the uEntity id).
    pub fn uentity_instance_id(&self) -> (id: u16)
        ensures
            id as u32 == self@.ue_id >> 16,
    {
        let id = self.ue_id;
        assert(id >> 16 <= 0xFFFF) by (bit_vector);
        (id >> 16) as u16
    }

    /// Returns the uEntity major version.
    pub fn uentity_major_version(&self) -> (v: u8)
        ensures
            v == self@.version,
    {
        self.ue_version_major
    }

    /// Returns the resource id.
    pub fn resource_id(&self) -> (id: u16)
        ensures
            id == self@.resource,
    {
        self.resource_id
    }

    /// Returns whether any part of this URI is a wildcard.
    pub fn has_wildcard(&self) -> (b: bool)
        ensures
            b == self@.has_wildcard(),
    {
        let wildcard_authority = self.authority_name.as_str().unicode_len() == 1
            && self.authority_name.as_str().get_char(0) == '*';
        proof {
            if self@.authority == seq!['*'] {
                assert(self@.authority[0] == '*');
            }
            if wildcard_authority {
                assert(self@.authority =~= seq!['*']);
            }
        }
        wildcard_authority || self.ue_id & 0xFFFF_0000 == 0xFFFF_0000
            || self.ue_id & 0x0000_FFFF == 0x0000_FFFF
            || self.ue_version_major == WILDCARD_ENTITY_VERSION
            || self.resource_id == WILDCARD_RESOURCE_ID
    }

    /// Returns whether this is an RPC reply-to address (resource id 0).
    pub fn is_rpc_response(&self) -> (b: bool)
        ensures
            b == (self@.resource == RESOURCE_ID_RESPONSE),
    {
        self.resource_id == RESOURCE_ID_RESPONSE
    }

    /// Returns whether this URI may be the destination of a notification
    /// (resource id 0).
    pub fn is_notification_destination(&self) -> (b: bool)
        ensures
            b == (self@.resource == RESOURCE_ID_RESPONSE),
    {
        self.resource_id == RESOURCE_ID_RESPONSE
    }

    /// Returns whether this URI is an event topic (resource id `0x8000..=0xFFFE`).
    pub fn is_event(&self) -> (b: bool)
        ensures
            b == (self@.resource >= RESOURCE_ID_MIN_EVENT && self@.resource != WILDCARD_RESOURCE_ID),
    {
        self.resource_id >= RESOURCE_ID_MIN_EVENT && self.resource_id != WILDCARD_RESOURCE_ID
    }

    /// Returns whether this URI is an RPC method (resource id `0x0001..=0x7FFF`).
    pub fn is_rpc_method(&self) -> (b: bool)
        ensures
            b == (1 <= self@.resource && self@.resource < RESOURCE_ID_MIN_EVENT),
    {
        1 <= self.resource_id && self.resource_id < RESOURCE_ID_MIN_EVENT
    }

    /// Fails if any part of this URI is a wildcard.
    pub fn verify_no_wildcards(&self) -> (r: Result<(), UUriError>)
        ensures
            r is Ok <==> !self@.has_wildcard(),
            r matches Err(e) ==> e.text() == wildcard_error_text(),
    {
        if self.has_wildcard() {
            Err(validation_error("URI contains wildcards"))
        } else {
            Ok(())
        }
    }

    /// Fails unless this URI is a wildcard-free event topic.
    pub fn verify_event(&self) -> (r: Result<(), UUriError>)
        ensures
            r is Ok <==> self@.is_valid_event(),
            r matches Err(e) ==> e.text() == event_error_text(self@),
    {
        if self.has_wildcard() {
            Err(validation_error("URI contains wildcards"))
        } else if !self.is_event() {
            Err(validation_error("resource ID does not map to an event"))
        } else {
            Ok(())
        }
    }

    /// Fails unless this URI is a wildcard-free RPC method address.
    pub fn verify_rpc_method(&self) -> (r: Result<(), UUriError>)
        ensures
            r is Ok <==> self@.is_valid_rpc_method(),
            r matches Err(e) ==> e.text() == rpc_method_error_text(self@),
    {
        if self.has_wildcard() {
            Err(validation_error("URI contains wildcards"))
        } else if !self.is_rpc_method() {
            Err(validation_error("resource ID does not map to an RPC method"))
        } else {
            Ok(())
        }
    }

    /// Fails unless this URI is a wildcard-free RPC reply-to address.
    pub fn verify_rpc_response(&self) -> (r: Result<(), UUriError>)
        ensures
            r is Ok <==> self@.is_valid_rpc_response(),
            r matches Err(e) ==> e.text() == rpc_response_error_text(self@),
    {
        if self.has_wildcard() {
            Err(validation_error("URI contains wildcards"))
        } else if !self.is_rpc_response() {
            Err(validation_error("resource ID is not an RPC response resource ID"))
        } else {
            Ok(())
        }
    }
}

} // verus!
