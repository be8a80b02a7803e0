//! Names of the event tags that the protocol uses.

use vstd::prelude::*;

verus! {

/// Public key tag.
pub const PUBKEY: &'static str = "p";

/// Event ID tag for correlation.
pub const EVENT_ID: &'static str = "e";

/// Capability tag for pricing metadata.
pub const CAPABILITY: &'static str = "cap";

/// Name tag for server announcements.
pub const NAME: &'static str = "name";

/// Website tag for server announcements.
pub const WEBSITE: &'static str = "website";

/// Picture tag for server announcements.
pub const PICTURE: &'static str = "picture";

/// About tag for server announcements.
pub const ABOUT: &'static str = "about";

/// Support encryption tag.
pub const SUPPORT_ENCRYPTION: &'static str = "support_encryption";

/// Support ephemeral gift wraps tag.
pub const SUPPORT_ENCRYPTION_EPHEMERAL: &'static str = "support_encryption_ephemeral";

/// Event kind tag of a deletion request.
pub const KIND: &'static str = "k";

} // verus!
