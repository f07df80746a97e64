//! The uniform output shape of a tool call: an ordered list of content
//! items, and the mode of the calling client that decides how images are
//! rendered into it.

use vstd::prelude::*;

verus! {

/// One item of a tool call's reply.
#[derive(Debug, Clone)]
pub enum ContentItem {
    /// Plain text.
    Text(String),
    /// An inline image, carried as base64 text with its media type.
    Image { data: String, media_type: String },
}

/// How the calling client wants images delivered: written to disk and
/// referenced by path, or inline.
#[derive(Debug, Clone, Copy, PartialEq, Eq, Structural)]
pub enum ClientMode {
    /// The one specially recognised client: images are saved to files and the
    /// reply carries their paths inside a single JSON text item.
    Augment,
    /// Every other client: images are inline, followed by a combined text
    /// block.
    Generic,
}

/// The client-mode setting recognised, case-insensitively, as the special
/// client.
pub open spec fn augment_mode_name() -> Seq<char> {
    "augment"@
}

/// The mode selected by the client signal: `Augment` exactly when the
/// lower-cased setting equals the recognised name.
pub open spec fn mode_of_signal(setting: Option<Seq<char>>) -> ClientMode {
    match setting {
        Some(s) => if crate::strutil::lower_of(s) == augment_mode_name() {
            ClientMode::Augment
        } else {
            ClientMode::Generic
        },
        None => ClientMode::Generic,
    }
}

/// Decides the client mode from the environment-style setting, when present:
/// a case-insensitive match against the one recognised value; anything else,
/// or no setting, selects generic shaping.
pub fn client_mode_of(setting: Option<&String>) -> (r: ClientMode)
    ensures
        r == mode_of_signal(match setting {
            Some(s) => Some(s@),
            None => None::<Seq<char>>,
        }),
{
    match setting {
        Some(s) => {
            let lowered = crate::strutil::to_lowercase(s.as_str());
            if crate::strutil::str_eq_str(lowered.as_str(), "augment") {
                ClientMode::Augment
            } else {
                ClientMode::Generic
            }
        },
        None => ClientMode::Generic,
    }
}

} // verus!
