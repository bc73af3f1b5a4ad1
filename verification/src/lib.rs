//! Meta-family Prism adapters with separate provider semantics and shared
//! primitives: verified value checks, Graph error classification, endpoint
//! construction and the publish/validate decisions of the Instagram,
//! Facebook Page and WhatsApp adapters.
//!
//! OAuth lifecycle, token persistence, account ownership, channel
//! configuration and the HTTP calls themselves remain outside this library.
use vstd::prelude::*;

pub mod delivery;
pub mod facebook;
pub mod graph_url;
pub mod instagram;
pub mod text;
pub mod transport_error;
pub mod values;
pub mod whatsapp;

pub use facebook::{FacebookBinding, FACEBOOK_PROVIDER_ID};
pub use graph_url::{validated_api_base, GraphApiBase, MetaTransportConfigError};
pub use instagram::{InstagramBinding, INSTAGRAM_PROVIDER_ID};
pub use transport_error::{classify_graph_error, MetaTransportError, MetaTransportErrorKind};
pub use values::{MetaAccessToken, MetaExternalId, MetaNumericId, MetaValueError, PublicMediaUrl};
pub use whatsapp::{WhatsAppBinding, WhatsAppRecipient, WHATSAPP_PROVIDER_ID};

verus! {

} // verus!
