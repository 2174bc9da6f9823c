//! The kinds of source and their names.

use crate::model::source::StreamingProvider;
use crate::text;
use crate::value::Value;
use vstd::prelude::*;

verus! {

/// The name by which sources of a kind are kept.
pub open spec fn id_of(provider: StreamingProvider) -> Seq<char> {
    match provider {
        StreamingProvider::Jellyfin => "jellyfin"@,
        StreamingProvider::Subsonic => "subsonic"@,
    }
}

/// The name by which a kind of server is shown.
pub open spec fn title_of(provider: StreamingProvider) -> Seq<char> {
    match provider {
        StreamingProvider::Jellyfin => "Jellyfin"@,
        StreamingProvider::Subsonic => "Subsonic"@,
    }
}

impl StreamingProvider {
    /// The name by which sources of this kind are kept.
    pub fn provider_id(self) -> (result: &'static str)
        ensures
            result@ == id_of(self),
    {
        match self {
            StreamingProvider::Jellyfin => "jellyfin",
            StreamingProvider::Subsonic => "subsonic",
        }
    }

    /// The name by which this kind of server is shown.
    pub fn title(self) -> (result: &'static str)
        ensures
            result@ == title_of(self),
    {
        match self {
            StreamingProvider::Jellyfin => "Jellyfin",
            StreamingProvider::Subsonic => "Subsonic",
        }
    }
}

/// The kind of server that is kept under a name.
pub open spec fn kind_of(provider_id: Seq<char>) -> Option<StreamingProvider> {
    if provider_id == "jellyfin"@ {
        Some(StreamingProvider::Jellyfin)
    } else if provider_id == "subsonic"@ {
        Some(StreamingProvider::Subsonic)
    } else {
        None
    }
}

/// The kind of server that is kept under a name.
pub fn streaming_provider(provider_id: &String) -> (result: Option<StreamingProvider>)
    ensures
        result == kind_of(provider_id@),
{
    if provider_id.same(&text::owned("jellyfin")) {
        Some(StreamingProvider::Jellyfin)
    } else if provider_id.same(&text::owned("subsonic")) {
        Some(StreamingProvider::Subsonic)
    } else {
        None
    }
}

/// The name by which a source is shown that is kept under a name.
pub open spec fn display_name(provider_id: Seq<char>) -> Seq<char> {
    match kind_of(provider_id) {
        Some(provider) => title_of(provider),
        None => if provider_id == "local"@ {
            "Local"@
        } else if provider_id == "fake"@ {
            "Fake"@
        } else {
            provider_id
        },
    }
}

/// The name by which a source is shown that is kept under a name.
pub fn provider_display_name(provider_id: &String) -> (result: String)
    ensures
        result@ == display_name(provider_id@),
{
    match streaming_provider(provider_id) {
        Some(provider) => text::owned(provider.title()),
        None => if provider_id.same(&text::owned("local")) {
            text::owned("Local")
        } else if provider_id.same(&text::owned("fake")) {
            text::owned("Fake")
        } else {
            provider_id.copy()
        },
    }
}

/// A kind of server is found again under the name by which its sources are kept.
pub proof fn kinds_are_found_by_their_ids(provider: StreamingProvider)
    ensures
        kind_of(id_of(provider)) == Some(provider),
{
    reveal_strlit("jellyfin");
    reveal_strlit("subsonic");
    assert("jellyfin"@[0] == 'j');
    assert("subsonic"@[0] == 's');
}

/// Each kind of source is shown by its own name; one that is not known by its identifier.
pub proof fn sources_are_shown_by_their_names(provider_id: Seq<char>)
    ensures
        display_name("jellyfin"@) == "Jellyfin"@,
        display_name("subsonic"@) == "Subsonic"@,
        display_name("local"@) == "Local"@,
        display_name("fake"@) == "Fake"@,
        provider_id != "jellyfin"@ && provider_id != "subsonic"@ && provider_id != "local"@
            && provider_id != "fake"@ ==> display_name(provider_id) == provider_id,
{
    reveal_strlit("jellyfin");
    reveal_strlit("subsonic");
    reveal_strlit("local");
    reveal_strlit("fake");
    assert("jellyfin"@[0] != "subsonic"@[0]);
    assert("local"@.len() != "jellyfin"@.len());
    assert("fake"@.len() != "jellyfin"@.len());
    assert("fake"@.len() != "local"@.len());
}

} // verus!
