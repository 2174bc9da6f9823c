//! Edits of the servers.

use crate::local_access::LOCAL_PROVIDER_ID;
use crate::model::events::{
    PreparedServerSettingsUpdate, PreparedServerSettingsUpdateView, ServerSettingsInput,
    ServerSettingsInputView, ServerSettingsReauthRequest, ServerSettingsReauthRequestView,
};
use crate::model::source::{
    ProviderSession, ProviderSessionView, SavedServer, SavedServerView, ServerIdentityView,
};
use crate::providers::{kind_of, streaming_provider};
use crate::text::{self, trimmed};
use crate::value::Value;
use vstd::prelude::*;

verus! {

pub const NO_ADDRESS: &'static str = "Enter a server address.";

pub const NO_USERNAME: &'static str = "Enter a username.";

pub const NO_PASSWORD: &'static str =
    "Enter the server password to save address or username changes.";

pub const UNKNOWN_PROVIDER: &'static str = "Saved server provider is no longer supported.";

pub const OTHER_PROVIDER: &'static str = "Authenticated provider did not match the saved server.";

/// What a server becomes by an edit: local folders keep all but their name.
pub open spec fn wanted(
    saved: SavedServerView,
    input: ServerSettingsInputView,
) -> PreparedServerSettingsUpdateView {
    let remote = saved.server.provider != LOCAL_PROVIDER_ID@;
    PreparedServerSettingsUpdateView {
        saved,
        next_name: trimmed(input.name),
        next_base_url: if remote {
            trimmed(input.base_url)
        } else {
            saved.server.base_url
        },
        next_username: if remote {
            trimmed(input.username)
        } else {
            saved.username
        },
        next_trust_invalid_cert: if remote {
            input.trust_invalid_cert
        } else {
            saved.trust_invalid_cert
        },
        reauth: None,
    }
}

/// Whether an edit needs a login: another address or user, or a password that was entered.
pub open spec fn needs_login(saved: SavedServerView, input: ServerSettingsInputView) -> bool {
    let next = wanted(saved, input);
    saved.server.provider != LOCAL_PROVIDER_ID@ && (saved.server.base_url != next.next_base_url
        || saved.username != next.next_username || input.password.len() > 0)
}

/// Whether an edit changes anything.
pub open spec fn changes(saved: SavedServerView, input: ServerSettingsInputView) -> bool {
    let next = wanted(saved, input);
    saved.server.name != next.next_name || saved.trust_invalid_cert
        != next.next_trust_invalid_cert || needs_login(saved, input)
}

/// The edit of a server as it is to be done: nothing where nothing changes, or what is wrong
/// with it.
pub open spec fn prepared(saved: SavedServerView, input: ServerSettingsInputView) -> Result<
    Option<PreparedServerSettingsUpdateView>,
    Seq<char>,
> {
    let remote = saved.server.provider != LOCAL_PROVIDER_ID@;
    let next = wanted(saved, input);
    if remote && next.next_base_url.len() == 0 {
        Err(NO_ADDRESS@)
    } else if remote && next.next_username.len() == 0 {
        Err(NO_USERNAME@)
    } else if needs_login(saved, input) && input.password.len() == 0 {
        Err(NO_PASSWORD@)
    } else if !changes(saved, input) {
        Ok(None)
    } else if !needs_login(saved, input) {
        Ok(Some(next))
    } else {
        match kind_of(saved.server.provider) {
            None => Err(UNKNOWN_PROVIDER@),
            Some(provider) => Ok(
                Some(
                    PreparedServerSettingsUpdateView {
                        reauth: Some(
                            ServerSettingsReauthRequestView {
                                provider,
                                base_url: next.next_base_url,
                                username: next.next_username,
                                password: input.password,
                                trust_invalid_cert: next.next_trust_invalid_cert,
                            },
                        ),
                        ..next
                    },
                ),
            ),
        }
    }
}

/// Whether nothing is left in a text.
fn is_empty(value: &String) -> (result: bool)
    ensures
        result == (value@.len() == 0),
{
    let result: bool = value.same(&String::new());
    assert(result ==> value@ == Seq::<char>::empty());
    assert(value@.len() == 0 ==> value@ =~= Seq::<char>::empty());
    result
}

/// Checks an edit of a server and prepares it.
pub fn prepare_server_settings_update(saved: SavedServer, input: ServerSettingsInput) -> (result:
    Result<Option<PreparedServerSettingsUpdate>, String>)
    ensures
        match prepared(saved.deep_view(), input.deep_view()) {
            Ok(update) => result matches Ok(given) && given.deep_view() == update,
            Err(message) => result matches Err(error) && error@ == message,
        },
{
    let remote: bool = !saved.server.provider.same(&text::owned(LOCAL_PROVIDER_ID));
    let next_name: String = text::trim(input.name.as_str());
    let next_base_url: String = if remote {
        text::trim(input.base_url.as_str())
    } else {
        saved.server.base_url.copy()
    };
    let next_username: String = if remote {
        text::trim(input.username.as_str())
    } else {
        saved.username.copy()
    };
    let next_trust_invalid_cert: bool = if remote {
        input.trust_invalid_cert
    } else {
        saved.trust_invalid_cert
    };
    if remote && is_empty(&next_base_url) {
        return Err(text::owned(NO_ADDRESS));
    }
    if remote && is_empty(&next_username) {
        return Err(text::owned(NO_USERNAME));
    }
    let login: bool = remote && (!saved.server.base_url.same(&next_base_url)
        || !saved.username.same(&next_username) || !is_empty(&input.password));
    if login && is_empty(&input.password) {
        return Err(text::owned(NO_PASSWORD));
    }
    let changed: bool = !saved.server.name.same(&next_name) || saved.trust_invalid_cert
        != next_trust_invalid_cert || login;
    if !changed {
        return Ok(None);
    }
    let reauth: Option<ServerSettingsReauthRequest> = if login {
        match streaming_provider(&saved.server.provider) {
            None => {
                return Err(text::owned(UNKNOWN_PROVIDER));
            },
            Some(provider) => Some(
                ServerSettingsReauthRequest {
                    provider,
                    base_url: next_base_url.copy(),
                    username: next_username.copy(),
                    password: input.password,
                    trust_invalid_cert: next_trust_invalid_cert,
                },
            ),
        }
    } else {
        None
    };
    Ok(
        Some(
            PreparedServerSettingsUpdate {
                saved,
                next_name,
                next_base_url,
                next_username,
                next_trust_invalid_cert,
                reauth,
            },
        ),
    )
}

/// The server that an edit makes; a login tells the address and the user as the server knows
/// them.
pub open spec fn edited(
    update: PreparedServerSettingsUpdateView,
    session: Option<ProviderSessionView>,
) -> SavedServerView {
    SavedServerView {
        server: ServerIdentityView {
            name: update.next_name,
            base_url: match session {
                Some(session) => session.server.base_url,
                None => update.next_base_url,
            },
            ..update.saved.server
        },
        user_id: match session {
            Some(session) => session.user_id,
            None => update.saved.user_id,
        },
        username: match session {
            Some(session) => session.username,
            None => update.next_username,
        },
        trust_invalid_cert: update.next_trust_invalid_cert,
    }
}

/// The server that an edit makes.
pub fn next_saved_server(
    update: &PreparedServerSettingsUpdate,
    session: &Option<ProviderSession>,
) -> (result: SavedServer)
    ensures
        result.deep_view() == edited(update.deep_view(), session.deep_view()),
{
    let mut saved: SavedServer = update.saved.copy();
    saved.server.name = update.next_name.copy();
    saved.trust_invalid_cert = update.next_trust_invalid_cert;
    match session {
        Some(session) => {
            saved.server.base_url = session.server.base_url.copy();
            saved.username = session.username.copy();
            saved.user_id = session.user_id.copy();
        },
        None => {
            saved.server.base_url = update.next_base_url.copy();
            saved.username = update.next_username.copy();
        },
    }
    saved
}

/// Whether a login was one of another server or user than the one that is kept.
pub open spec fn identity_changed(saved: SavedServerView, session: ProviderSessionView) -> bool {
    saved.server.provider != session.server.provider || saved.server.id != session.server.id
        || saved.user_id != session.user_id
}

/// Whether a login was one of another server or user than the one that is kept.
pub fn authenticated_identity_changed(saved: &SavedServer, session: &ProviderSession) -> (result:
    bool)
    ensures
        result == identity_changed(saved.deep_view(), session.deep_view()),
{
    !saved.server.provider.same(&session.server.provider) || !saved.server.id.same(
        &session.server.id,
    ) || !saved.user_id.same(&session.user_id)
}

/// An edit never changes which source it is, nor of what kind.
pub proof fn edits_keep_the_source(
    update: PreparedServerSettingsUpdateView,
    session: Option<ProviderSessionView>,
)
    ensures
        edited(update, session).server.id == update.saved.server.id,
        edited(update, session).server.provider == update.saved.server.provider,
{
}

/// A new address or user is never taken over without a login.
pub proof fn credentials_change_only_by_login(
    saved: SavedServerView,
    input: ServerSettingsInputView,
    update: PreparedServerSettingsUpdateView,
)
    requires
        prepared(saved, input) == Ok::<Option<PreparedServerSettingsUpdateView>, Seq<char>>(
            Some(update),
        ),
        update.reauth is None,
    ensures
        edited(update, None).server.base_url == saved.server.base_url,
        edited(update, None).username == saved.username,
        edited(update, None).user_id == saved.user_id,
{
}

/// An edit that is taken has the name, the address, the user and the trust that were put in,
/// without the white space around them; local folders take a new name alone.
pub proof fn edits_take_what_was_put_in(saved: SavedServerView, input: ServerSettingsInputView)
    ensures
        prepared(saved, input) matches Ok(Some(update)) ==> {
            &&& update.saved == saved
            &&& update.next_name == trimmed(input.name)
            &&& saved.server.provider != "local"@ ==> update.next_base_url == trimmed(
                input.base_url,
            ) && update.next_username == trimmed(input.username) && update.next_trust_invalid_cert
                == input.trust_invalid_cert
            &&& saved.server.provider == "local"@ ==> update.next_base_url
                == saved.server.base_url && update.next_username == saved.username
                && update.reauth is None
            &&& update.reauth matches Some(reauth) ==> reauth.base_url == update.next_base_url
                && reauth.username == update.next_username && reauth.password == input.password
                && reauth.trust_invalid_cert == update.next_trust_invalid_cert
        },
        saved.server.provider != "local"@ && trimmed(input.base_url).len() == 0 ==> prepared(
            saved,
            input,
        ) == Err::<Option<PreparedServerSettingsUpdateView>, Seq<char>>(NO_ADDRESS@),
        saved.server.provider != "local"@ && trimmed(input.base_url).len() > 0 && trimmed(
            input.username,
        ).len() == 0 ==> prepared(saved, input) == Err::<
            Option<PreparedServerSettingsUpdateView>,
            Seq<char>,
        >(NO_USERNAME@),
        saved.server.provider != "local"@ && trimmed(input.base_url).len() > 0 && trimmed(
            input.username,
        ).len() > 0 && trimmed(input.base_url) != saved.server.base_url && input.password.len()
            == 0 ==> prepared(saved, input) == Err::<
            Option<PreparedServerSettingsUpdateView>,
            Seq<char>,
        >(NO_PASSWORD@),
{
}

/// What was put in is kept: the name and the trust as wanted, and after a login the address and
/// the user that the server gave.
pub proof fn edits_are_kept_as_wanted(
    update: PreparedServerSettingsUpdateView,
    session: ProviderSessionView,
)
    ensures
        edited(update, None).server.name == update.next_name,
        edited(update, None).server.base_url == update.next_base_url,
        edited(update, None).username == update.next_username,
        edited(update, None).user_id == update.saved.user_id,
        edited(update, None).trust_invalid_cert == update.next_trust_invalid_cert,
        edited(update, Some(session)).server.name == update.next_name,
        edited(update, Some(session)).server.base_url == session.server.base_url,
        edited(update, Some(session)).username == session.username,
        edited(update, Some(session)).user_id == session.user_id,
        edited(update, Some(session)).trust_invalid_cert == update.next_trust_invalid_cert,
        identity_changed(update.saved, session) <==> session.server.id != update.saved.server.id
            || session.user_id != update.saved.user_id || session.server.provider
            != update.saved.server.provider,
{
}

} // verus!
