//! Sessions: opening one from a configuration, closing it, and what is left of
//! its handle.

use vstd::prelude::*;

use crate::handle::gravestone;
use crate::handle::is_live;
use crate::handle::live;
use crate::handle::state_of;
use crate::handle::take;
use crate::handle::Moved;
use crate::handle::Owned;
use crate::keyexpr::characters;
use crate::result::ZResult;
use crate::result::Z_EINVAL;
use crate::result::Z_ENETWORK;
use crate::result::Z_ENULL;
use crate::result::Z_OK;
use crate::slice::SliceRepr;
use crate::string::same_text;
use crate::string::z_view_string_t;

verus! {

/// A configuration: the first value under each key that is read, where there is
/// one.
pub struct ConfigState {
    /// Where to connect to.
    pub connect: Option<String>,
    /// Where to listen.
    pub listen: Option<String>,
    /// The role to take.
    pub mode: Option<String>,
    /// How long to scout, in milliseconds.
    pub scouting_timeout: Option<String>,
    /// Where to scout.
    pub multicast_locator: Option<String>,
    /// The identity to take.
    pub session_zid: Option<String>,
}

/// An owned configuration.
pub type z_owned_config_t = Owned<ConfigState>;

/// A configuration on its way to be consumed.
pub type z_moved_config_t = Moved<ConfigState>;

/// A session: which one it is, and whether it has been closed.
#[derive(Clone, Copy, Debug, PartialEq, Eq, Structural)]
pub struct SessionState {
    /// Which shared session this handle is on.
    pub shared: u64,
    pub closed: bool,
}

/// An owned session.
pub type z_owned_session_t = Owned<SessionState>;

/// A borrowed session: the same slot.
pub type z_loaned_session_t = Owned<SessionState>;

/// A session on its way to be consumed.
pub type z_moved_session_t = Moved<SessionState>;

/// The role a session takes.
#[derive(Clone, Copy, Debug, PartialEq, Eq, Structural)]
pub enum WhatAmI {
    Router,
    Peer,
    Client,
}

/// The role that a mode names: a client's, where it names none.
pub open spec fn role_of(mode: Option<Seq<char>>) -> WhatAmI {
    if mode == Some("peer"@) {
        WhatAmI::Peer
    } else if mode == Some("router"@) {
        WhatAmI::Router
    } else {
        WhatAmI::Client
    }
}

/// The role a configuration asks for.
pub fn dial_whatami(cfg: &ConfigState) -> (role: WhatAmI)
    ensures
        role == role_of(characters(cfg.mode)),
{
    match &cfg.mode {
        Some(mode) => {
            proof {
                reveal_strlit("peer");
                reveal_strlit("router");
                assert("peer"@[0] == 'p' && "router"@[0] == 'r');
            }
            if same_text(mode.as_str(), "peer") {
                WhatAmI::Peer
            } else if same_text(mode.as_str(), "router") {
                WhatAmI::Router
            } else {
                WhatAmI::Client
            }
        },
        None => WhatAmI::Client,
    }
}

/// How a session is opened: there is nothing to choose.
#[derive(Clone, Copy, Debug, PartialEq, Eq, Structural)]
pub struct z_open_options_t {
    /// Never read.
    pub _dummy: u8,
}

/// How a session is closed.
#[derive(Clone, Copy, Debug, PartialEq, Eq, Structural)]
pub struct z_close_options_t {
    /// In milliseconds; 0 is the default.
    pub internal_timeout_ms: u32,
    /// Where a handle on a close that goes on would be put. A close is over when
    /// it returns, so nothing is ever put there.
    pub internal_out_concurrent: usize,
}

/// Fills in the default open options.
pub fn z_open_options_default(this_: Option<&mut z_open_options_t>)
    ensures
        this_ matches Some(slot) ==> *final(slot) == (z_open_options_t { _dummy: 0 }),
{
    if let Some(slot) = this_ {
        *slot = z_open_options_t { _dummy: 0 };
    }
}

/// Fills in the default close options.
pub fn z_close_options_default(this_: Option<&mut z_close_options_t>)
    ensures
        this_ matches Some(slot) ==> *final(slot) == (z_close_options_t {
            internal_timeout_ms: 0,
            internal_out_concurrent: 0,
        }),
{
    if let Some(slot) = this_ {
        *slot = z_close_options_t { internal_timeout_ms: 0, internal_out_concurrent: 0 };
    }
}

/// A session to be opened: at one end of one link, in a role.
pub enum OpenRequest {
    Connect { endpoint: String, role: WhatAmI },
    Listen { endpoint: String, role: WhatAmI },
}

/// What a configuration asks to be opened. One that names no endpoint, or both,
/// asks for nothing that can be.
pub open spec fn asked_for(cfg: ConfigState) -> Option<OpenRequest> {
    let role = role_of(characters(cfg.mode));
    match (cfg.connect, cfg.listen) {
        (Some(endpoint), None) => Some(OpenRequest::Connect { endpoint, role }),
        (None, Some(endpoint)) => Some(OpenRequest::Listen { endpoint, role }),
        _ => None,
    }
}

/// What opening a session on a live configuration comes to.
pub open spec fn session_opened<F: FnOnce(OpenRequest) -> Option<u64>>(
    open: F,
    cfg: ConfigState,
    slot: z_owned_session_t,
    code: ZResult,
) -> bool {
    match asked_for(cfg) {
        None => code == Z_EINVAL && slot.state is None,
        Some(request) => if code == Z_OK {
            &&& slot.state is Some
            &&& !slot.state->0.closed
            &&& call_ensures(open, (request,), Some(slot.state->0.shared))
        } else {
            &&& code == Z_ENETWORK
            &&& slot.state is None
            &&& call_ensures(open, (request,), None)
        },
    }
}

/// Opens a session. The configuration is consumed once both slots are there. One
/// with no endpoint, or with both, opens nothing. `open` establishes the link and
/// answers with nothing where it cannot.
pub fn z_open<F: FnOnce(OpenRequest) -> Option<u64>>(
    this_: Option<&mut z_owned_session_t>,
    config: Option<&mut z_moved_config_t>,
    _options: Option<&z_open_options_t>,
    open: F,
) -> (code: ZResult)
    requires
        (this_, config) matches (Some(_), Some(moved)) ==> (moved._this.state matches Some(cfg) ==> (
        asked_for(cfg) matches Some(request) ==> call_requires(open, (request,)))),
    ensures
        match (this_, config) {
            (Some(slot), Some(moved)) => {
                &&& final(moved)._this.state is None
                &&& match moved._this.state {
                    Some(cfg) => session_opened(open, cfg, *final(slot), code),
                    None => code == Z_ENULL && final(slot).state is None,
                }
            },
            (Some(slot), None) => code == Z_ENULL && *final(slot) == *slot,
            (None, Some(moved)) => code == Z_ENULL && *final(moved) == *moved,
            (None, None) => code == Z_ENULL,
        },
{
    let (slot, moved) = match (this_, config) {
        (Some(slot), Some(moved)) => (slot, moved),
        _ => {
            return Z_ENULL;
        },
    };
    slot.state = None;
    let cfg = match take(Some(moved)) {
        Some(cfg) => cfg,
        None => {
            return Z_ENULL;
        },
    };
    let role = dial_whatami(&cfg);
    let request = match (cfg.connect, cfg.listen) {
        (Some(endpoint), None) => OpenRequest::Connect { endpoint, role },
        (None, Some(endpoint)) => OpenRequest::Listen { endpoint, role },
        _ => {
            return Z_EINVAL;
        },
    };
    match open(request) {
        Some(shared) => {
            slot.state = Some(SessionState { shared, closed: false });
            Z_OK
        },
        None => Z_ENETWORK,
    }
}

/// Closes a session: the link to be shut down, where it was not yet. The handle
/// stays, on a closed session.
pub fn z_close(
    session: Option<&mut z_loaned_session_t>,
    _options: Option<&z_close_options_t>,
) -> (r: (ZResult, Option<u64>))
    ensures
        match session {
            None => r == (Z_ENULL, None::<u64>),
            Some(slot) => match slot.state {
                None => r == (Z_ENULL, None::<u64>) && *final(slot) == *slot,
                Some(state) => {
                    &&& r.0 == Z_OK
                    &&& r.1 == due_close(Some(state))
                    &&& final(slot).state == Some(SessionState { closed: true, ..state })
                },
            },
        },
{
    match session {
        None => (Z_ENULL, None),
        Some(slot) => match &mut slot.state {
            None => (Z_ENULL, None),
            Some(state) => {
                let due = if state.closed {
                    None
                } else {
                    Some(state.shared)
                };
                state.closed = true;
                (Z_OK, due)
            },
        },
    }
}

/// The link that is still up behind a session, if any.
pub open spec fn due_close(state: Option<SessionState>) -> Option<u64> {
    match state {
        Some(state) if !state.closed => Some(state.shared),
        _ => None,
    }
}

/// Whether a session is closed. With no live session there is none that is open.
pub fn z_session_is_closed(session: Option<&z_loaned_session_t>) -> (r: bool)
    ensures
        r == (live(session) matches Some(state) ==> state.closed),
{
    match state_of(session) {
        Some(state) => state.closed,
        None => true,
    }
}

/// Whether an owned session is live.
pub fn z_internal_session_check(this_: Option<&z_owned_session_t>) -> (r: bool)
    ensures
        r == (live(this_) is Some),
{
    is_live(this_)
}

/// Makes an owned session the gravestone.
pub fn z_internal_session_null(this_: Option<&mut z_owned_session_t>)
    ensures
        this_ matches Some(slot) ==> final(slot).state is None,
{
    gravestone(this_)
}

/// Borrows a session.
pub fn z_session_loan(this_: Option<&z_owned_session_t>) -> (loaned: Option<&z_loaned_session_t>)
    ensures
        loaned == this_,
{
    this_
}

/// Borrows a session to change it.
pub fn z_session_loan_mut(this_: Option<&mut z_owned_session_t>) -> (loaned: Option<
    &mut z_loaned_session_t,
>)
    ensures
        loaned == this_,
{
    this_
}

/// Drops a session: it is closed first, where it was not yet.
pub fn z_session_drop(this_: Option<&mut z_moved_session_t>) -> (due: Option<u64>)
    ensures
        match this_ {
            Some(moved) => {
                &&& due == due_close(moved._this.state)
                &&& final(moved)._this.state is None
            },
            None => due is None,
        },
{
    match take(this_) {
        Some(state) => if state.closed {
            None
        } else {
            Some(state.shared)
        },
        None => None,
    }
}

/// A link is shut down once, however often its session is closed and dropped.
pub proof fn lemma_a_session_is_shut_down_once(state: SessionState)
    ensures
        !state.closed ==> due_close(Some(state)) == Some(state.shared),
        due_close(Some(SessionState { closed: true, ..state })) is None,
        due_close(None) is None,
{
}

/// A handle on a close that goes on. There is none, so it is always a gravestone.
pub struct ConcurrentClose {}

/// An owned handle on a close that goes on.
pub type zc_owned_concurrent_close_handle_t = Owned<ConcurrentClose>;

/// Such a handle on its way to be consumed.
pub type zc_moved_concurrent_close_handle_t = Moved<ConcurrentClose>;

/// Waits for a close to end. A close is over when it returns.
pub fn zc_concurrent_close_handle_wait(
    handle: Option<&mut zc_moved_concurrent_close_handle_t>,
) -> (code: ZResult)
    ensures
        code == Z_OK,
        handle matches Some(moved) ==> final(moved)._this.state is None,
{
    zc_concurrent_close_handle_drop(handle);
    Z_OK
}

/// Drops a handle on a close that goes on.
pub fn zc_concurrent_close_handle_drop(this_: Option<&mut zc_moved_concurrent_close_handle_t>)
    ensures
        this_ matches Some(moved) ==> final(moved)._this.state is None,
{
    if let Some(moved) = this_ {
        moved._this.state = None;
    }
}

/// Whether a handle is on a close that goes on.
pub fn zc_internal_concurrent_close_handle_check(
    this_: Option<&zc_owned_concurrent_close_handle_t>,
) -> (r: bool)
    ensures
        r == (live(this_) is Some),
{
    is_live(this_)
}

/// Makes a handle the gravestone.
pub fn zc_internal_concurrent_close_handle_null(
    this_: Option<&mut zc_owned_concurrent_close_handle_t>,
)
    ensures
        this_ matches Some(slot) ==> final(slot).state is None,
{
    gravestone(this_)
}

/// The last error: none is recorded beside the codes, so the view is empty.
pub fn zc_get_last_error(out: Option<&mut z_view_string_t>)
    ensures
        out matches Some(slot) ==> *final(slot) is Null,
{
    if let Some(slot) = out {
        *slot = SliceRepr::Null;
    }
}

} // verus!
