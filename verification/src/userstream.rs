//! The requests that open, renew and close a session of account messages.

use crate::api::{Futures, Spot, API};
use crate::codec::optional_text_view;
use vstd::prelude::*;
use vstd::string::*;

verus! {

/// What a request asks the endpoint to do.
#[derive(Debug, Clone, Copy, PartialEq, Eq)]
pub enum Verb {
    /// Open a session.
    Post,
    /// Keep a session open.
    Put,
    /// Close a session.
    Delete,
}

/// A request about a session of account messages, ready to be sent: what is
/// asked, of which endpoint, and for which session.
#[derive(Debug, Clone, PartialEq, Eq)]
pub struct SessionCall {
    pub verb: Verb,
    pub api: API,
    /// The key of the session; none where the request opens one.
    pub listen_key: Option<String>,
}

/// What a `SessionCall` holds, as mathematical values.
pub struct SessionCallView {
    pub verb: Verb,
    pub api: API,
    pub listen_key: Option<Seq<char>>,
}

impl View for SessionCall {
    type V = SessionCallView;

    open spec fn view(&self) -> SessionCallView {
        SessionCallView {
            verb: self.verb,
            api: self.api,
            listen_key: optional_text_view(self.listen_key),
        }
    }
}

/// The requests that open, renew and close a session of account messages.
/// Sending them is left to the caller.
#[derive(Debug, Clone)]
pub struct UserStream {
    pub recv_window: u64,
}

impl UserStream {
    /// The request that opens a session in the spot segment.
    pub fn start(&self) -> (r: SessionCall)
        ensures
            r@ == (SessionCallView {
                verb: Verb::Post,
                api: API::Spot(Spot::UserDataStream),
                listen_key: None,
            }),
    {
        SessionCall { verb: Verb::Post, api: API::Spot(Spot::UserDataStream), listen_key: None }
    }

    /// The request that opens a session in the derivatives segment.
    pub fn start_futures(&self) -> (r: SessionCall)
        ensures
            r@ == (SessionCallView {
                verb: Verb::Post,
                api: API::Futures(Futures::UserDataStream),
                listen_key: None,
            }),
    {
        SessionCall {
            verb: Verb::Post,
            api: API::Futures(Futures::UserDataStream),
            listen_key: None,
        }
    }

    /// The request that keeps the session `listen_key` of the spot segment
    /// open.
    pub fn keep_alive(&self, listen_key: &str) -> (r: SessionCall)
        ensures
            r@ == (SessionCallView {
                verb: Verb::Put,
                api: API::Spot(Spot::UserDataStream),
                listen_key: Some(listen_key@),
            }),
    {
        SessionCall {
            verb: Verb::Put,
            api: API::Spot(Spot::UserDataStream),
            listen_key: Some(String::from_str(listen_key)),
        }
    }

    /// The request that keeps the session `listen_key` of the derivatives
    /// segment open.
    pub fn keep_alive_futures(&self, listen_key: &str) -> (r: SessionCall)
        ensures
            r@ == (SessionCallView {
                verb: Verb::Put,
                api: API::Futures(Futures::UserDataStream),
                listen_key: Some(listen_key@),
            }),
    {
        SessionCall {
            verb: Verb::Put,
            api: API::Futures(Futures::UserDataStream),
            listen_key: Some(String::from_str(listen_key)),
        }
    }

    /// The request that closes the session `listen_key` of the spot segment.
    pub fn close(&self, listen_key: &str) -> (r: SessionCall)
        ensures
            r@ == (SessionCallView {
                verb: Verb::Delete,
                api: API::Spot(Spot::UserDataStream),
                listen_key: Some(listen_key@),
            }),
    {
        SessionCall {
            verb: Verb::Delete,
            api: API::Spot(Spot::UserDataStream),
            listen_key: Some(String::from_str(listen_key)),
        }
    }

    /// The request that closes the session `listen_key` of the derivatives
    /// segment.
    pub fn close_futures(&self, listen_key: &str) -> (r: SessionCall)
        ensures
            r@ == (SessionCallView {
                verb: Verb::Delete,
                api: API::Futures(Futures::UserDataStream),
                listen_key: Some(listen_key@),
            }),
    {
        SessionCall {
            verb: Verb::Delete,
            api: API::Futures(Futures::UserDataStream),
            listen_key: Some(String::from_str(listen_key)),
        }
    }
}

} // verus!
