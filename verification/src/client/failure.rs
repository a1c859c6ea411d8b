//! What the server ends a connection with, and what the client makes of it.

use vstd::prelude::*;
use crate::client::link::Link;
use crate::node::Node;
use crate::text::same;

verus! {

/// Why the server refused a login.
#[derive(Clone, Copy, Debug, PartialEq, Eq, Structural)]
pub enum ConnectFailureReason {
    Generic,
    LoggedOut,
    TempBanned,
    MainDeviceGone,
    UnknownLogout,
    ClientOutdated,
    BadUserAgent,
    CatExpired,
    CatInvalid,
    NotFound,
    ClientUnknown,
    InternalServerError,
    Experimental,
    ServiceUnavailable,
    Unknown(i32),
}

impl ConnectFailureReason {
    /// The reason of a given number.
    pub open spec fn of_code(code: i32) -> ConnectFailureReason {
        if code == 400 {
            ConnectFailureReason::Generic
        } else if code == 401 {
            ConnectFailureReason::LoggedOut
        } else if code == 402 {
            ConnectFailureReason::TempBanned
        } else if code == 403 {
            ConnectFailureReason::MainDeviceGone
        } else if code == 405 {
            ConnectFailureReason::ClientOutdated
        } else if code == 406 {
            ConnectFailureReason::UnknownLogout
        } else if code == 409 {
            ConnectFailureReason::BadUserAgent
        } else if code == 413 {
            ConnectFailureReason::CatExpired
        } else if code == 414 {
            ConnectFailureReason::CatInvalid
        } else if code == 415 {
            ConnectFailureReason::NotFound
        } else if code == 418 {
            ConnectFailureReason::ClientUnknown
        } else if code == 500 {
            ConnectFailureReason::InternalServerError
        } else if code == 501 {
            ConnectFailureReason::Experimental
        } else if code == 503 {
            ConnectFailureReason::ServiceUnavailable
        } else {
            ConnectFailureReason::Unknown(code)
        }
    }

    /// The account is no longer linked to this device.
    pub open spec fn ends_account(self) -> bool {
        self == ConnectFailureReason::LoggedOut || self == ConnectFailureReason::MainDeviceGone
            || self == ConnectFailureReason::UnknownLogout
    }

    /// The trouble is the server's, and another attempt may work.
    pub open spec fn passes(self) -> bool {
        self == ConnectFailureReason::ServiceUnavailable || self
            == ConnectFailureReason::InternalServerError
    }

    pub fn from_code(code: i32) -> (r: ConnectFailureReason)
        ensures
            r == ConnectFailureReason::of_code(code),
    {
        match code {
            400 => ConnectFailureReason::Generic,
            401 => ConnectFailureReason::LoggedOut,
            402 => ConnectFailureReason::TempBanned,
            403 => ConnectFailureReason::MainDeviceGone,
            405 => ConnectFailureReason::ClientOutdated,
            406 => ConnectFailureReason::UnknownLogout,
            409 => ConnectFailureReason::BadUserAgent,
            413 => ConnectFailureReason::CatExpired,
            414 => ConnectFailureReason::CatInvalid,
            415 => ConnectFailureReason::NotFound,
            418 => ConnectFailureReason::ClientUnknown,
            500 => ConnectFailureReason::InternalServerError,
            501 => ConnectFailureReason::Experimental,
            503 => ConnectFailureReason::ServiceUnavailable,
            _ => ConnectFailureReason::Unknown(code),
        }
    }

    pub fn is_logged_out(self) -> (r: bool)
        ensures
            r == self.ends_account(),
    {
        self == ConnectFailureReason::LoggedOut || self == ConnectFailureReason::MainDeviceGone
            || self == ConnectFailureReason::UnknownLogout
    }

    pub fn should_reconnect(self) -> (r: bool)
        ensures
            r == self.passes(),
    {
        self == ConnectFailureReason::ServiceUnavailable || self
            == ConnectFailureReason::InternalServerError
    }
}

/// Why an account is banned for a time.
#[derive(Clone, Copy, Debug, PartialEq, Eq, Structural)]
pub enum TempBanReason {
    SentToTooManyPeople,
    BlockedByUsers,
    CreatedTooManyGroups,
    SentTooManySameMessage,
    BroadcastList,
    Unknown(i32),
}

impl TempBanReason {
    /// The reason of a given number.
    pub open spec fn of_code(code: i32) -> TempBanReason {
        if code == 101 {
            TempBanReason::SentToTooManyPeople
        } else if code == 102 {
            TempBanReason::BlockedByUsers
        } else if code == 103 {
            TempBanReason::CreatedTooManyGroups
        } else if code == 104 {
            TempBanReason::SentTooManySameMessage
        } else if code == 106 {
            TempBanReason::BroadcastList
        } else {
            TempBanReason::Unknown(code)
        }
    }

    pub fn from_code(code: i32) -> (r: TempBanReason)
        ensures
            r == TempBanReason::of_code(code),
    {
        match code {
            101 => TempBanReason::SentToTooManyPeople,
            102 => TempBanReason::BlockedByUsers,
            103 => TempBanReason::CreatedTooManyGroups,
            104 => TempBanReason::SentTooManySameMessage,
            106 => TempBanReason::BroadcastList,
            _ => TempBanReason::Unknown(code),
        }
    }
}

/// What the server means by a stream error.
#[derive(Clone, Copy, Debug, PartialEq, Eq, Structural)]
pub enum StreamVerdict {
    /// Another session has taken this one's place.
    Replaced,
    /// This device was removed from the account.
    Removed,
    /// The stream is to be made anew, as after pairing.
    Restart,
    /// Too many attempts in too short a time.
    RateLimited,
    /// The server is not available for now.
    Unavailable,
    /// Not known.
    Unknown,
}

/// What the server means, by the stanza's code and the type of its `<conflict>` child. The
/// conflict goes before the code.
pub open spec fn stream_verdict(code: Seq<char>, conflict: Seq<char>) -> StreamVerdict {
    if conflict.len() > 0 {
        if conflict == "replaced"@ {
            StreamVerdict::Replaced
        } else {
            StreamVerdict::Removed
        }
    } else if code == "515"@ {
        StreamVerdict::Restart
    } else if code == "516"@ || code == "401"@ {
        StreamVerdict::Removed
    } else if code == "409"@ {
        StreamVerdict::Replaced
    } else if code == "429"@ {
        StreamVerdict::RateLimited
    } else if code == "503"@ {
        StreamVerdict::Unavailable
    } else {
        StreamVerdict::Unknown
    }
}

/// What the application is told after a stream error.
#[derive(Debug, PartialEq, Eq)]
pub enum StreamEvent {
    Replaced,
    /// The device was logged out, and not while it connected.
    LoggedOut,
    /// An error that is not known; the stanza is handed on as well.
    Other { code: String },
}

/// What follows from a stream error.
#[derive(Debug, PartialEq, Eq)]
pub struct StreamOutcome {
    pub event: Option<StreamEvent>,
    /// The transport is to be closed from our side.
    pub disconnect: bool,
}

/// Rate limits count as so many failed attempts.
pub const RATE_LIMIT_PENALTY: u32 = 5;

impl Link {
    /// The link after a stream error: in every case the login is gone and the tasks of the
    /// connection are told to end.
    pub open spec fn after_stream_error(self, verdict: StreamVerdict) -> Link {
        let down = Link { is_logged_in: false, connection_shut_down: true, ..self };
        match verdict {
            StreamVerdict::Replaced => Link {
                expected_disconnect: true,
                enable_auto_reconnect: false,
                ..down
            },
            StreamVerdict::Removed => Link {
                expected_disconnect: true,
                enable_auto_reconnect: false,
                ..down
            },
            StreamVerdict::Restart => Link { expected_disconnect: true, ..down },
            StreamVerdict::RateLimited => Link {
                auto_reconnect_errors: self.auto_reconnect_errors.wrapping_add(RATE_LIMIT_PENALTY),
                ..down
            },
            StreamVerdict::Unavailable => down,
            StreamVerdict::Unknown => Link { expected_disconnect: true, ..down },
        }
    }
}

/// The code of a stream error.
pub open spec fn error_code(node: Node) -> Seq<char> {
    match node.attr_text("code"@) {
        Some(code) => code,
        None => Seq::empty(),
    }
}

/// The type of the `<conflict>` child of a stream error.
pub open spec fn conflict_type(node: Node) -> Seq<char> {
    match node.child("conflict"@) {
        Some(child) => match child.attr_text("type"@) {
            Some(kind) => kind,
            None => Seq::empty(),
        },
        None => Seq::empty(),
    }
}

fn judge_stream_error(code: &str, conflict: &str) -> (r: StreamVerdict)
    ensures
        r == stream_verdict(code@, conflict@),
{
    if !conflict.is_empty() {
        if same(conflict, "replaced") {
            StreamVerdict::Replaced
        } else {
            StreamVerdict::Removed
        }
    } else if same(code, "515") {
        StreamVerdict::Restart
    } else if same(code, "516") || same(code, "401") {
        StreamVerdict::Removed
    } else if same(code, "409") {
        StreamVerdict::Replaced
    } else if same(code, "429") {
        StreamVerdict::RateLimited
    } else if same(code, "503") {
        StreamVerdict::Unavailable
    } else {
        StreamVerdict::Unknown
    }
}

fn text_or_empty(node: &Node, name: &str) -> (r: String)
    ensures
        r@ == (match node.attr_text(name@) {
            Some(text) => text,
            None => Seq::empty(),
        }),
{
    match node.get_text(name) {
        Some(text) => text,
        None => String::new(),
    }
}

/// Whether an outcome is the one that a verdict calls for.
pub open spec fn stream_outcome(
    outcome: StreamOutcome,
    verdict: StreamVerdict,
    code: Seq<char>,
) -> bool {
    match verdict {
        StreamVerdict::Replaced => outcome.event == Some(StreamEvent::Replaced)
            && outcome.disconnect,
        StreamVerdict::Removed => outcome.event == Some(StreamEvent::LoggedOut)
            && outcome.disconnect,
        StreamVerdict::Restart => outcome.event is None && outcome.disconnect,
        StreamVerdict::RateLimited => outcome.event is None && !outcome.disconnect,
        StreamVerdict::Unavailable => outcome.event is None && !outcome.disconnect,
        StreamVerdict::Unknown => !outcome.disconnect && (outcome.event matches Some(
            StreamEvent::Other { code: told },
        ) && told@ == code),
    }
}

impl Link {
    /// Acts on what a stream error means.
    fn take_verdict(&mut self, verdict: StreamVerdict, code: String) -> (r: StreamOutcome)
        ensures
            *final(self) == old(self).after_stream_error(verdict),
            stream_outcome(r, verdict, code@),
    {
        self.is_logged_in = false;
        self.notify_connection_shutdown();
        match verdict {
            StreamVerdict::Replaced => {
                self.expected_disconnect = true;
                self.enable_auto_reconnect = false;
                StreamOutcome { event: Some(StreamEvent::Replaced), disconnect: true }
            },
            StreamVerdict::Removed => {
                self.expected_disconnect = true;
                self.enable_auto_reconnect = false;
                StreamOutcome { event: Some(StreamEvent::LoggedOut), disconnect: true }
            },
            StreamVerdict::Restart => {
                self.expected_disconnect = true;
                StreamOutcome { event: None, disconnect: true }
            },
            StreamVerdict::RateLimited => {
                self.auto_reconnect_errors = self.auto_reconnect_errors.wrapping_add(
                    RATE_LIMIT_PENALTY,
                );
                StreamOutcome { event: None, disconnect: false }
            },
            StreamVerdict::Unavailable => StreamOutcome { event: None, disconnect: false },
            StreamVerdict::Unknown => {
                self.expected_disconnect = true;
                StreamOutcome { event: Some(StreamEvent::Other { code }), disconnect: false }
            },
        }
    }

    /// Takes in a stream error.
    pub fn handle_stream_error(&mut self, node: &Node) -> (r: StreamOutcome)
        ensures
            *final(self) == old(self).after_stream_error(
                stream_verdict(error_code(*node), conflict_type(*node)),
            ),
            stream_outcome(
                r,
                stream_verdict(error_code(*node), conflict_type(*node)),
                error_code(*node),
            ),
    {
        let code = text_or_empty(node, "code");
        let conflict = match node.get_optional_child("conflict") {
            Some(child) => text_or_empty(child, "type"),
            None => String::new(),
        };
        let verdict = judge_stream_error(code.as_str(), conflict.as_str());
        self.take_verdict(verdict, code)
    }
}

/// What the application is told after a refused login.
#[derive(Debug, PartialEq, Eq)]
pub enum ConnectFailureEvent {
    /// The device was logged out while it connected.
    LoggedOut(ConnectFailureReason),
    /// The account is banned for so many seconds.
    TemporaryBan { code: TempBanReason, expire_secs: i64 },
    ClientOutdated,
    /// Anything else; the stanza is handed on as well.
    Failed { reason: ConnectFailureReason, message: String },
}

/// The longest time span in seconds.
pub const MAX_SPAN_SECS: i64 = 9_223_372_036_854_775;

/// The time span of a number of seconds; one that is too long, either way, counts as none.
pub open spec fn span_secs(secs: i64) -> i64 {
    if -MAX_SPAN_SECS <= secs <= MAX_SPAN_SECS {
        secs
    } else {
        0
    }
}

/// Calls `chrono::Duration::try_seconds`, which takes every number of seconds whose thousandfold
/// fits, and gives the number back in seconds; one that it refuses counts as zero.
#[verifier::external_body]
fn try_seconds(secs: i64) -> (r: i64)
    ensures
        r == span_secs(secs),
{
    chrono::Duration::try_seconds(secs).unwrap_or_default().num_seconds()
}

/// A number in an attribute, or zero.
pub open spec fn number_or_zero(node: Node, name: Seq<char>) -> u64 {
    match node.attr_u64(name) {
        Some(n) => n,
        None => 0,
    }
}

/// Why a login was refused, by the stanza.
pub open spec fn failure_reason(node: Node) -> ConnectFailureReason {
    ConnectFailureReason::of_code(number_or_zero(node, "reason"@) as i32)
}

/// Whether an event is the one for a refused login.
pub open spec fn tells_failure(event: ConnectFailureEvent, node: Node) -> bool {
    let reason = failure_reason(node);
    if reason.ends_account() {
        event == ConnectFailureEvent::LoggedOut(reason)
    } else if reason == ConnectFailureReason::TempBanned {
        event == (ConnectFailureEvent::TemporaryBan {
            code: TempBanReason::of_code(number_or_zero(node, "code"@) as i32),
            expire_secs: span_secs(number_or_zero(node, "expire"@) as i64),
        })
    } else if reason == ConnectFailureReason::ClientOutdated {
        event == ConnectFailureEvent::ClientOutdated
    } else {
        event matches ConnectFailureEvent::Failed { reason: told, message } && told == reason
            && message@ == (match node.attr_text("message"@) {
            Some(text) => text,
            None => Seq::empty(),
        })
    }
}

impl Link {
    /// The link after a refused login. Only where the trouble is the server's does the client
    /// try again; then the end of the connection counts as a surprise, and the wait applies.
    pub open spec fn after_connect_failure(self, reason: ConnectFailureReason) -> Link {
        Link {
            connection_shut_down: true,
            expected_disconnect: !reason.passes(),
            enable_auto_reconnect: self.enable_auto_reconnect && reason.passes(),
            ..self
        }
    }

    /// Takes in a refused login.
    pub fn handle_connect_failure(&mut self, node: &Node) -> (r: ConnectFailureEvent)
        ensures
            *final(self) == old(self).after_connect_failure(failure_reason(*node)),
            tells_failure(r, *node),
    {
        self.notify_connection_shutdown();
        let code: u64 = match node.get_u64("reason") {
            Some(n) => n,
            None => 0,
        };
        let reason = ConnectFailureReason::from_code(code as i32);
        if reason.should_reconnect() {
            self.expected_disconnect = false;
        } else {
            self.expected_disconnect = true;
            self.enable_auto_reconnect = false;
        }
        if reason.is_logged_out() {
            ConnectFailureEvent::LoggedOut(reason)
        } else if reason == ConnectFailureReason::TempBanned {
            let ban: u64 = match node.get_u64("code") {
                Some(n) => n,
                None => 0,
            };
            let expire: u64 = match node.get_u64("expire") {
                Some(n) => n,
                None => 0,
            };
            ConnectFailureEvent::TemporaryBan {
                code: TempBanReason::from_code(ban as i32),
                expire_secs: try_seconds(expire as i64),
            }
        } else if reason == ConnectFailureReason::ClientOutdated {
            ConnectFailureEvent::ClientOutdated
        } else {
            ConnectFailureEvent::Failed { reason, message: text_or_empty(node, "message") }
        }
    }
}

/// The end of a connection is not the end of the client: only a disconnect shuts it down for
/// good.
pub proof fn only_disconnects_shut_down(
    link: Link,
    verdict: StreamVerdict,
    reason: ConnectFailureReason,
)
    ensures
        link.disconnecting().shut_down,
        link.round_begun().0.shut_down == link.shut_down,
        link.connecting().shut_down == link.shut_down,
        link.logged_in().shut_down == link.shut_down,
        link.logging_out().shut_down == link.shut_down,
        link.reconnecting().shut_down == link.shut_down,
        link.reconnecting_at_once().shut_down == link.shut_down,
        link.after_stream_error(verdict).shut_down == link.shut_down,
        link.after_connect_failure(reason).shut_down == link.shut_down,
        link.cleaned().shut_down == link.shut_down,
        link.next_round().0.shut_down == link.shut_down,
{
}

/// However a connection ends, its tasks are told to end.
pub proof fn tasks_end_with_connection(
    link: Link,
    verdict: StreamVerdict,
    reason: ConnectFailureReason,
)
    ensures
        link.after_stream_error(verdict).connection_shut_down,
        link.after_connect_failure(reason).connection_shut_down,
        link.cleaned().connection_shut_down,
{
}

/// After the device was removed or its session replaced, the client makes no new connection.
pub proof fn no_reconnect_after_removal(link: Link, verdict: StreamVerdict)
    requires
        verdict == StreamVerdict::Removed || verdict == StreamVerdict::Replaced,
    ensures
        !link.after_stream_error(verdict).next_round().0.is_running,
{
}

/// A rate limit makes the next wait longer by a fixed number of steps, and reconnecting stays
/// enabled.
pub proof fn rate_limit_lengthens_wait(link: Link)
    requires
        link.enable_auto_reconnect,
        !link.expected_disconnect,
        link.auto_reconnect_errors + RATE_LIMIT_PENALTY <= u32::MAX,
    ensures
        link.after_stream_error(StreamVerdict::RateLimited).next_round().1
            == crate::client::link::LoopStep::Wait(
            (link.auto_reconnect_errors + RATE_LIMIT_PENALTY) as u32,
        ),
{
}

/// A login that was refused for good is not tried again.
pub proof fn refused_login_is_final(link: Link, reason: ConnectFailureReason)
    requires
        !reason.passes(),
    ensures
        !link.after_connect_failure(reason).next_round().0.is_running,
{
}

/// A stream error means what its code says, unless it names a conflict: then the session was
/// replaced or the device removed, whatever the code.
pub proof fn conflicts_go_before_codes(code: Seq<char>, conflict: Seq<char>)
    ensures
        conflict.len() > 0 ==> (stream_verdict(code, conflict) == StreamVerdict::Replaced
            <==> conflict == "replaced"@),
        conflict.len() > 0 ==> (stream_verdict(code, conflict) == StreamVerdict::Removed
            <==> conflict != "replaced"@),
        conflict.len() == 0 ==> {
            &&& stream_verdict(code, conflict) == StreamVerdict::Restart <==> code == "515"@
            &&& stream_verdict(code, conflict) == StreamVerdict::Removed <==> code == "516"@
                || code == "401"@
            &&& stream_verdict(code, conflict) == StreamVerdict::Replaced <==> code == "409"@
            &&& stream_verdict(code, conflict) == StreamVerdict::RateLimited <==> code == "429"@
            &&& stream_verdict(code, conflict) == StreamVerdict::Unavailable <==> code == "503"@
        },
{
    reveal_strlit("515");
    reveal_strlit("516");
    reveal_strlit("401");
    reveal_strlit("409");
    reveal_strlit("429");
    reveal_strlit("503");
    assert(("515"@)[2] != ("516"@)[2]);
    assert(("515"@)[0] != ("401"@)[0]);
    assert(("516"@)[0] != ("401"@)[0]);
    assert(("401"@)[2] != ("409"@)[2]);
    assert(("515"@)[0] != ("409"@)[0]);
    assert(("516"@)[0] != ("409"@)[0]);
    assert(("429"@)[1] != ("409"@)[1]);
    assert(("429"@)[1] != ("401"@)[1]);
    assert(("429"@)[0] != ("515"@)[0]);
    assert(("429"@)[0] != ("516"@)[0]);
    assert(("503"@)[0] != ("401"@)[0]);
    assert(("503"@)[0] != ("409"@)[0]);
    assert(("503"@)[0] != ("429"@)[0]);
    assert(("503"@)[1] != ("515"@)[1]);
    assert(("503"@)[1] != ("516"@)[1]);
}

/// After a stream error the login is gone and the tasks end. The client goes on at once where the
/// stream is to be made anew or the error is not known, waits where the server is busy, and stays
/// away where it was replaced or removed. Nothing else changes.
pub proof fn stream_errors_decide_what_follows(link: Link, verdict: StreamVerdict)
    requires
        link.enable_auto_reconnect,
        !link.expected_disconnect,
    ensures
        ({
            let next = link.after_stream_error(verdict);
            let step = next.cleaned().next_round().1;
            &&& !next.is_logged_in && next.connection_shut_down
            &&& verdict is Replaced || verdict is Removed ==> step is Exit
            &&& verdict is Restart || verdict is Unknown ==> step is Again
            &&& verdict is Unavailable ==> step == crate::client::link::LoopStep::Wait(
                link.auto_reconnect_errors,
            )
            &&& verdict is RateLimited && link.auto_reconnect_errors <= u32::MAX - 5 ==> step
                == crate::client::link::LoopStep::Wait((link.auto_reconnect_errors + 5) as u32)
            &&& !(verdict is RateLimited) ==> next.auto_reconnect_errors
                == link.auto_reconnect_errors
            &&& verdict is Replaced || verdict is Removed ==> next.expected_disconnect
            &&& next == (Link {
                is_logged_in: false,
                connection_shut_down: true,
                expected_disconnect: next.expected_disconnect,
                enable_auto_reconnect: next.enable_auto_reconnect,
                auto_reconnect_errors: next.auto_reconnect_errors,
                ..link
            })
        }),
{
}

/// The application is told where it has to know: of a session that was replaced, of a device that
/// was removed, and of an error that is not known, with its code. Of what passes it is not told.
/// The transport is closed from our side after the first two and to make the stream anew.
pub proof fn stream_errors_are_told(outcome: StreamOutcome, verdict: StreamVerdict, code: Seq<char>)
    requires
        stream_outcome(outcome, verdict, code),
    ensures
        outcome.event is None <==> verdict is Restart || verdict is RateLimited || verdict
            is Unavailable,
        outcome.event == Some(StreamEvent::Replaced) <==> verdict is Replaced,
        outcome.event == Some(StreamEvent::LoggedOut) <==> verdict is Removed,
        verdict is Unknown ==> (outcome.event matches Some(StreamEvent::Other { code: told })
            && told@ == code),
        outcome.disconnect <==> verdict is Replaced || verdict is Removed || verdict is Restart,
{
}

/// What a stream error says: its code and the type of its conflict, each empty where it is
/// missing.
pub proof fn stream_errors_are_read(node: Node)
    ensures
        node.attr_text("code"@) matches Some(code) ==> error_code(node) == code,
        node.attr_text("code"@) is None ==> error_code(node).len() == 0,
        node.child("conflict"@) is None ==> conflict_type(node).len() == 0,
        node.child("conflict"@) matches Some(child) ==> {
            &&& child.attr_text("type"@) matches Some(kind) ==> conflict_type(node) == kind
            &&& child.attr_text("type"@) is None ==> conflict_type(node).len() == 0
        },
{
}

/// A refused login is tried again exactly where the trouble is the server's, and then after a
/// wait; in every other case the client stays away. Nothing else changes, but that the tasks end.
pub proof fn refusals_decide_what_follows(link: Link, reason: ConnectFailureReason)
    requires
        link.enable_auto_reconnect,
    ensures
        ({
            let next = link.after_connect_failure(reason);
            let step = next.cleaned().next_round().1;
            &&& reason is ServiceUnavailable || reason is InternalServerError ==> step
                == crate::client::link::LoopStep::Wait(link.auto_reconnect_errors)
            &&& !(reason is ServiceUnavailable) && !(reason is InternalServerError) ==> step is Exit
                && next.expected_disconnect
            &&& next == (Link {
                connection_shut_down: true,
                expected_disconnect: next.expected_disconnect,
                enable_auto_reconnect: next.enable_auto_reconnect,
                ..link
            })
        }),
        !(Link { enable_auto_reconnect: false, ..link }).after_connect_failure(
            reason,
        ).enable_auto_reconnect,
{
}

/// Which numbers stand for which reasons. Those of a lost account are told as a logout, a ban with
/// its reason and its length, an outdated client as such, and the rest with the server's words.
pub proof fn refusals_are_told(event: ConnectFailureEvent, node: Node)
    requires
        tells_failure(event, node),
    ensures
        ({
            let code = match node.attr_u64("reason"@) {
                Some(n) => n as i32,
                None => 0,
            };
            &&& event is LoggedOut <==> code == 401 || code == 403 || code == 406
            &&& event is TemporaryBan <==> code == 402
            &&& event is ClientOutdated <==> code == 405
            &&& event matches ConnectFailureEvent::LoggedOut(reason) ==> {
                &&& reason == ConnectFailureReason::LoggedOut <==> code == 401
                &&& reason == ConnectFailureReason::MainDeviceGone <==> code == 403
                &&& reason == ConnectFailureReason::UnknownLogout <==> code == 406
            }
            &&& event matches ConnectFailureEvent::Failed { reason, message } ==> {
                &&& reason == failure_reason(node)
                &&& node.attr_text("message"@) matches Some(text) ==> message@ == text
                &&& node.attr_text("message"@) is None ==> message@.len() == 0
            }
            &&& event matches ConnectFailureEvent::TemporaryBan { code: ban, expire_secs } ==> {
                &&& node.attr_u64("code"@) matches Some(n) ==> ban == TempBanReason::of_code(
                    n as i32,
                )
                &&& node.attr_u64("code"@) is None ==> ban == TempBanReason::Unknown(0)
                &&& node.attr_u64("expire"@) is None ==> expire_secs == 0
                &&& forall|n: u64| #[trigger]
                    is_span(n) && node.attr_u64("expire"@) == Some(n) ==> expire_secs == n
            }
        }),
{
}

/// Whether a number of seconds is a time span.
pub open spec fn is_span(seconds: u64) -> bool {
    seconds <= 9_223_372_036_854_775
}

/// The numbers of the reasons, each of which stands for itself alone; a number that stands for
/// none is kept.
pub proof fn reasons_have_numbers(code: i32)
    ensures
        ({
            let reason = ConnectFailureReason::of_code(code);
            &&& reason is Generic <==> code == 400
            &&& reason is LoggedOut <==> code == 401
            &&& reason is TempBanned <==> code == 402
            &&& reason is MainDeviceGone <==> code == 403
            &&& reason is ClientOutdated <==> code == 405
            &&& reason is UnknownLogout <==> code == 406
            &&& reason is BadUserAgent <==> code == 409
            &&& reason is CatExpired <==> code == 413
            &&& reason is CatInvalid <==> code == 414
            &&& reason is NotFound <==> code == 415
            &&& reason is ClientUnknown <==> code == 418
            &&& reason is InternalServerError <==> code == 500
            &&& reason is Experimental <==> code == 501
            &&& reason is ServiceUnavailable <==> code == 503
            &&& reason matches ConnectFailureReason::Unknown(kept) ==> kept == code
            &&& reason.ends_account() <==> code == 401 || code == 403 || code == 406
            &&& reason.passes() <==> code == 500 || code == 503
        }),
        ({
            let ban = TempBanReason::of_code(code);
            &&& ban is SentToTooManyPeople <==> code == 101
            &&& ban is BlockedByUsers <==> code == 102
            &&& ban is CreatedTooManyGroups <==> code == 103
            &&& ban is SentTooManySameMessage <==> code == 104
            &&& ban is BroadcastList <==> code == 106
            &&& ban matches TempBanReason::Unknown(kept) ==> kept == code
        }),
{
}

/// A ban lasts as many seconds as is told, where that is a time span at all, and none otherwise.
pub proof fn spans_are_kept_or_nothing(secs: i64)
    ensures
        -9_223_372_036_854_775 <= secs <= 9_223_372_036_854_775 ==> span_secs(secs) == secs,
        secs < -9_223_372_036_854_775 || 9_223_372_036_854_775 < secs ==> span_secs(secs) == 0,
{
}

} // verus!
