//! Addresses of accounts, groups and devices.

use vstd::prelude::*;
use vstd::string::StringExecFns;
use crate::text::{decimal, decimal_text, same};

verus! {

/// The namespace that an address belongs to.
#[derive(Clone, Copy, Debug, PartialEq, Eq, Structural)]
pub enum Server {
    Pn,
    Lid,
    Group,
    Broadcast,
    Newsletter,
    Hosted,
    HostedLid,
    Messenger,
    Interop,
    Bot,
    Legacy,
}

impl Server {
    /// The name of the namespace, as it stands after the `@`.
    pub open spec fn name(self) -> Seq<char> {
        match self {
            Server::Pn => "s.whatsapp.net"@,
            Server::Lid => "lid"@,
            Server::Group => "g.us"@,
            Server::Broadcast => "broadcast"@,
            Server::Newsletter => "newsletter"@,
            Server::Hosted => "hosted"@,
            Server::HostedLid => "hosted.lid"@,
            Server::Messenger => "msgr"@,
            Server::Interop => "interop"@,
            Server::Bot => "bot"@,
            Server::Legacy => "c.us"@,
        }
    }

    /// The namespaces that hold phone numbers.
    pub open spec fn pn_family(self) -> bool {
        self == Server::Pn || self == Server::Hosted
    }

    /// The namespaces that hold hidden identifiers (LIDs).
    pub open spec fn lid_family(self) -> bool {
        self == Server::Lid || self == Server::HostedLid
    }

    pub fn as_str(self) -> (r: &'static str)
        ensures
            r@ == self.name(),
    {
        match self {
            Server::Pn => "s.whatsapp.net",
            Server::Lid => "lid",
            Server::Group => "g.us",
            Server::Broadcast => "broadcast",
            Server::Newsletter => "newsletter",
            Server::Hosted => "hosted",
            Server::HostedLid => "hosted.lid",
            Server::Messenger => "msgr",
            Server::Interop => "interop",
            Server::Bot => "bot",
            Server::Legacy => "c.us",
        }
    }

    /// The namespace of a given name.
    pub fn from_name(name: &str) -> (r: Option<Server>)
        ensures
            r matches Some(server) ==> server.name() == name@,
            r is None ==> forall|server: Server| #[trigger] server.name() != name@,
    {
        if same(name, "s.whatsapp.net") {
            Some(Server::Pn)
        } else if same(name, "lid") {
            Some(Server::Lid)
        } else if same(name, "g.us") {
            Some(Server::Group)
        } else if same(name, "broadcast") {
            Some(Server::Broadcast)
        } else if same(name, "newsletter") {
            Some(Server::Newsletter)
        } else if same(name, "hosted") {
            Some(Server::Hosted)
        } else if same(name, "hosted.lid") {
            Some(Server::HostedLid)
        } else if same(name, "msgr") {
            Some(Server::Messenger)
        } else if same(name, "interop") {
            Some(Server::Interop)
        } else if same(name, "bot") {
            Some(Server::Bot)
        } else if same(name, "c.us") {
            Some(Server::Legacy)
        } else {
            None
        }
    }

    pub fn is_pn_family(self) -> (r: bool)
        ensures
            r == self.pn_family(),
    {
        matches!(self, Server::Pn | Server::Hosted)
    }

    pub fn is_lid_family(self) -> (r: bool)
        ensures
            r == self.lid_family(),
    {
        matches!(self, Server::Lid | Server::HostedLid)
    }
}

/// Two namespaces never share a name.
pub proof fn server_names_differ(a: Server, b: Server)
    requires
        a.name() == b.name(),
    ensures
        a == b,
{
    reveal_strlit("s.whatsapp.net");
    reveal_strlit("lid");
    reveal_strlit("g.us");
    reveal_strlit("broadcast");
    reveal_strlit("newsletter");
    reveal_strlit("hosted");
    reveal_strlit("hosted.lid");
    reveal_strlit("msgr");
    reveal_strlit("interop");
    reveal_strlit("bot");
    reveal_strlit("c.us");
    assert("s.whatsapp.net"@.len() == 14);
    assert("lid"@.len() == 3 && "lid"@[0] == 'l');
    assert("bot"@.len() == 3 && "bot"@[0] == 'b');
    assert("g.us"@.len() == 4 && "g.us"@[0] == 'g');
    assert("c.us"@.len() == 4 && "c.us"@[0] == 'c');
    assert("msgr"@.len() == 4 && "msgr"@[0] == 'm');
    assert("hosted"@.len() == 6);
    assert("interop"@.len() == 7);
    assert("broadcast"@.len() == 9);
    assert("newsletter"@.len() == 10 && "newsletter"@[0] == 'n');
    assert("hosted.lid"@.len() == 10 && "hosted.lid"@[0] == 'h');
    assert(a.name().len() == b.name().len());
    assert(a.name()[0] == b.name()[0]);
}

/// The address of an account, a group or one device of an account.
#[derive(Debug, PartialEq, Eq)]
pub struct Jid {
    pub user: String,
    pub server: Server,
    pub agent: u8,
    pub device: u16,
    pub integrator: u16,
}

/// What a [`Jid`] holds, as mathematics.
pub struct JidView {
    pub user: Seq<char>,
    pub server: Server,
    pub agent: u8,
    pub device: u16,
    pub integrator: u16,
}

impl View for Jid {
    type V = JidView;

    open spec fn view(&self) -> JidView {
        JidView {
            user: self.user@,
            server: self.server,
            agent: self.agent,
            device: self.device,
            integrator: self.integrator,
        }
    }
}

impl JidView {
    /// The address of the whole account, without agent and device.
    pub open spec fn non_ad(self) -> JidView {
        JidView { agent: 0, device: 0, ..self }
    }

    pub open spec fn status_broadcast(self) -> bool {
        self.server == Server::Broadcast && self.user == "status"@
    }

    pub open spec fn broadcast_list(self) -> bool {
        self.server == Server::Broadcast && self.user != "status"@
    }

    /// Automated accounts: their own namespace, and two blocks of phone numbers.
    pub open spec fn bot(self) -> bool {
        ||| self.server == Server::Bot
        ||| self.server == Server::Pn && self.device == 0 && ("1313555"@.is_prefix_of(self.user)
            || "131655500"@.is_prefix_of(self.user))
    }

    /// The written form: `user[.agent][:device]@server`, or the bare server name where there
    /// is no user. The agent is written only outside the phone number and LID namespaces.
    pub open spec fn text(self) -> Seq<char> {
        if self.user.len() == 0 {
            self.server.name()
        } else {
            let agent = if self.agent > 0 && !self.server.pn_family() && !self.server.lid_family() {
                seq!['.'] + decimal_text(self.agent as nat)
            } else {
                Seq::empty()
            };
            let device = if self.device > 0 {
                seq![':'] + decimal_text(self.device as nat)
            } else {
                Seq::empty()
            };
            self.user + agent + device + seq!['@'] + self.server.name()
        }
    }

    /// The name under which sessions with this device are kept:
    /// `user[:device]@server`, with `c.us` for the phone number namespace.
    pub open spec fn signal_address(self) -> Seq<char> {
        let device = if self.device > 0 {
            seq![':'] + decimal_text(self.device as nat)
        } else {
            Seq::empty()
        };
        let server = if self.server == Server::Pn {
            Server::Legacy.name()
        } else {
            self.server.name()
        };
        self.user + device + seq!['@'] + server
    }

    /// The full protocol address, whose device number is always zero.
    pub open spec fn protocol_address(self) -> Seq<char> {
        self.signal_address() + ".0"@
    }
}

/// What an address that may be missing holds.
pub open spec fn opt_jid(jid: Option<&Jid>) -> Option<JidView> {
    match jid {
        Some(j) => Some(j@),
        None => None,
    }
}

/// The address with every field at its default.
pub open spec fn default_jid() -> JidView {
    JidView { user: Seq::empty(), server: Server::Pn, agent: 0, device: 0, integrator: 0 }
}

impl Clone for Jid {
    fn clone(&self) -> (r: Jid)
        ensures
            r == *self,
    {
        Jid {
            user: self.user.clone(),
            server: self.server,
            agent: self.agent,
            device: self.device,
            integrator: self.integrator,
        }
    }
}

fn starts_with(text: &str, prefix: &str) -> (r: bool)
    ensures
        r == prefix@.is_prefix_of(text@),
{
    let n: usize = prefix.unicode_len();
    if text.unicode_len() < n {
        return false;
    }
    let head = text.substring_char(0, n);
    let r = same(head, prefix);
    proof {
        if r {
            assert(prefix@ =~= text@.subrange(0, prefix@.len() as int));
        } else {
            if prefix@.is_prefix_of(text@) {
                assert(head@ =~= prefix@);
            }
        }
    }
    r
}

impl Jid {
    /// The address of an account in a namespace.
    pub fn new(user: &str, server: Server) -> (r: Jid)
        ensures
            r@ == (JidView { user: user@, server, agent: 0, device: 0, integrator: 0 }),
    {
        Jid { user: user.to_owned(), server, agent: 0, device: 0, integrator: 0 }
    }

    pub fn pn(user: &str) -> (r: Jid)
        ensures
            r@ == (JidView { user: user@, server: Server::Pn, ..default_jid() }),
    {
        Jid::new(user, Server::Pn)
    }

    pub fn lid(user: &str) -> (r: Jid)
        ensures
            r@ == (JidView { user: user@, server: Server::Lid, ..default_jid() }),
    {
        Jid::new(user, Server::Lid)
    }

    /// Whether two addresses are the same in every field.
    pub fn same_as(&self, other: &Jid) -> (r: bool)
        ensures
            r == (self@ == other@),
    {
        self.user == other.user && self.server == other.server && self.agent == other.agent
            && self.device == other.device && self.integrator == other.integrator
    }

    /// Whether two addresses name the same user, whatever the namespace and device.
    pub fn is_same_user_as(&self, other: &Jid) -> (r: bool)
        ensures
            r == (self.user@ == other.user@),
    {
        self.user == other.user
    }

    pub fn is_pn(&self) -> (r: bool)
        ensures
            r == (self.server == Server::Pn),
    {
        self.server == Server::Pn
    }

    pub fn is_lid(&self) -> (r: bool)
        ensures
            r == (self.server == Server::Lid),
    {
        self.server == Server::Lid
    }

    pub fn is_group(&self) -> (r: bool)
        ensures
            r == (self.server == Server::Group),
    {
        self.server == Server::Group
    }

    pub fn is_newsletter(&self) -> (r: bool)
        ensures
            r == (self.server == Server::Newsletter),
    {
        self.server == Server::Newsletter
    }

    pub fn is_status_broadcast(&self) -> (r: bool)
        ensures
            r == self@.status_broadcast(),
    {
        self.server == Server::Broadcast && same(self.user.as_str(), "status")
    }

    pub fn is_broadcast_list(&self) -> (r: bool)
        ensures
            r == self@.broadcast_list(),
    {
        self.server == Server::Broadcast && !same(self.user.as_str(), "status")
    }

    pub fn is_bot(&self) -> (r: bool)
        ensures
            r == self@.bot(),
    {
        self.server == Server::Bot || (self.server == Server::Pn && self.device == 0 && (
        starts_with(self.user.as_str(), "1313555") || starts_with(self.user.as_str(), "131655500")))
    }

    /// The address of the whole account, without agent and device.
    pub fn to_non_ad(&self) -> (r: Jid)
        ensures
            r@ == self@.non_ad(),
            r.user == self.user,
    {
        Jid {
            user: self.user.clone(),
            server: self.server,
            agent: 0,
            device: 0,
            integrator: self.integrator,
        }
    }

    /// The written form of the address.
    pub fn to_text(&self) -> (r: String)
        ensures
            r@ == self@.text(),
    {
        proof {
            reveal_strlit(".");
            reveal_strlit(":");
            reveal_strlit("@");
        }
        if self.user.as_str().is_empty() {
            return self.server.as_str().to_owned();
        }
        let mut out: String = self.user.clone();
        if self.agent > 0 && !self.server.is_pn_family() && !self.server.is_lid_family() {
            out.append(".");
            out.append(decimal(self.agent as u64).as_str());
        }
        if self.device > 0 {
            out.append(":");
            out.append(decimal(self.device as u64).as_str());
        }
        out.append("@");
        out.append(self.server.as_str());
        assert(out@ =~= self@.text());
        out
    }

    /// The name under which sessions with this device are kept.
    pub fn to_signal_address(&self) -> (r: String)
        ensures
            r@ == self@.signal_address(),
    {
        proof {
            reveal_strlit(":");
            reveal_strlit("@");
        }
        let mut out: String = self.user.clone();
        if self.device > 0 {
            out.append(":");
            out.append(decimal(self.device as u64).as_str());
        }
        out.append("@");
        let server = if self.server == Server::Pn {
            Server::Legacy
        } else {
            self.server
        };
        out.append(server.as_str());
        assert(out@ =~= self@.signal_address());
        out
    }

    /// The full protocol address.
    pub fn to_protocol_address(&self) -> (r: String)
        ensures
            r@ == self@.protocol_address(),
    {
        let mut out = self.to_signal_address();
        out.append(".0");
        out
    }
}

/// The name under which a sender key is kept: the group's written form, a colon, and the
/// sender's protocol address.
pub open spec fn sender_key_name(group: JidView, sender: JidView) -> Seq<char> {
    group.text() + seq![':'] + sender.protocol_address()
}

/// The name under which the sender key of `sender` in `group` is kept.
pub fn make_sender_key_name(group: &Jid, sender: &Jid) -> (r: String)
    ensures
        r@ == sender_key_name(group@, sender@),
{
    proof {
        reveal_strlit(":");
    }
    let mut out = group.to_text();
    out.append(":");
    let address = sender.to_protocol_address();
    out.append(address.as_str());
    assert(out@ =~= sender_key_name(group@, sender@));
    out
}

/// An address with the name of its namespace in place of the namespace.
#[derive(Debug, PartialEq, Eq)]
pub struct JidParts {
    pub user: String,
    pub server: String,
    pub agent: u8,
    pub device: u16,
    pub integrator: u16,
}

/// What [`JidParts`] holds, as mathematics.
pub struct JidPartsView {
    pub user: Seq<char>,
    pub server: Seq<char>,
    pub agent: u8,
    pub device: u16,
    pub integrator: u16,
}

impl View for JidParts {
    type V = JidPartsView;

    open spec fn view(&self) -> JidPartsView {
        JidPartsView {
            user: self.user@,
            server: self.server@,
            agent: self.agent,
            device: self.device,
            integrator: self.integrator,
        }
    }
}

impl JidView {
    /// The same address with the name of its namespace.
    pub open spec fn parts(self) -> JidPartsView {
        JidPartsView {
            user: self.user,
            server: self.server.name(),
            agent: self.agent,
            device: self.device,
            integrator: self.integrator,
        }
    }
}

/// The address whose parts are `parts`, where the server is a known one.
pub open spec fn from_parts(parts: JidPartsView) -> Option<JidView> {
    if exists|server: Server| #[trigger] server.name() == parts.server {
        Some(
            JidView {
                user: parts.user,
                server: choose|server: Server| #[trigger] server.name() == parts.server,
                agent: parts.agent,
                device: parts.device,
                integrator: parts.integrator,
            },
        )
    } else {
        None
    }
}

/// Taking an address apart and putting it together again gives the same address.
pub proof fn parts_round_trip(jid: JidView)
    ensures
        from_parts(jid.parts()) == Some(jid),
{
    assert(jid.server.name() == jid.parts().server);
    let server = choose|server: Server| #[trigger] server.name() == jid.parts().server;
    server_names_differ(server, jid.server);
}

impl Jid {
    /// The same address with the name of its namespace.
    pub fn to_parts(&self) -> (r: JidParts)
        ensures
            r@ == self@.parts(),
    {
        JidParts {
            user: self.user.clone(),
            server: self.server.as_str().to_owned(),
            agent: self.agent,
            device: self.device,
            integrator: self.integrator,
        }
    }

    /// The address whose parts are `parts`, where the server is a known one.
    pub fn from_parts(parts: JidParts) -> (r: Option<Jid>)
        ensures
            match r {
                Some(jid) => from_parts(parts@) == Some(jid@),
                None => from_parts(parts@) is None,
            },
    {
        match Server::from_name(parts.server.as_str()) {
            Some(server) => {
                proof {
                    assert(server.name() == parts@.server);
                    let chosen = choose|s: Server| #[trigger] s.name() == parts@.server;
                    server_names_differ(chosen, server);
                }
                Some(
                    Jid {
                        user: parts.user,
                        server,
                        agent: parts.agent,
                        device: parts.device,
                        integrator: parts.integrator,
                    },
                )
            },
            None => None,
        }
    }
}

/// The parts that `wacore_binary`'s `Jid::from_str` finds in a text; `None` where it refuses it.
pub uninterp spec fn jid_parts_of_text(text: Seq<char>) -> Option<JidPartsView>;

/// Calls `<wacore_binary::Jid as FromStr>::from_str`. The parser depends on the text alone;
/// its result is named, and every server that it accepts is one of the known ones.
#[verifier::external_body]
fn parse_parts(text: &str) -> (r: Option<JidParts>)
    ensures
        match r {
            Some(parts) => jid_parts_of_text(text@) == Some(parts@) && from_parts(parts@) is Some,
            None => jid_parts_of_text(text@) is None,
        },
{
    let jid: wacore_binary::Jid = text.parse().ok()?;
    Some(JidParts {
        user: jid.user.to_string(),
        server: jid.server.as_str().to_owned(),
        agent: jid.agent,
        device: jid.device,
        integrator: jid.integrator,
    })
}

/// The address that a text writes.
pub open spec fn jid_of_text(text: Seq<char>) -> Option<JidView> {
    match jid_parts_of_text(text) {
        Some(parts) => from_parts(parts),
        None => None,
    }
}

impl Jid {
    /// Reads an address from its written form.
    pub fn parse(text: &str) -> (r: Option<Jid>)
        ensures
            match r {
                Some(jid) => jid_of_text(text@) == Some(jid@),
                None => jid_of_text(text@) is None,
            },
    {
        match parse_parts(text) {
            Some(parts) => Jid::from_parts(parts),
            None => None,
        }
    }
}

/// The name of each namespace, and which of them hold phone numbers and which LIDs.
pub proof fn namespaces_have_names(server: Server)
    ensures
        server is Pn ==> server.name() == "s.whatsapp.net"@,
        server is Lid ==> server.name() == "lid"@,
        server is Group ==> server.name() == "g.us"@,
        server is Broadcast ==> server.name() == "broadcast"@,
        server is Newsletter ==> server.name() == "newsletter"@,
        server is Hosted ==> server.name() == "hosted"@,
        server is HostedLid ==> server.name() == "hosted.lid"@,
        server is Messenger ==> server.name() == "msgr"@,
        server is Interop ==> server.name() == "interop"@,
        server is Bot ==> server.name() == "bot"@,
        server is Legacy ==> server.name() == "c.us"@,
        server.pn_family() <==> server is Pn || server is Hosted,
        server.lid_family() <==> server is Lid || server is HostedLid,
{
}

/// The address of an account is that of any of its devices without the device: the same user in
/// the same namespace. It stands for itself.
pub proof fn accounts_have_no_device(jid: JidView)
    ensures
        jid.non_ad().device == 0 && jid.non_ad().agent == 0,
        jid.non_ad().user == jid.user,
        jid.non_ad().server == jid.server,
        jid.non_ad().integrator == jid.integrator,
        jid.device == 0 && jid.agent == 0 ==> jid.non_ad() == jid,
{
}

/// A broadcast address is the status feed or a list, and not both; no other address is either.
/// Bots are those of their own namespace and the accounts, not devices, of two blocks of numbers.
pub proof fn kinds_of_addresses(jid: JidView)
    ensures
        jid.status_broadcast() <==> jid.server == Server::Broadcast && jid.user == "status"@,
        jid.broadcast_list() <==> jid.server == Server::Broadcast && !jid.status_broadcast(),
        jid.server == Server::Bot ==> jid.bot(),
        jid.server != Server::Bot && jid.server != Server::Pn ==> !jid.bot(),
        jid.server == Server::Pn && jid.device != 0 ==> !jid.bot(),
        jid.server == Server::Pn && jid.device == 0 ==> (jid.bot() <==> "1313555"@.is_prefix_of(
            jid.user,
        ) || "131655500"@.is_prefix_of(jid.user)),
{
}

/// An address is written as user and namespace, with a dot and the agent where that counts, and a
/// colon and the device where there is one. An address without user is its namespace.
pub proof fn addresses_are_written_in_parts(jid: JidView)
    ensures
        jid.user.len() == 0 ==> jid.text() == jid.server.name(),
        jid.user.len() > 0 ==> {
            let shows_agent = jid.agent > 0 && !(jid.server is Pn) && !(jid.server is Hosted)
                && !(jid.server is Lid) && !(jid.server is HostedLid);
            let tail = seq!['@'] + jid.server.name();
            if shows_agent && jid.device > 0 {
                jid.text() == jid.user + seq!['.'] + decimal_text(jid.agent as nat) + seq![':']
                    + decimal_text(jid.device as nat) + tail
            } else if shows_agent {
                jid.text() == jid.user + seq!['.'] + decimal_text(jid.agent as nat) + tail
            } else if jid.device > 0 {
                jid.text() == jid.user + seq![':'] + decimal_text(jid.device as nat) + tail
            } else {
                jid.text() == jid.user + tail
            }
        },
{
    if jid.user.len() > 0 {
        let shows_agent = jid.agent > 0 && !(jid.server is Pn) && !(jid.server is Hosted) && !(
        jid.server is Lid) && !(jid.server is HostedLid);
        let tail = seq!['@'] + jid.server.name();
        if shows_agent && jid.device > 0 {
            assert(jid.text() =~= jid.user + seq!['.'] + decimal_text(jid.agent as nat) + seq![':']
                + decimal_text(jid.device as nat) + tail);
        } else if shows_agent {
            assert(jid.text() =~= jid.user + seq!['.'] + decimal_text(jid.agent as nat) + tail);
        } else if jid.device > 0 {
            assert(jid.text() =~= jid.user + seq![':'] + decimal_text(jid.device as nat) + tail);
        } else {
            assert(jid.text() =~= jid.user + tail);
        }
    }
}

/// Sessions are kept by user, device and namespace, phone numbers under `c.us`; the agent does not
/// count. The sender key of someone in a group is kept under the group and the session's name.
pub proof fn sessions_are_kept_by_device(jid: JidView, group: JidView)
    ensures
        ({
            let server = if jid.server is Pn {
                "c.us"@
            } else {
                jid.server.name()
            };
            &&& jid.device == 0 ==> jid.signal_address() == jid.user + seq!['@'] + server
            &&& jid.device > 0 ==> jid.signal_address() == jid.user + seq![':'] + decimal_text(
                jid.device as nat,
            ) + seq!['@'] + server
        }),
        jid.protocol_address() == jid.signal_address() + ".0"@,
        sender_key_name(group, jid) == group.text() + seq![':'] + jid.protocol_address(),
        (JidView { agent: 0, integrator: 0, ..jid }).signal_address() == jid.signal_address(),
{
    let server = if jid.server is Pn {
        "c.us"@
    } else {
        jid.server.name()
    };
    if jid.device == 0 {
        assert(jid.signal_address() =~= jid.user + seq!['@'] + server);
    } else {
        assert(jid.signal_address() =~= jid.user + seq![':'] + decimal_text(jid.device as nat)
            + seq!['@'] + server);
    }
}

/// An address taken apart keeps every part; parts make an address exactly where their namespace is
/// known, and then that of the name.
pub proof fn parts_make_addresses(jid: JidView, parts: JidPartsView)
    ensures
        jid.parts().user == jid.user && jid.parts().server == jid.server.name(),
        jid.parts().agent == jid.agent && jid.parts().device == jid.device,
        jid.parts().integrator == jid.integrator,
        from_parts(parts) matches Some(made) ==> made.user == parts.user && made.server.name()
            == parts.server && made.agent == parts.agent && made.device == parts.device
            && made.integrator == parts.integrator,
        from_parts(parts) is None ==> forall|server: Server| #[trigger] server.name()
            != parts.server,
        default_jid() == (JidView {
            user: Seq::empty(),
            server: Server::Pn,
            agent: 0,
            device: 0,
            integrator: 0,
        }),
{
}

/// An address is looked at as it is, field by field; so are its parts.
pub proof fn addresses_are_looked_at_whole(jid: Jid, parts: JidParts)
    ensures
        jid@.user == jid.user@,
        jid@.server == jid.server,
        jid@.agent == jid.agent,
        jid@.device == jid.device,
        jid@.integrator == jid.integrator,
        parts@.user == parts.user@,
        parts@.server == parts.server@,
        parts@.agent == parts.agent,
        parts@.device == parts.device,
        parts@.integrator == parts.integrator,
        opt_jid(Some(&jid)) == Some(jid@),
        opt_jid(None) is None,
{
}

} // verus!
