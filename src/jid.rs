use vstd::prelude::*;

use crate::text::str_eq;

verus! {

/// The server, or origin, of a [`Jid`]: it tells direct chats, groups,
/// broadcasts, bots and the other kinds of peers apart.
#[derive(Debug, Clone, Copy, PartialEq, Eq, Hash, Structural)]
#[non_exhaustive]
pub enum JidServer {
    DefaultUser,
    Group,
    LegacyUser,
    Broadcast,
    HiddenUser,
    Messenger,
    Interop,
    Newsletter,
    Hosted,
    HostedLID,
    Bot,
}

/// The text that names each server on the wire.
pub open spec fn server_text(s: JidServer) -> Seq<char> {
    match s {
        JidServer::DefaultUser => seq!['s', '.', 'w', 'h', 'a', 't', 's', 'a', 'p', 'p', '.', 'n', 'e', 't'],
        JidServer::Group => seq!['g', '.', 'u', 's'],
        JidServer::LegacyUser => seq!['c', '.', 'u', 's'],
        JidServer::Broadcast => seq!['b', 'r', 'o', 'a', 'd', 'c', 'a', 's', 't'],
        JidServer::HiddenUser => seq!['l', 'i', 'd'],
        JidServer::Messenger => seq!['m', 's', 'g', 'r'],
        JidServer::Interop => seq!['i', 'n', 't', 'e', 'r', 'o', 'p'],
        JidServer::Newsletter => seq!['n', 'e', 'w', 's', 'l', 'e', 't', 't', 'e', 'r'],
        JidServer::Hosted => seq!['h', 'o', 's', 't', 'e', 'd'],
        JidServer::HostedLID => seq!['h', 'o', 's', 't', 'e', 'd', '.', 'l', 'i', 'd'],
        JidServer::Bot => seq!['b', 'o', 't'],
    }
}

/// The server whose name is `t`, if any.
pub open spec fn server_of_text(t: Seq<char>) -> Option<JidServer> {
    if t == server_text(JidServer::DefaultUser) {
        Some(JidServer::DefaultUser)
    } else if t == server_text(JidServer::Group) {
        Some(JidServer::Group)
    } else if t == server_text(JidServer::LegacyUser) {
        Some(JidServer::LegacyUser)
    } else if t == server_text(JidServer::Broadcast) {
        Some(JidServer::Broadcast)
    } else if t == server_text(JidServer::HiddenUser) {
        Some(JidServer::HiddenUser)
    } else if t == server_text(JidServer::Messenger) {
        Some(JidServer::Messenger)
    } else if t == server_text(JidServer::Interop) {
        Some(JidServer::Interop)
    } else if t == server_text(JidServer::Newsletter) {
        Some(JidServer::Newsletter)
    } else if t == server_text(JidServer::Hosted) {
        Some(JidServer::Hosted)
    } else if t == server_text(JidServer::HostedLID) {
        Some(JidServer::HostedLID)
    } else if t == server_text(JidServer::Bot) {
        Some(JidServer::Bot)
    } else {
        None
    }
}

impl JidServer {
    /// The wire name of the server.
    pub fn as_str(self) -> (r: &'static str)
        ensures
            r@ == server_text(self),
    {
        match self {
            JidServer::DefaultUser => {
                proof { reveal_strlit("s.whatsapp.net"); }
                "s.whatsapp.net"
            },
            JidServer::Group => {
                proof { reveal_strlit("g.us"); }
                "g.us"
            },
            JidServer::LegacyUser => {
                proof { reveal_strlit("c.us"); }
                "c.us"
            },
            JidServer::Broadcast => {
                proof { reveal_strlit("broadcast"); }
                "broadcast"
            },
            JidServer::HiddenUser => {
                proof { reveal_strlit("lid"); }
                "lid"
            },
            JidServer::Messenger => {
                proof { reveal_strlit("msgr"); }
                "msgr"
            },
            JidServer::Interop => {
                proof { reveal_strlit("interop"); }
                "interop"
            },
            JidServer::Newsletter => {
                proof { reveal_strlit("newsletter"); }
                "newsletter"
            },
            JidServer::Hosted => {
                proof { reveal_strlit("hosted"); }
                "hosted"
            },
            JidServer::HostedLID => {
                proof { reveal_strlit("hosted.lid"); }
                "hosted.lid"
            },
            JidServer::Bot => {
                proof { reveal_strlit("bot"); }
                "bot"
            },
        }
    }

    /// The server named by `s`; `None` for a name outside the known set.
    pub fn from_text(s: &str) -> (r: Option<JidServer>)
        ensures
            r == server_of_text(s@),
    {
        if str_eq(s, JidServer::DefaultUser.as_str()) {
            Some(JidServer::DefaultUser)
        } else if str_eq(s, JidServer::Group.as_str()) {
            Some(JidServer::Group)
        } else if str_eq(s, JidServer::LegacyUser.as_str()) {
            Some(JidServer::LegacyUser)
        } else if str_eq(s, JidServer::Broadcast.as_str()) {
            Some(JidServer::Broadcast)
        } else if str_eq(s, JidServer::HiddenUser.as_str()) {
            Some(JidServer::HiddenUser)
        } else if str_eq(s, JidServer::Messenger.as_str()) {
            Some(JidServer::Messenger)
        } else if str_eq(s, JidServer::Interop.as_str()) {
            Some(JidServer::Interop)
        } else if str_eq(s, JidServer::Newsletter.as_str()) {
            Some(JidServer::Newsletter)
        } else if str_eq(s, JidServer::Hosted.as_str()) {
            Some(JidServer::Hosted)
        } else if str_eq(s, JidServer::HostedLID.as_str()) {
            Some(JidServer::HostedLID)
        } else if str_eq(s, JidServer::Bot.as_str()) {
            Some(JidServer::Bot)
        } else {
            None
        }
    }
}

impl core::str::FromStr for JidServer {
    type Err = ();

    fn from_str(s: &str) -> (r: Result<JidServer, ()>)
        ensures
            r == match server_of_text(s@) {
                Some(v) => Ok::<JidServer, ()>(v),
                None => Err::<JidServer, ()>(()),
            },
    {
        match JidServer::from_text(s) {
            Some(server) => Ok(server),
            None => Err(()),
        }
    }
}

/// Length and first character of every server name: enough to tell any two
/// of them apart.
proof fn lemma_server_text_shape()
    ensures
        server_text(JidServer::DefaultUser).len() == 14 && server_text(JidServer::DefaultUser)[0] == 's',
        server_text(JidServer::Group).len() == 4 && server_text(JidServer::Group)[0] == 'g',
        server_text(JidServer::LegacyUser).len() == 4 && server_text(JidServer::LegacyUser)[0] == 'c',
        server_text(JidServer::Broadcast).len() == 9 && server_text(JidServer::Broadcast)[0] == 'b',
        server_text(JidServer::HiddenUser).len() == 3 && server_text(JidServer::HiddenUser)[0] == 'l',
        server_text(JidServer::Messenger).len() == 4 && server_text(JidServer::Messenger)[0] == 'm',
        server_text(JidServer::Interop).len() == 7 && server_text(JidServer::Interop)[0] == 'i',
        server_text(JidServer::Newsletter).len() == 10 && server_text(JidServer::Newsletter)[0] == 'n',
        server_text(JidServer::Hosted).len() == 6 && server_text(JidServer::Hosted)[0] == 'h',
        server_text(JidServer::HostedLID).len() == 10 && server_text(JidServer::HostedLID)[0] == 'h',
        server_text(JidServer::Bot).len() == 3 && server_text(JidServer::Bot)[0] == 'b',
{
}

/// Every server name reads back as that server.
pub proof fn lemma_server_text_round_trip(s: JidServer)
    ensures
        server_of_text(server_text(s)) == Some(s),
{
    lemma_server_text_shape();
}

/// No server name holds the separator `@`.
pub proof fn lemma_server_text_has_no_at(s: JidServer)
    ensures
        !server_text(s).contains('@'),
{
    let t = server_text(s);
    assert forall|i: int| 0 <= i < t.len() implies t[i] != '@' by {
        match s {
            JidServer::DefaultUser => {},
            JidServer::Group => {},
            JidServer::LegacyUser => {},
            JidServer::Broadcast => {},
            JidServer::HiddenUser => {},
            JidServer::Messenger => {},
            JidServer::Interop => {},
            JidServer::Newsletter => {},
            JidServer::Hosted => {},
            JidServer::HostedLID => {},
            JidServer::Bot => {},
        }
    }
}

/// A chat or user identity: a local part (a phone number, a group id, ...)
/// and the server it belongs to. Its text form is `local@server`.
#[derive(Debug, Clone, PartialEq, Eq, Hash)]
pub struct Jid(String, JidServer);

/// `i` is the position of the one and only `@` in `s`.
pub open spec fn sole_at(s: Seq<char>, i: int) -> bool {
    &&& 0 <= i < s.len()
    &&& s[i] == '@'
    &&& forall|j: int| 0 <= j < s.len() && j != i ==> s[j] != '@'
}

/// What the text `s` denotes as an identity: the part before its single `@`
/// and the server named after it; `None` when `s` holds no `@`, more than
/// one, or an unknown server name.
pub open spec fn parse_jid(s: Seq<char>) -> Option<(Seq<char>, JidServer)> {
    if exists|i: int| sole_at(s, i) {
        let i = choose|i: int| sole_at(s, i);
        match server_of_text(s.subrange(i + 1, s.len() as int)) {
            Some(server) => Some((s.subrange(0, i), server)),
            None => None,
        }
    } else {
        None
    }
}

/// The text form `local@server`.
pub open spec fn jid_text(local: Seq<char>, server: JidServer) -> Seq<char> {
    local + seq!['@'] + server_text(server)
}

impl View for Jid {
    type V = (Seq<char>, JidServer);

    closed spec fn view(&self) -> (Seq<char>, JidServer) {
        (self.0@, self.1)
    }
}

impl Jid {
    /// A well-formed identity has no `@` in its local part, so that its text
    /// form reads back as itself.
    pub open spec fn wf(&self) -> bool {
        !self@.0.contains('@')
    }

    /// Reads `local@server`. Fails on text with no `@`, with more than one,
    /// or with an unknown server name.
    pub fn parse(input: &str) -> (r: Option<Jid>)
        ensures
            match r {
                Some(j) => parse_jid(input@) == Some(j@) && j.wf(),
                None => parse_jid(input@) is None,
            },
    {
        let n = input.unicode_len();
        let mut at: Option<usize> = None;
        let mut i: usize = 0;
        while i < n
            invariant
                n == input@.len(),
                i <= n,
                match at {
                    Some(k) => k < i && sole_at(input@.subrange(0, i as int), k as int),
                    None => !input@.subrange(0, i as int).contains('@'),
                },
            decreases n - i,
        {
            if input.get_char(i) == '@' {
                match at {
                    Some(k) => {
                        proof {
                            let s = input@;
                            assert(s[k as int] == '@');
                            assert forall|x: int| !sole_at(s, x) by {
                                if sole_at(s, x) {
                                    assert(x == k as int);
                                    assert(x == i as int);
                                }
                            }
                        }
                        return None;
                    },
                    None => {
                        at = Some(i);
                    },
                }
            }
            proof {
                let s = input@;
                let p = s.subrange(0, i as int);
                let q = s.subrange(0, i + 1);
                match at {
                    Some(k) => {
                        assert forall|j: int| 0 <= j < q.len() && j != k implies q[j] != '@' by {
                            if j < i {
                                assert(q[j] == p[j]);
                            }
                        }
                    },
                    None => {
                        assert forall|j: int| 0 <= j < q.len() implies q[j] != '@' by {
                            if j < i {
                                assert(q[j] == p[j]);
                            }
                        }
                    },
                }
            }
            i = i + 1;
        }
        proof {
            assert(input@.subrange(0, n as int) =~= input@);
        }
        match at {
            None => {
                proof {
                    assert forall|x: int| !sole_at(input@, x) by {
                        if sole_at(input@, x) {
                            assert(input@.contains('@'));
                        }
                    }
                }
                None
            },
            Some(k) => {
                proof {
                    let x = choose|x: int| sole_at(input@, x);
                    assert(sole_at(input@, k as int));
                    assert(x == k as int);
                }
                let server_part = input.substring_char(k + 1, n);
                match JidServer::from_text(server_part) {
                    Some(server) => {
                        let local = input.substring_char(0, k);
                        let name = String::from_str(local);
                        proof {
                            assert forall|j: int| 0 <= j < name@.len() implies name@[j] != '@' by {
                                assert(name@[j] == input@[j]);
                            }
                        }
                        Some(Jid(name, server))
                    },
                    None => None,
                }
            },
        }
    }

    /// An identity on the default user server.
    pub fn from_phone_no(phone_no: String) -> (r: Jid)
        requires
            !phone_no@.contains('@'),
        ensures
            r@ == (phone_no@, JidServer::DefaultUser),
            r.wf(),
    {
        Jid(phone_no, JidServer::DefaultUser)
    }

    /// The phone number, or the id of a group or bot.
    pub fn number(&self) -> (r: &str)
        ensures
            r@ == self@.0,
    {
        self.0.as_str()
    }

    /// The server, or origin, of the identity.
    pub fn server(&self) -> (r: JidServer)
        ensures
            r == self@.1,
    {
        self.1
    }

    /// The text form `local@server`, as the engine expects it.
    pub fn to_id(&self) -> (r: String)
        ensures
            r@ == jid_text(self@.0, self@.1),
    {
        let mut r = self.0.clone();
        proof { reveal_strlit("@"); }
        r.append("@");
        r.append(self.1.as_str());
        r
    }
}

/// Writing a well-formed identity as text and reading it back gives the
/// same local part and server.
pub proof fn lemma_parse_to_id(local: Seq<char>, server: JidServer)
    requires
        !local.contains('@'),
    ensures
        parse_jid(jid_text(local, server)) == Some((local, server)),
{
    let s = jid_text(local, server);
    let k = local.len() as int;
    lemma_server_text_has_no_at(server);
    lemma_server_text_round_trip(server);
    assert(s[k] == '@');
    assert forall|j: int| 0 <= j < s.len() && j != k implies s[j] != '@' by {
        if j < k {
            assert(s[j] == local[j]);
        } else {
            assert(s[j] == server_text(server)[j - k - 1]);
        }
    }
    assert(sole_at(s, k));
    let x = choose|x: int| sole_at(s, x);
    assert(x == k);
    assert(s.subrange(0, k) =~= local);
    assert(s.subrange(k + 1, s.len() as int) =~= server_text(server));
}

/// Text with no `@`, with two or more, or with an unknown server name after
/// its only `@`, denotes no identity.
pub proof fn lemma_parse_rejects(s: Seq<char>)
    ensures
        !s.contains('@') ==> parse_jid(s) is None,
        (exists|i: int, j: int| 0 <= i < j < s.len() && s[i] == '@' && s[j] == '@') ==> parse_jid(s) is None,
        forall|i: int| sole_at(s, i) && server_of_text(s.subrange(i + 1, s.len() as int)) is None
            ==> parse_jid(s) is None,
{
    if !s.contains('@') {
        assert forall|x: int| !sole_at(s, x) by {
            if sole_at(s, x) {
                assert(s.contains('@'));
            }
        }
    }
    if exists|i: int, j: int| 0 <= i < j < s.len() && s[i] == '@' && s[j] == '@' {
        let (i, j) = choose|i: int, j: int| 0 <= i < j < s.len() && s[i] == '@' && s[j] == '@';
        assert forall|x: int| !sole_at(s, x) by {
            if sole_at(s, x) {
                assert(x == i);
                assert(x == j);
            }
        }
    }
    assert forall|i: int| sole_at(s, i) && server_of_text(s.subrange(i + 1, s.len() as int)) is None
        implies parse_jid(s) is None by {
        let x = choose|x: int| sole_at(s, x);
        assert(x == i);
    }
}

} // verus!
