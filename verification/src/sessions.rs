//! The open connections to servers, by the id of their session.

use crate::cache::SshCache;
use crate::text::text_eq;
use std::sync::atomic::AtomicBool;
use std::sync::Arc;
use vstd::prelude::*;

verus! {

/// How a session connects to its server.
#[derive(Debug, PartialEq, Eq)]
pub struct ConnectInfo {
    pub host: String,
    pub port: u16,
    pub username: String,
    pub password: Option<String>,
    pub key_path: Option<String>,
    pub cols: u32,
    pub rows: u32,
}

fn copy_text(text: &Option<String>) -> (copy: Option<String>)
    ensures
        copy == *text,
{
    match text {
        Some(t) => Some(t.clone()),
        None => None,
    }
}

impl Clone for ConnectInfo {
    fn clone(&self) -> (copy: Self)
        ensures
            copy == *self,
    {
        ConnectInfo {
            host: self.host.clone(),
            port: self.port,
            username: self.username.clone(),
            password: copy_text(&self.password),
            key_path: copy_text(&self.key_path),
            cols: self.cols,
            rows: self.rows,
        }
    }
}

/// An open connection: what it was opened with, and the live handles `H` that reach it.
pub struct SshSession<H> {
    pub handle: H,
    pub connect_info: ConnectInfo,
}

/// Pauses or stops a running file transfer.
pub struct TransferControl {
    pub paused: AtomicBool,
    pub stopped: AtomicBool,
}

/// The open connections, by id.
pub struct SessionTable<H> {
    entries: Vec<(String, SshSession<H>)>,
}

/// The open connections, the answers kept for them, and the running transfer.
pub struct SshManager<H> {
    pub sessions: SessionTable<H>,
    pub cache: SshCache,
    pub transfer_ctrl: Option<Arc<TransferControl>>,
}

/// The connections in a list, by their ids: a later one replaces an earlier one.
pub open spec fn session_map<H>(sessions: Seq<(String, SshSession<H>)>) -> Map<
    Seq<char>,
    SshSession<H>,
>
    decreases sessions.len(),
{
    if sessions.len() == 0 {
        Map::empty()
    } else {
        session_map(sessions.drop_last()).insert(sessions.last().0@, sessions.last().1)
    }
}

spec fn distinct_ids<H>(sessions: Seq<(String, SshSession<H>)>) -> bool {
    forall|i: int, j: int|
        0 <= i < j < sessions.len() ==> (#[trigger] sessions[i]).0@ != (#[trigger] sessions[j]).0@
}

proof fn lemma_session_map<H>(sessions: Seq<(String, SshSession<H>)>)
    requires
        distinct_ids(sessions),
    ensures
        forall|i: int|
            0 <= i < sessions.len() ==> session_map(sessions).dom().contains(
                (#[trigger] sessions[i]).0@,
            ) && session_map(sessions)[sessions[i].0@] == sessions[i].1,
        forall|id: Seq<char>| #[trigger]
            session_map(sessions).dom().contains(id) ==> exists|i: int|
                0 <= i < sessions.len() && (#[trigger] sessions[i]).0@ == id,
    decreases sessions.len(),
{
    if sessions.len() > 0 {
        let rest = sessions.drop_last();
        let last = sessions.len() - 1;
        assert forall|i: int, j: int| 0 <= i < j < rest.len() implies (#[trigger] rest[i]).0@ != (
        #[trigger] rest[j]).0@ by {
            assert(sessions[i].0@ != sessions[j].0@);
        }
        lemma_session_map(rest);
        assert forall|i: int| 0 <= i < sessions.len() implies session_map(sessions).dom().contains(
            (#[trigger] sessions[i]).0@,
        ) && session_map(sessions)[sessions[i].0@] == sessions[i].1 by {
            if i < last {
                assert(rest[i] == sessions[i]);
                assert(sessions[i].0@ != sessions[last].0@);
            }
        }
        assert forall|id: Seq<char>| #[trigger]
            session_map(sessions).dom().contains(id) implies exists|i: int|
            0 <= i < sessions.len() && (#[trigger] sessions[i]).0@ == id by {
            if id == sessions.last().0@ {
                assert(sessions[last].0@ == id);
            } else {
                assert(session_map(rest).dom().contains(id));
                let i = choose|i: int| 0 <= i < rest.len() && (#[trigger] rest[i]).0@ == id;
                assert(sessions[i].0@ == id);
            }
        }
    }
}

/// Whether a connection goes to an account on a server.
pub open spec fn reaches(
    info: ConnectInfo,
    host: Seq<char>,
    port: u16,
    username: Seq<char>,
) -> bool {
    info.host@ == host && info.port == port && info.username@ == username
}

/// Whether some open connection goes to an account on a server.
pub open spec fn connected<H>(
    sessions: Map<Seq<char>, SshSession<H>>,
    host: Seq<char>,
    port: u16,
    username: Seq<char>,
) -> bool {
    exists|id: Seq<char>| #[trigger]
        sessions.dom().contains(id) && reaches(sessions[id].connect_info, host, port, username)
}

/// What the connection with an id was opened with, where there is one.
pub open spec fn kept_info<H>(
    sessions: Map<Seq<char>, SshSession<H>>,
    session_id: Seq<char>,
) -> Option<ConnectInfo> {
    if sessions.dom().contains(session_id) {
        Some(sessions[session_id].connect_info)
    } else {
        None
    }
}

impl<H> View for SessionTable<H> {
    type V = Map<Seq<char>, SshSession<H>>;

    closed spec fn view(&self) -> Map<Seq<char>, SshSession<H>> {
        session_map(self.entries@)
    }
}

impl<H> SessionTable<H> {
    /// Whether each id occurs once.
    pub closed spec fn well_formed(&self) -> bool {
        distinct_ids(self.entries@)
    }

    /// A table without connections.
    pub fn new() -> (table: Self)
        ensures
            table.well_formed(),
            table@ == Map::<Seq<char>, SshSession<H>>::empty(),
    {
        SessionTable { entries: Vec::new() }
    }

    fn position(&self, session_id: &str) -> (index: Option<usize>)
        requires
            self.well_formed(),
        ensures
            match index {
                Some(i) => {
                    &&& i < self.entries@.len()
                    &&& self.entries@[i as int].0@ == session_id@
                    &&& self@.dom().contains(session_id@)
                    &&& self@[session_id@] == self.entries@[i as int].1
                },
                None => !self@.dom().contains(session_id@),
            },
    {
        proof {
            lemma_session_map(self.entries@);
        }
        let mut i: usize = 0;
        while i < self.entries.len()
            invariant
                i <= self.entries@.len(),
                distinct_ids(self.entries@),
                forall|j: int| 0 <= j < i ==> (#[trigger] self.entries@[j]).0@ != session_id@,
            decreases self.entries@.len() - i,
        {
            if text_eq(self.entries[i].0.as_str(), session_id) {
                proof {
                    lemma_session_map(self.entries@);
                    assert(self.entries@[i as int].0@ == session_id@);
                }
                return Some(i);
            }
            i += 1;
        }
        None
    }

    /// Adds a connection, in place of the one that had its id.
    pub fn insert(&mut self, session_id: String, session: SshSession<H>)
        requires
            old(self).well_formed(),
        ensures
            final(self).well_formed(),
            final(self)@ == old(self)@.insert(session_id@, session),
    {
        let ghost before = self@;
        let _ = self.remove(session_id.as_str());
        let ghost rest = self.entries@;
        proof {
            lemma_session_map(rest);
        }
        self.entries.push((session_id, session));
        proof {
            assert(self.entries@.drop_last() == rest);
            assert forall|i: int, j: int| 0 <= i < j < self.entries@.len() implies (
            #[trigger] self.entries@[i]).0@ != (#[trigger] self.entries@[j]).0@ by {
                assert(self.entries@[i] == rest[i]);
                if j < rest.len() {
                    assert(self.entries@[j] == rest[j]);
                } else {
                    assert(session_map(rest).dom().contains(rest[i].0@));
                }
            }
            assert(self@ =~= before.insert(session_id@, session));
        }
    }

    /// The connection with an id.
    pub fn get(&self, session_id: &str) -> (session: Option<&SshSession<H>>)
        requires
            self.well_formed(),
        ensures
            match session {
                Some(s) => self@.dom().contains(session_id@) && *s == self@[session_id@],
                None => !self@.dom().contains(session_id@),
            },
    {
        match self.position(session_id) {
            Some(i) => Some(&self.entries[i].1),
            None => None,
        }
    }

    /// The id of an open connection to an account on a server.
    pub fn find(&self, host: &str, port: u16, username: &str) -> (id: Option<String>)
        requires
            self.well_formed(),
        ensures
            id is Some <==> connected(self@, host@, port, username@),
            id is Some ==> self@.dom().contains(id->0@) && reaches(
                self@[id->0@].connect_info,
                host@,
                port,
                username@,
            ),
    {
        let mut i: usize = 0;
        while i < self.entries.len()
            invariant
                i <= self.entries@.len(),
                distinct_ids(self.entries@),
                forall|j: int|
                    0 <= j < i ==> !reaches(
                        (#[trigger] self.entries@[j]).1.connect_info,
                        host@,
                        port,
                        username@,
                    ),
            decreases self.entries@.len() - i,
        {
            let info = &self.entries[i].1.connect_info;
            if text_eq(info.host.as_str(), host) && info.port == port && text_eq(
                info.username.as_str(),
                username,
            ) {
                proof {
                    lemma_session_map(self.entries@);
                    assert(self@.dom().contains(self.entries@[i as int].0@));
                }
                return Some(self.entries[i].0.clone());
            }
            i += 1;
        }
        proof {
            lemma_session_map(self.entries@);
            if connected(self@, host@, port, username@) {
                let id = choose|id: Seq<char>| #[trigger]
                    self@.dom().contains(id) && reaches(
                        self@[id].connect_info,
                        host@,
                        port,
                        username@,
                    );
                let j = choose|j: int|
                    0 <= j < self.entries@.len() && (#[trigger] self.entries@[j]).0@ == id;
                assert(!reaches(self.entries@[j].1.connect_info, host@, port, username@));
            }
        }
        None
    }

    /// Takes the connection with an id out.
    pub fn remove(&mut self, session_id: &str) -> (session: Option<SshSession<H>>)
        requires
            old(self).well_formed(),
        ensures
            final(self).well_formed(),
            final(self)@ == old(self)@.remove(session_id@),
            match session {
                Some(s) => old(self)@.dom().contains(session_id@) && s
                    == old(self)@[session_id@],
                None => !old(self)@.dom().contains(session_id@),
            },
    {
        match self.position(session_id) {
            Some(i) => {
                let ghost all = self.entries@;
                let (_, session) = self.entries.remove(i);
                proof {
                    let rest = self.entries@;
                    assert(rest == all.remove(i as int));
                    assert forall|a: int, b: int| 0 <= a < b < rest.len() implies (
                    #[trigger] rest[a]).0@ != (#[trigger] rest[b]).0@ by {
                        let a2 = if a < i {
                            a
                        } else {
                            a + 1
                        };
                        let b2 = if b < i {
                            b
                        } else {
                            b + 1
                        };
                        assert(all[a2].0@ != all[b2].0@);
                    }
                    lemma_session_map(all);
                    lemma_session_map(rest);
                    assert forall|id: Seq<char>| #[trigger]
                        session_map(rest).dom().contains(id) <==> session_map(all).remove(
                        session_id@,
                    ).dom().contains(id) by {
                        if session_map(rest).dom().contains(id) {
                            let k = choose|k: int| 0 <= k < rest.len() && (#[trigger] rest[k]).0@ == id;
                            let k2 = if k < i {
                                k
                            } else {
                                k + 1
                            };
                            assert(all[k2].0@ == id);
                            assert(all[i as int].0@ == session_id@);
                        }
                        if session_map(all).remove(session_id@).dom().contains(id) {
                            assert(session_map(all).dom().contains(id));
                            let k = choose|k: int| 0 <= k < all.len() && (#[trigger] all[k]).0@ == id;
                            let k2 = if k < i {
                                k
                            } else {
                                k - 1
                            };
                            assert(rest[k2] == all[k]);
                            assert(rest[k2].0@ == id);
                        }
                    }
                    assert forall|id: Seq<char>| #[trigger]
                        session_map(rest).dom().contains(id) implies session_map(rest)[id]
                        == session_map(all)[id] by {
                        let k = choose|k: int| 0 <= k < rest.len() && (#[trigger] rest[k]).0@ == id;
                        let k2 = if k < i {
                            k
                        } else {
                            k + 1
                        };
                        assert(all[k2] == rest[k]);
                        assert(all[k2].0@ == id);
                    }
                    assert(session_map(rest) =~= session_map(all).remove(session_id@));
                }
                Some(session)
            },
            None => {
                assert(self@ =~= self@.remove(session_id@));
                None
            },
        }
    }
}

impl<H> SshManager<H> {
    /// Whether each id occurs once.
    pub open spec fn well_formed(&self) -> bool {
        self.sessions.well_formed()
    }

    /// A manager without connections.
    pub fn new() -> (manager: Self)
        ensures
            manager.well_formed(),
            manager.sessions@ == Map::<Seq<char>, SshSession<H>>::empty(),
            manager.cache.contents() == crate::cache::Contents::empty(),
            manager.transfer_ctrl is None,
    {
        SshManager {
            sessions: SessionTable::new(),
            cache: SshCache::new(),
            transfer_ctrl: None,
        }
    }

    /// Adds a connection, in place of the one that had its id.
    pub fn insert_session(&mut self, session_id: String, session: SshSession<H>)
        requires
            old(self).well_formed(),
        ensures
            final(self).well_formed(),
            final(self).sessions@ == old(self).sessions@.insert(session_id@, session),
            final(self).cache == old(self).cache,
            final(self).transfer_ctrl == old(self).transfer_ctrl,
    {
        self.sessions.insert(session_id, session);
    }

    /// The connection with an id.
    pub fn get_session(&self, session_id: &str) -> (session: Result<&SshSession<H>, String>)
        requires
            self.well_formed(),
        ensures
            match session {
                Ok(s) => self.sessions@.dom().contains(session_id@) && *s
                    == self.sessions@[session_id@],
                Err(message) => !self.sessions@.dom().contains(session_id@) && message@
                    == "Session not found"@,
            },
    {
        match self.sessions.get(session_id) {
            Some(session) => Ok(session),
            None => Err("Session not found".to_owned()),
        }
    }

    /// The id of an open connection to an account on a server.
    pub fn find_session_id(&self, host: &str, port: u16, username: &str) -> (id: Option<String>)
        requires
            self.well_formed(),
        ensures
            id is Some <==> connected(self.sessions@, host@, port, username@),
            id is Some ==> self.sessions@.dom().contains(id->0@) && reaches(
                self.sessions@[id->0@].connect_info,
                host@,
                port,
                username@,
            ),
    {
        self.sessions.find(host, port, username)
    }

    /// The server of the connection with an id.
    pub fn get_host(&self, session_id: &str) -> (host: Option<String>)
        requires
            self.well_formed(),
        ensures
            match host {
                Some(h) => self.sessions@.dom().contains(session_id@) && h
                    == self.sessions@[session_id@].connect_info.host,
                None => !self.sessions@.dom().contains(session_id@),
            },
    {
        match self.sessions.get(session_id) {
            Some(session) => Some(session.connect_info.host.clone()),
            None => None,
        }
    }

    /// What the connection with an id was opened with.
    pub fn get_connect_info(&self, session_id: &str) -> (info: Option<ConnectInfo>)
        requires
            self.well_formed(),
        ensures
            info == kept_info(self.sessions@, session_id@),
    {
        match self.sessions.get(session_id) {
            Some(session) => Some(session.connect_info.clone()),
            None => None,
        }
    }

    /// Takes the connection with an id out.
    pub fn remove_session(&mut self, session_id: &str) -> (session: Option<SshSession<H>>)
        requires
            old(self).well_formed(),
        ensures
            final(self).well_formed(),
            final(self).sessions@ == old(self).sessions@.remove(session_id@),
            final(self).cache == old(self).cache,
            final(self).transfer_ctrl == old(self).transfer_ctrl,
            match session {
                Some(s) => old(self).sessions@.dom().contains(session_id@) && s
                    == old(self).sessions@[session_id@],
                None => !old(self).sessions@.dom().contains(session_id@),
            },
    {
        self.sessions.remove(session_id)
    }

    /// Adds a connection that was opened; where it could not be, nothing changes.
    pub fn connect(&mut self, session_id: String, opened: Result<SshSession<H>, String>) -> (
    outcome: Result<(), String>)
        requires
            old(self).well_formed(),
        ensures
            final(self).well_formed(),
            final(self).cache == old(self).cache,
            final(self).transfer_ctrl == old(self).transfer_ctrl,
            match opened {
                Ok(session) => {
                    &&& outcome is Ok
                    &&& final(self).sessions@ == old(self).sessions@.insert(session_id@, session)
                },
                Err(message) => outcome == Err::<(), String>(message) && final(self).sessions@
                    == old(self).sessions@,
            },
    {
        match opened {
            Ok(session) => {
                self.insert_session(session_id, session);
                Ok(())
            },
            Err(message) => Err(message),
        }
    }

    /// Takes the connection with an id out, to be closed.
    pub fn disconnect(&mut self, session_id: &str) -> (session: Option<SshSession<H>>)
        requires
            old(self).well_formed(),
        ensures
            final(self).well_formed(),
            final(self).sessions@ == old(self).sessions@.remove(session_id@),
            final(self).cache == old(self).cache,
            final(self).transfer_ctrl == old(self).transfer_ctrl,
            match session {
                Some(s) => old(self).sessions@.dom().contains(session_id@) && s
                    == old(self).sessions@[session_id@],
                None => !old(self).sessions@.dom().contains(session_id@),
            },
    {
        self.remove_session(session_id)
    }

    /// Takes the connection with an id out, to be closed, and tells what it is to be opened
    /// with again.
    pub fn reconnect(&mut self, session_id: &str) -> (taken: Result<
        (ConnectInfo, SshSession<H>),
        String,
    >)
        requires
            old(self).well_formed(),
        ensures
            final(self).well_formed(),
            final(self).cache == old(self).cache,
            final(self).transfer_ctrl == old(self).transfer_ctrl,
            final(self).sessions@ == old(self).sessions@.remove(session_id@),
            match taken {
                Ok((info, session)) => {
                    &&& old(self).sessions@.dom().contains(session_id@)
                    &&& session == old(self).sessions@[session_id@]
                    &&& info == session.connect_info
                },
                Err(message) => !old(self).sessions@.dom().contains(session_id@) && message@
                    == "Session not found"@,
            },
    {
        match self.remove_session(session_id) {
            Some(session) => {
                let info = session.connect_info.clone();
                Ok((info, session))
            },
            None => Err("Session not found".to_owned()),
        }
    }

    /// Adds a connection that was opened again, where that did not take too long.
    pub fn reconnected(
        &mut self,
        session_id: String,
        opened: Option<Result<SshSession<H>, String>>,
    ) -> (outcome: Result<(), String>)
        requires
            old(self).well_formed(),
        ensures
            final(self).well_formed(),
            final(self).cache == old(self).cache,
            final(self).transfer_ctrl == old(self).transfer_ctrl,
            match opened {
                Some(Ok(session)) => {
                    &&& outcome is Ok
                    &&& final(self).sessions@ == old(self).sessions@.insert(session_id@, session)
                },
                Some(Err(message)) => {
                    &&& outcome == Err::<(), String>(message)
                    &&& final(self).sessions@ == old(self).sessions@
                },
                None => final(self).sessions@ == old(self).sessions@ && outcome is Err
                    && outcome->Err_0@ == "Reconnect timed out (30s)"@,
            },
    {
        match opened {
            Some(opened) => self.connect(session_id, opened),
            None => Err("Reconnect timed out (30s)".to_owned()),
        }
    }
}

/// A connection that was added is found under its id, and one that was removed is not; other
/// connections stay.
pub proof fn law_sessions_by_id<H>(
    sessions: Map<Seq<char>, SshSession<H>>,
    id: Seq<char>,
    session: SshSession<H>,
    other: Seq<char>,
)
    ensures
        sessions.insert(id, session).dom().contains(id),
        sessions.insert(id, session)[id] == session,
        !sessions.remove(id).dom().contains(id),
        other != id && sessions.dom().contains(other) ==> sessions.insert(
            id,
            session,
        ).dom().contains(other) && sessions.insert(id, session)[other] == sessions[other]
            && sessions.remove(id).dom().contains(other) && sessions.remove(id)[other]
            == sessions[other],
{
}

/// While a connection is open, an account that it reaches counts as connected.
pub proof fn law_open_session_is_connected<H>(
    sessions: Map<Seq<char>, SshSession<H>>,
    id: Seq<char>,
    session: SshSession<H>,
)
    ensures
        connected(
            sessions.insert(id, session),
            session.connect_info.host@,
            session.connect_info.port,
            session.connect_info.username@,
        ),
{
    assert(sessions.insert(id, session).dom().contains(id));
}

/// What a connection was opened with is told of exactly the connections that are there, and of
/// each its own.
pub proof fn law_info_is_that_of_the_session<H>(
    sessions: Map<Seq<char>, SshSession<H>>,
    id: Seq<char>,
)
    ensures
        sessions.dom().contains(id) ==> kept_info(sessions, id) == Some(sessions[id].connect_info),
        !sessions.dom().contains(id) ==> kept_info(sessions, id) is None,
{
}

/// A connection reaches an account exactly where it goes to that host and that port with that
/// user name, and an account counts as connected exactly where some open connection reaches it.
pub proof fn law_what_a_connection_reaches<H>(
    sessions: Map<Seq<char>, SshSession<H>>,
    info: ConnectInfo,
    host: Seq<char>,
    port: u16,
    username: Seq<char>,
)
    ensures
        reaches(info, host, port, username) <==> info.host@ == host && info.port == port
            && info.username@ == username,
        connected(sessions, host, port, username) <==> exists|id: Seq<char>| #[trigger]
            sessions.dom().contains(id) && sessions[id].connect_info.host@ == host
                && sessions[id].connect_info.port == port
                && sessions[id].connect_info.username@ == username,
{
}

} // verus!
