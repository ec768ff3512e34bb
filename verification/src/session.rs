//! Who is connected to the socket server, and who sits in which voice
//! channel. Connections, users and channels are held in `indexmap`
//! collections, as they are named by their ids.

use vstd::prelude::*;

use indexmap::{IndexMap, IndexSet};
use vstd::string::StringExecFns;

use crate::api_errors::{ApplicationError, INTERNAL_SERVER_ERROR};

verus! {

#[verifier::external_type_specification]
#[verifier::external_body]
#[verifier::reject_recursive_types(K)]
#[verifier::reject_recursive_types(V)]
#[verifier::reject_recursive_types(S)]
pub struct ExIndexMap<K, V, S>(indexmap::IndexMap<K, V, S>);

#[verifier::external_type_specification]
#[verifier::external_body]
#[verifier::reject_recursive_types(T)]
#[verifier::reject_recursive_types(S)]
pub struct ExIndexSet<T, S>(indexmap::IndexSet<T, S>);

/// A map from connection ids to user ids.
pub type ConnMap = IndexMap<u128, u128>;

/// A map from ids to sets of ids.
pub type SetMap = IndexMap<u128, IndexSet<u128>>;

/// The ids an `IndexSet` holds, in its order.
pub uninterp spec fn set_items(s: IndexSet<u128>) -> Seq<u128>;

/// What a map from connection ids to user ids holds.
pub uninterp spec fn conn_entries(m: ConnMap) -> Map<u128, u128>;

/// What a map from ids to sets of ids holds: each key with the ids of its set.
pub uninterp spec fn set_entries(m: SetMap) -> Map<u128, Seq<u128>>;

/// The first position of `v` in `s`, if any.
pub open spec fn first_pos(s: Seq<u128>, v: u128) -> Option<int>
    decreases s.len(),
{
    if s.len() == 0 {
        None
    } else if s[0] == v {
        Some(0)
    } else {
        match first_pos(s.drop_first(), v) {
            Some(i) => Some(i + 1),
            None => None,
        }
    }
}

/// `s` after `IndexSet::swap_remove` of `v`: the last item takes the place
/// of `v`, and the set shrinks by one; unchanged when `v` is absent.
pub open spec fn swap_removed(s: Seq<u128>, v: u128) -> Seq<u128> {
    match first_pos(s, v) {
        Some(i) => s.update(i, s.last()).drop_last(),
        None => s,
    }
}

/// `s` after `IndexSet::insert` of `v`: appended when absent.
pub open spec fn inserted(s: Seq<u128>, v: u128) -> Seq<u128> {
    if s.contains(v) {
        s
    } else {
        s.push(v)
    }
}

/// Calls `IndexSet::new`. Claims the set is empty.
#[verifier::external_body]
fn set_new() -> (r: IndexSet<u128>)
    ensures
        set_items(r) == Seq::<u128>::empty(),
{
    IndexSet::new()
}

/// Calls `IndexSet::insert`. Claims what its documentation says: a value
/// already present leaves the set as it was and gives `false`; a new one is
/// appended and gives `true`.
#[verifier::external_body]
fn set_insert(s: &mut IndexSet<u128>, v: u128) -> (r: bool)
    ensures
        set_items(*final(s)) == inserted(set_items(*old(s)), v),
        r == !set_items(*old(s)).contains(v),
{
    s.insert(v)
}

/// Calls `IndexSet::swap_remove`. Claims what its documentation says: the
/// last item takes the place of the removed one, and the answer tells
/// whether it was present.
#[verifier::external_body]
fn set_swap_remove(s: &mut IndexSet<u128>, v: u128) -> (r: bool)
    ensures
        set_items(*final(s)) == swap_removed(set_items(*old(s)), v),
        r == set_items(*old(s)).contains(v),
{
    s.swap_remove(&v)
}

/// Calls `IndexSet::len`. Claims it is the number of items.
#[verifier::external_body]
fn set_len(s: &IndexSet<u128>) -> (r: usize)
    ensures
        r == set_items(*s).len(),
{
    s.len()
}

/// Calls `IndexSet::get_index`. Claims it gives the item at that position,
/// if there is one.
#[verifier::external_body]
fn set_get_index(s: &IndexSet<u128>, i: usize) -> (r: Option<u128>)
    ensures
        i < set_items(*s).len() ==> r == Some(set_items(*s)[i as int]),
        i >= set_items(*s).len() ==> r is None,
{
    s.get_index(i).copied()
}

/// Calls `IndexMap::new`. Claims the map is empty.
#[verifier::external_body]
fn conn_map_new() -> (r: ConnMap)
    ensures
        conn_entries(r).dom() == Set::<u128>::empty(),
{
    IndexMap::new()
}

/// Calls `IndexMap::insert`. Claims the key now maps to the value, and the
/// answer is what it mapped to before.
#[verifier::external_body]
fn conn_map_insert(m: &mut ConnMap, k: u128, v: u128) -> (r: Option<u128>)
    ensures
        conn_entries(*final(m)) == conn_entries(*old(m)).insert(k, v),
        r == (if conn_entries(*old(m)).dom().contains(k) {
            Some(conn_entries(*old(m))[k])
        } else {
            None
        }),
{
    m.insert(k, v)
}

/// Calls `IndexMap::swap_remove`. Claims the key is gone, and the answer is
/// what it mapped to.
#[verifier::external_body]
fn conn_map_swap_remove(m: &mut ConnMap, k: u128) -> (r: Option<u128>)
    ensures
        conn_entries(*final(m)) == conn_entries(*old(m)).remove(k),
        r == (if conn_entries(*old(m)).dom().contains(k) {
            Some(conn_entries(*old(m))[k])
        } else {
            None
        }),
{
    m.swap_remove(&k)
}

/// Calls `IndexMap::contains_key`.
#[verifier::external_body]
fn conn_map_contains(m: &ConnMap, k: u128) -> (r: bool)
    ensures
        r == conn_entries(*m).dom().contains(k),
{
    m.contains_key(&k)
}

/// Calls `IndexMap::new`. Claims the map is empty.
#[verifier::external_body]
fn sets_new() -> (r: SetMap)
    ensures
        set_entries(r).dom() == Set::<u128>::empty(),
{
    IndexMap::new()
}

/// Calls `IndexMap::get`. Claims it gives the set stored under the key.
#[verifier::external_body]
fn sets_get(m: &SetMap, k: u128) -> (r: Option<&IndexSet<u128>>)
    ensures
        match r {
            Some(s) => set_entries(*m).dom().contains(k) && set_items(*s) == set_entries(*m)[k],
            None => !set_entries(*m).dom().contains(k),
        },
{
    m.get(&k)
}

/// Calls `IndexMap::insert`. Claims the key now maps to the set.
#[verifier::external_body]
fn sets_insert(m: &mut SetMap, k: u128, s: IndexSet<u128>)
    ensures
        set_entries(*final(m)) == set_entries(*old(m)).insert(k, set_items(s)),
{
    m.insert(k, s);
}

/// Calls `IndexMap::swap_remove`. Claims the key is gone, and the answer is
/// the set it mapped to.
#[verifier::external_body]
fn sets_swap_remove(m: &mut SetMap, k: u128) -> (r: Option<IndexSet<u128>>)
    ensures
        set_entries(*final(m)) == set_entries(*old(m)).remove(k),
        match r {
            Some(s) => set_entries(*old(m)).dom().contains(k) && set_items(s) == set_entries(
                *old(m),
            )[k],
            None => !set_entries(*old(m)).dom().contains(k),
        },
{
    m.swap_remove(&k)
}

/// Calls `uuid::Uuid::now_v7` and reads the id as an integer. Claims only
/// the marks every such id carries: version 7 in bits 76 to 79 and the
/// RFC 9562 variant (binary 10) in bits 62 and 63. The rest rests on the
/// clock and on chance.
#[verifier::external_body]
pub(crate) fn new_v7_id() -> (r: u128)
    ensures
        (r >> 76u128) & 0xfu128 == 7,
        (r >> 62u128) & 0x3u128 == 2,
{
    uuid::Uuid::now_v7().as_u128()
}

/// Why a registry operation failed.
#[derive(Debug, Clone, Copy, PartialEq, Eq, Structural)]
pub enum SessionError {
    /// The registry's lock was poisoned.
    Lock,
    /// The user has no open connection.
    NoConns,
}

/// The message of a registry failure.
pub open spec fn session_error_message(e: SessionError) -> Seq<char> {
    match e {
        SessionError::Lock => "lock error"@,
        SessionError::NoConns => "no connections available"@,
    }
}

impl SessionError {
    /// The message of the failure.
    pub fn message(&self) -> (r: String)
        ensures
            r@ == session_error_message(*self),
    {
        match self {
            SessionError::Lock => String::from_str("lock error"),
            SessionError::NoConns => String::from_str("no connections available"),
        }
    }

    /// The answer to a socket upgrade whose connection could not be
    /// registered: a 500 carrying the failure's message.
    pub fn registration_failed(&self) -> (r: ApplicationError)
        ensures
            r.code == INTERNAL_SERVER_ERROR,
            r.message@ == ""@,
            r.target@ == ""@,
            r.details@.len() == 0,
            r.innererror matches Some(ctx) && ctx.trace_view() == seq![session_error_message(*self)],
    {
        ApplicationError::internal_server_error("", "", self.message())
    }
}

/// The live connections and voice channels of the socket server.
pub struct SessionRegistry {
    connections: ConnMap,
    users: SetMap,
    voice: SetMap,
}

/// The ids listed under `k`, none when `k` is absent.
pub open spec fn listed(m: Map<u128, Seq<u128>>, k: u128) -> Seq<u128> {
    if m.dom().contains(k) {
        m[k]
    } else {
        Seq::empty()
    }
}

/// The voice channels after `user` joins `channel`.
pub open spec fn joined(voice: Map<u128, Seq<u128>>, channel: u128, user: u128) -> Map<u128, Seq<u128>> {
    voice.insert(channel, inserted(listed(voice, channel), user))
}

/// The voice channels after `user` leaves `channel`; a channel left empty is
/// dropped.
pub open spec fn left(voice: Map<u128, Seq<u128>>, channel: u128, user: u128) -> Map<u128, Seq<u128>> {
    if voice.dom().contains(channel) {
        let rest = swap_removed(voice[channel], user);
        if rest.len() == 0 {
            voice.remove(channel)
        } else {
            voice.insert(channel, rest)
        }
    } else {
        voice
    }
}

/// The connections of `users` that are still open, for each target in turn.
pub open spec fn open_conns(conns: Map<u128, u128>, ids: Seq<u128>) -> Seq<u128>
    decreases ids.len(),
{
    if ids.len() == 0 {
        Seq::empty()
    } else if conns.dom().contains(ids.last()) {
        open_conns(conns, ids.drop_last()).push(ids.last())
    } else {
        open_conns(conns, ids.drop_last())
    }
}

/// The open connections of each target user, target by target.
pub open spec fn fan_out(conns: Map<u128, u128>, users: Map<u128, Seq<u128>>, targets: Seq<u128>) -> Seq<u128>
    decreases targets.len(),
{
    if targets.len() == 0 {
        Seq::empty()
    } else {
        fan_out(conns, users, targets.drop_last()) + open_conns(conns, listed(users, targets.last()))
    }
}

/// Every open connection is listed under its user, and every id listed
/// under a user is an open connection of that user; no id is listed twice
/// under a key; no voice channel is kept empty.
pub open spec fn registry_wf(conns: Map<u128, u128>, users: Map<u128, Seq<u128>>, voice: Map<u128, Seq<u128>>) -> bool {
    &&& forall|c: u128| #[trigger] conns.dom().contains(c) ==> listed(users, conns[c]).contains(c)
    &&& forall|u: u128, c: u128|
        #![trigger users[u].contains(c)]
        users.dom().contains(u) && users[u].contains(c) ==> conns.dom().contains(c) && conns[c] == u
    &&& forall|u: u128| #[trigger] users.dom().contains(u) ==> users[u].no_duplicates()
    &&& forall|ch: u128| #[trigger]
        voice.dom().contains(ch) ==> voice[ch].no_duplicates() && voice[ch].len() > 0
}

/// The connections listed under each user after the connection `c` is
/// unregistered: taken off its user's list, if it is open.
pub open spec fn users_after_unregister(conns: Map<u128, u128>, users: Map<u128, Seq<u128>>, c: u128) -> Map<
    u128,
    Seq<u128>,
> {
    if conns.dom().contains(c) && users.dom().contains(conns[c]) {
        users.insert(conns[c], swap_removed(users[conns[c]], c))
    } else {
        users
    }
}

/// The connections listed under each user after `c` is registered for
/// `user`: an open connection of that id is unregistered first, then `c` is
/// listed under `user`.
pub open spec fn users_after_register(conns: Map<u128, u128>, users: Map<u128, Seq<u128>>, c: u128, user: u128) -> Map<
    u128,
    Seq<u128>,
> {
    let u0 = users_after_unregister(conns, users, c);
    u0.insert(user, inserted(listed(u0, user), c))
}

proof fn lemma_voice_insert_wf(
    conns: Map<u128, u128>,
    users: Map<u128, Seq<u128>>,
    voice: Map<u128, Seq<u128>>,
    ch: u128,
    s: Seq<u128>,
)
    requires
        registry_wf(conns, users, voice),
        s.no_duplicates(),
        s.len() > 0,
    ensures
        registry_wf(conns, users, voice.insert(ch, s)),
{
    let v2 = voice.insert(ch, s);
    assert forall|c: u128| #[trigger] v2.dom().contains(c) implies v2[c].no_duplicates() && v2[c].len() > 0 by {
        if c != ch {
            assert(voice.dom().contains(c));
        }
    }
}

proof fn lemma_voice_remove_wf(
    conns: Map<u128, u128>,
    users: Map<u128, Seq<u128>>,
    voice: Map<u128, Seq<u128>>,
    ch: u128,
)
    requires
        registry_wf(conns, users, voice),
    ensures
        registry_wf(conns, users, voice.remove(ch)),
{
    let v2 = voice.remove(ch);
    assert forall|c: u128| #[trigger] v2.dom().contains(c) implies v2[c].no_duplicates() && v2[c].len() > 0 by {
        assert(voice.dom().contains(c));
    }
}

impl SessionRegistry {
    /// The user of each open connection.
    pub closed spec fn conns(&self) -> Map<u128, u128> {
        conn_entries(self.connections)
    }

    /// The connections listed under each user.
    pub closed spec fn users(&self) -> Map<u128, Seq<u128>> {
        set_entries(self.users)
    }

    /// The members of each voice channel, in order of joining (as reordered
    /// by departures).
    pub closed spec fn voice(&self) -> Map<u128, Seq<u128>> {
        set_entries(self.voice)
    }

    /// Every open connection is listed under its user; no id is listed twice
    /// under a key; no voice channel is kept empty.
    pub open spec fn wf(&self) -> bool {
        registry_wf(self.conns(), self.users(), self.voice())
    }

    /// An empty registry.
    pub fn new() -> (r: Self)
        ensures
            r.wf(),
            r.conns() == Map::<u128, u128>::empty(),
            r.users() == Map::<u128, Seq<u128>>::empty(),
            r.voice() == Map::<u128, Seq<u128>>::empty(),
    {
        let r = SessionRegistry { connections: conn_map_new(), users: sets_new(), voice: sets_new() };
        assert(r.conns() =~= Map::<u128, u128>::empty());
        assert(r.users() =~= Map::<u128, Seq<u128>>::empty());
        assert(r.voice() =~= Map::<u128, Seq<u128>>::empty());
        r
    }

    /// Adds `user_id` to the members of `channel_id`.
    pub fn join_voice(&mut self, channel_id: u128, user_id: u128) -> (r: Result<(), SessionError>)
        requires
            old(self).wf(),
        ensures
            final(self).wf(),
            r is Ok,
            final(self).voice() == joined(old(self).voice(), channel_id, user_id),
            final(self).conns() == old(self).conns(),
            final(self).users() == old(self).users(),
    {
        let mut members = match sets_swap_remove(&mut self.voice, channel_id) {
            Some(s) => s,
            None => set_new(),
        };
        set_insert(&mut members, user_id);
        proof {
            lemma_inserted_distinct(listed(old(self).voice(), channel_id), user_id);
        }
        sets_insert(&mut self.voice, channel_id, members);
        proof {
            let v1 = old(self).voice().remove(channel_id);
            lemma_voice_remove_wf(old(self).conns(), old(self).users(), old(self).voice(), channel_id);
            lemma_voice_insert_wf(
                old(self).conns(),
                old(self).users(),
                v1,
                channel_id,
                inserted(listed(old(self).voice(), channel_id), user_id),
            );
        }
        assert(self.voice() =~= joined(old(self).voice(), channel_id, user_id));
        Ok(())
    }

    /// Removes `user_id` from the members of `channel_id`, and forgets the
    /// channel once nobody is left in it.
    pub fn leave_voice(&mut self, channel_id: u128, user_id: u128) -> (r: Result<(), SessionError>)
        requires
            old(self).wf(),
        ensures
            final(self).wf(),
            r is Ok,
            final(self).voice() == left(old(self).voice(), channel_id, user_id),
            final(self).conns() == old(self).conns(),
            final(self).users() == old(self).users(),
    {
        if let Some(mut members) = sets_swap_remove(&mut self.voice, channel_id) {
            set_swap_remove(&mut members, user_id);
            proof {
                lemma_swap_removed_distinct(old(self).voice()[channel_id], user_id);
            }
            proof {
                lemma_voice_remove_wf(old(self).conns(), old(self).users(), old(self).voice(), channel_id);
            }
            if set_len(&members) > 0 {
                sets_insert(&mut self.voice, channel_id, members);
                proof {
                    lemma_voice_insert_wf(
                        old(self).conns(),
                        old(self).users(),
                        old(self).voice().remove(channel_id),
                        channel_id,
                        swap_removed(old(self).voice()[channel_id], user_id),
                    );
                }
            }
        }
        assert(self.voice() =~= left(old(self).voice(), channel_id, user_id));
        Ok(())
    }

    /// Records the open connection `conn_id` of `user_id`. An id that is
    /// already open is unregistered first, so that no list keeps it for
    /// another user.
    pub fn register_conn(&mut self, conn_id: u128, user_id: u128)
        requires
            old(self).wf(),
        ensures
            final(self).wf(),
            final(self).conns() == old(self).conns().insert(conn_id, user_id),
            final(self).users() == users_after_register(old(self).conns(), old(self).users(), conn_id, user_id),
            final(self).voice() == old(self).voice(),
    {
        if conn_map_contains(&self.connections, conn_id) {
            let _ = self.unregister(conn_id);
        }
        let ghost mid_conns = self.conns();
        let ghost mid_users = self.users();
        proof {
            assert(!mid_conns.dom().contains(conn_id));
            assert(mid_conns =~= old(self).conns().remove(conn_id));
        }
        conn_map_insert(&mut self.connections, conn_id, user_id);
        let mut conns = match sets_swap_remove(&mut self.users, user_id) {
            Some(s) => s,
            None => set_new(),
        };
        set_insert(&mut conns, conn_id);
        proof {
            lemma_inserted_distinct(listed(mid_users, user_id), conn_id);
        }
        sets_insert(&mut self.users, user_id, conns);
        proof {
            let users = self.users();
            let cs = self.conns();
            assert(cs =~= old(self).conns().insert(conn_id, user_id));
            assert(users =~= mid_users.insert(user_id, inserted(listed(mid_users, user_id), conn_id)));
            assert forall|u: u128| #[trigger] users.dom().contains(u) implies users[u].no_duplicates() by {
                if u != user_id {
                    assert(mid_users.dom().contains(u));
                }
            }
            assert forall|c: u128| #[trigger] cs.dom().contains(c) implies listed(users, cs[c]).contains(c) by {
                if c != conn_id {
                    let u = mid_conns[c];
                    assert(mid_conns.dom().contains(c));
                    assert(listed(mid_users, u).contains(c));
                    if u == user_id {
                        lemma_inserted_keeps(listed(mid_users, user_id), conn_id, c);
                    }
                } else {
                    lemma_inserted_keeps(listed(mid_users, user_id), conn_id, c);
                }
            }
            assert forall|u: u128, c: u128|
                users.dom().contains(u) && #[trigger] users[u].contains(c) implies cs.dom().contains(c)
                && cs[c] == u by {
                if u == user_id {
                    lemma_inserted_within(listed(mid_users, user_id), conn_id, c);
                    if c != conn_id {
                        assert(mid_users.dom().contains(u));
                        assert(mid_users[u].contains(c));
                    }
                } else {
                    assert(mid_users.dom().contains(u));
                    assert(mid_users[u].contains(c));
                    assert(mid_conns.dom().contains(c));
                }
            }
        }
    }

    /// Opens a connection for `user_id` under a fresh id, and gives the id.
    pub fn register(&mut self, user_id: u128) -> (r: Result<u128, SessionError>)
        requires
            old(self).wf(),
        ensures
            final(self).wf(),
            r matches Ok(id) && final(self).conns() == old(self).conns().insert(id, user_id)
                && final(self).users() == users_after_register(old(self).conns(), old(self).users(), id, user_id),
            final(self).voice() == old(self).voice(),
    {
        let conn_id = new_v7_id();
        self.register_conn(conn_id, user_id);
        Ok(conn_id)
    }

    /// Forgets the connection `conn_id`, and takes it off its user's list.
    /// An id that is not open changes nothing.
    pub fn unregister(&mut self, conn_id: u128) -> (r: Result<(), SessionError>)
        requires
            old(self).wf(),
        ensures
            final(self).wf(),
            r is Ok,
            final(self).conns() == old(self).conns().remove(conn_id),
            final(self).users() == users_after_unregister(old(self).conns(), old(self).users(), conn_id),
            final(self).voice() == old(self).voice(),
    {
        if let Some(user) = conn_map_swap_remove(&mut self.connections, conn_id) {
            proof {
                assert(old(self).conns().dom().contains(conn_id));
                assert(listed(old(self).users(), user).contains(conn_id));
            }
            if let Some(mut conns) = sets_swap_remove(&mut self.users, user) {
                set_swap_remove(&mut conns, conn_id);
                proof {
                    lemma_swap_removed_distinct(old(self).users()[user], conn_id);
                }
                sets_insert(&mut self.users, user, conns);
            }
            proof {
                let users = self.users();
                let cs = self.conns();
                let ou = old(self).users();
                let oc = old(self).conns();
                assert(ou.dom().contains(user));
                assert(users =~= ou.insert(user, swap_removed(ou[user], conn_id)));
                assert forall|u: u128| #[trigger] users.dom().contains(u) implies users[u].no_duplicates() by {
                    if u != user {
                        assert(ou.dom().contains(u));
                    }
                }
                assert forall|c: u128| #[trigger] cs.dom().contains(c) implies listed(users, cs[c]).contains(c) by {
                    assert(oc.dom().contains(c));
                    let u = cs[c];
                    assert(listed(ou, u).contains(c));
                    if u == user {
                        lemma_swap_removed_keeps(ou[user], conn_id, c);
                    }
                }
                assert forall|u: u128, c: u128|
                    users.dom().contains(u) && #[trigger] users[u].contains(c) implies cs.dom().contains(c)
                    && cs[c] == u by {
                    if u == user {
                        lemma_swap_removed_within(ou[user], conn_id, c);
                        assert(ou[u].contains(c));
                    } else {
                        assert(ou.dom().contains(u));
                        assert(ou[u].contains(c));
                        if c == conn_id {
                            assert(oc[c] == u);
                        }
                    }
                }
            }
        } else {
            assert(self.conns() =~= old(self).conns().remove(conn_id));
        }
        Ok(())
    }

    /// The user has a connection listed.
    pub fn is_online(&self, user_id: u128) -> (r: Result<bool, SessionError>)
        ensures
            r == Ok::<bool, SessionError>(listed(self.users(), user_id).len() > 0),
    {
        match sets_get(&self.users, user_id) {
            Some(conns) => Ok(set_len(conns) > 0),
            None => Ok(false),
        }
    }

    /// The open connections listed under `user`, in order.
    fn conns_of(&self, user: u128, out: &mut Vec<u128>)
        ensures
            final(out)@ == old(out)@ + open_conns(self.conns(), listed(self.users(), user)),
    {
        if let Some(conns) = sets_get(&self.users, user) {
            let ghost ids = set_items(*conns);
            let ghost start = out@;
            let n = set_len(conns);
            let mut i: usize = 0;
            assert(ids.take(0) =~= Seq::<u128>::empty());
            while i < n
                invariant
                    n == ids.len(),
                    ids == set_items(*conns),
                    ids == listed(self.users(), user),
                    0 <= i <= n,
                    out@ == start + open_conns(self.conns(), ids.take(i as int)),
                decreases n - i,
            {
                let c = match set_get_index(conns, i) {
                    Some(c) => c,
                    None => {
                        assert(false);
                        0
                    },
                };
                assert(ids.take(i as int + 1).drop_last() =~= ids.take(i as int));
                assert(ids.take(i as int + 1).last() == c);
                if conn_map_contains(&self.connections, c) {
                    out.push(c);
                    assert(out@ =~= start + open_conns(self.conns(), ids.take(i as int + 1)));
                }
                i = i + 1;
            }
            assert(ids.take(n as int) =~= ids);
        } else {
            assert(out@ =~= old(out)@ + open_conns(self.conns(), listed(self.users(), user)));
        }
    }

    /// The connections a message to `targets` goes to: the open connections
    /// of each target in turn. Those whose delivery then fails are handed to
    /// `drop_failed`.
    pub fn broadcast(&self, targets: &[u128]) -> (r: Result<Vec<u128>, SessionError>)
        ensures
            r matches Ok(v) && v@ == fan_out(self.conns(), self.users(), targets@),
    {
        let mut out: Vec<u128> = Vec::new();
        let mut i: usize = 0;
        assert(targets@.take(0) =~= Seq::<u128>::empty());
        while i < targets.len()
            invariant
                0 <= i <= targets@.len(),
                out@ == fan_out(self.conns(), self.users(), targets@.take(i as int)),
            decreases targets.len() - i,
        {
            assert(targets@.take(i as int + 1).drop_last() =~= targets@.take(i as int));
            assert(targets@.take(i as int + 1).last() == targets@[i as int]);
            self.conns_of(targets[i], &mut out);
            i = i + 1;
        }
        assert(targets@.take(targets@.len() as int) =~= targets@);
        Ok(out)
    }

    /// Unregisters the connections whose delivery failed, so that their
    /// clients see the connection close, reconnect and resynchronise. Every
    /// other connection stays as it was.
    pub fn drop_failed(&mut self, failed: &[u128]) -> (r: Result<(), SessionError>)
        requires
            old(self).wf(),
        ensures
            final(self).wf(),
            r is Ok,
            forall|c: u128|
                #[trigger] final(self).conns().dom().contains(c) <==> old(self).conns().dom().contains(c)
                    && !failed@.contains(c),
            forall|c: u128|
                #[trigger] final(self).conns().dom().contains(c) ==> final(self).conns()[c] == old(self).conns()[c],
            forall|u: u128, c: u128|
                #[trigger] listed(final(self).users(), u).contains(c) ==> listed(old(self).users(), u).contains(c),
            final(self).voice() == old(self).voice(),
    {
        let mut i: usize = 0;
        while i < failed.len()
            invariant
                0 <= i <= failed@.len(),
                self.wf(),
                forall|c: u128|
                    #[trigger] self.conns().dom().contains(c) <==> old(self).conns().dom().contains(c)
                        && !failed@.take(i as int).contains(c),
                forall|c: u128| #[trigger] self.conns().dom().contains(c) ==> self.conns()[c] == old(self).conns()[c],
                forall|u: u128, c: u128|
                    #[trigger] listed(self.users(), u).contains(c) ==> listed(old(self).users(), u).contains(c),
                self.voice() == old(self).voice(),
            decreases failed@.len() - i,
        {
            let ghost before_conns = self.conns();
            let ghost before_users = self.users();
            let _ = self.unregister(failed[i]);
            proof {
                let f = failed@[i as int];
                assert(failed@.take(i as int + 1) =~= failed@.take(i as int).push(f));
                assert forall|c: u128|
                    #[trigger] self.conns().dom().contains(c) <==> old(self).conns().dom().contains(c)
                        && !failed@.take(i as int + 1).contains(c) by {
                    if failed@.take(i as int).contains(c) {
                        let k = choose|k: int| 0 <= k < i && failed@.take(i as int)[k] == c;
                        assert(failed@.take(i as int + 1)[k] == c);
                    }
                    let t1 = failed@.take(i as int + 1);
                    if t1.contains(c) && c != f {
                        let k = choose|k: int| 0 <= k < t1.len() && t1[k] == c;
                        assert(k < i);
                        assert(failed@.take(i as int)[k] == c);
                    }
                    assert(failed@.take(i as int + 1)[i as int] == f);
                }
                assert forall|u: u128, c: u128|
                    #[trigger] listed(self.users(), u).contains(c) implies listed(old(self).users(), u).contains(c) by {
                    lemma_unregister_lists_within(before_conns, before_users, f, u, c);
                }
            }
            i = i + 1;
        }
        assert(failed@.take(failed@.len() as int) =~= failed@);
        Ok(())
    }

    /// The members of a voice channel, in order; none for an unknown channel.
    pub fn voice_members(&self, channel_id: u128) -> (r: Result<Vec<u128>, SessionError>)
        ensures
            r matches Ok(v) && v@ == listed(self.voice(), channel_id),
    {
        let mut out: Vec<u128> = Vec::new();
        if let Some(members) = sets_get(&self.voice, channel_id) {
            let n = set_len(members);
            let mut i: usize = 0;
            while i < n
                invariant
                    n == set_items(*members).len(),
                    0 <= i <= n,
                    out@ == set_items(*members).take(i as int),
                decreases n - i,
            {
                let m = match set_get_index(members, i) {
                    Some(m) => m,
                    None => {
                        assert(false);
                        0
                    },
                };
                out.push(m);
                assert(out@ =~= set_items(*members).take(i as int + 1));
                i = i + 1;
            }
            assert(set_items(*members).take(n as int) =~= set_items(*members));
        } else {
            assert(out@ =~= listed(self.voice(), channel_id));
        }
        Ok(out)
    }

    /// The open connections a message to `user_id` goes to; refused when the
    /// user has none.
    pub fn send_to(&self, user_id: u128) -> (r: Result<Vec<u128>, SessionError>)
        ensures
            open_conns(self.conns(), listed(self.users(), user_id)).len() == 0 ==> r == Err::<
                Vec<u128>,
                SessionError,
            >(SessionError::NoConns),
            open_conns(self.conns(), listed(self.users(), user_id)).len() > 0 ==> (r matches Ok(v)
                && v@ == open_conns(self.conns(), listed(self.users(), user_id))),
    {
        let mut out: Vec<u128> = Vec::new();
        self.conns_of(user_id, &mut out);
        assert(out@ =~= open_conns(self.conns(), listed(self.users(), user_id)));
        if out.len() == 0 {
            return Err(SessionError::NoConns);
        }
        Ok(out)
    }
}

proof fn lemma_first_pos(s: Seq<u128>, v: u128)
    ensures
        first_pos(s, v) matches Some(i) ==> 0 <= i < s.len() && s[i] == v,
        first_pos(s, v) is None <==> !s.contains(v),
    decreases s.len(),
{
    if s.len() > 0 {
        lemma_first_pos(s.drop_first(), v);
        if s[0] != v {
            if s.contains(v) {
                let k = choose|k: int| 0 <= k < s.len() && s[k] == v;
                assert(s.drop_first()[k - 1] == v);
            }
            if s.drop_first().contains(v) {
                let k = choose|k: int| 0 <= k < s.drop_first().len() && s.drop_first()[k] == v;
                assert(s[k + 1] == v);
            }
        }
    }
}

proof fn lemma_inserted_distinct(s: Seq<u128>, v: u128)
    requires
        s.no_duplicates(),
    ensures
        inserted(s, v).no_duplicates(),
        inserted(s, v).len() > 0,
        inserted(s, v).contains(v),
{
    if !s.contains(v) {
        assert(s.push(v)[s.len() as int] == v);
    } else {
        let k = choose|k: int| 0 <= k < s.len() && s[k] == v;
        assert(s[k] == v);
    }
}

proof fn lemma_inserted_keeps(s: Seq<u128>, v: u128, c: u128)
    ensures
        s.contains(c) || c == v ==> inserted(s, v).contains(c),
{
    if s.contains(c) && !s.contains(v) {
        let k = choose|k: int| 0 <= k < s.len() && s[k] == c;
        assert(s.push(v)[k] == c);
    }
    if c == v && !s.contains(v) {
        assert(s.push(v)[s.len() as int] == v);
    }
}

proof fn lemma_swap_removed_distinct(s: Seq<u128>, v: u128)
    requires
        s.no_duplicates(),
    ensures
        swap_removed(s, v).no_duplicates(),
        !swap_removed(s, v).contains(v),
        s.contains(v) ==> swap_removed(s, v).len() == s.len() - 1,
        !s.contains(v) ==> swap_removed(s, v) == s,
{
    lemma_first_pos(s, v);
    match first_pos(s, v) {
        Some(i) => {
            let r = s.update(i, s.last()).drop_last();
            assert forall|a: int, b: int| 0 <= a < b < r.len() implies r[a] != r[b] by {
                if a == i {
                    assert(r[a] == s[s.len() - 1]);
                    assert(r[b] == s[b]);
                } else if b == i {
                    assert(r[b] == s[s.len() - 1]);
                    assert(r[a] == s[a]);
                } else {
                    assert(r[a] == s[a]);
                    assert(r[b] == s[b]);
                }
            }
            if r.contains(v) {
                let k = choose|k: int| 0 <= k < r.len() && r[k] == v;
                if k == i {
                    assert(s[s.len() - 1] == v);
                } else {
                    assert(s[k] == v);
                }
            }
        },
        None => {},
    }
}

proof fn lemma_swap_removed_keeps(s: Seq<u128>, v: u128, c: u128)
    requires
        s.contains(c),
        c != v,
    ensures
        swap_removed(s, v).contains(c),
{
    lemma_first_pos(s, v);
    let k = choose|k: int| 0 <= k < s.len() && s[k] == c;
    match first_pos(s, v) {
        Some(i) => {
            let r = s.update(i, s.last()).drop_last();
            if k == s.len() - 1 {
                assert(r[i] == c);
            } else {
                assert(k != i);
                assert(r[k] == c);
            }
        },
        None => {},
    }
}

proof fn lemma_unregister_lists_within(conns: Map<u128, u128>, users: Map<u128, Seq<u128>>, f: u128, u: u128, c: u128)
    ensures
        listed(users_after_unregister(conns, users, f), u).contains(c) ==> listed(users, u).contains(c),
{
    if conns.dom().contains(f) && users.dom().contains(conns[f]) && u == conns[f] {
        lemma_swap_removed_within(users[u], f, c);
    }
}

proof fn lemma_inserted_within(s: Seq<u128>, v: u128, c: u128)
    ensures
        inserted(s, v).contains(c) ==> s.contains(c) || c == v,
{
    if inserted(s, v).contains(c) && !s.contains(v) {
        let k = choose|k: int| 0 <= k < s.push(v).len() && s.push(v)[k] == c;
        if k < s.len() {
            assert(s[k] == c);
        }
    }
}

proof fn lemma_swap_removed_within(s: Seq<u128>, v: u128, c: u128)
    ensures
        swap_removed(s, v).contains(c) ==> s.contains(c),
{
    lemma_first_pos(s, v);
    if swap_removed(s, v).contains(c) {
        match first_pos(s, v) {
            Some(i) => {
                let r = s.update(i, s.last()).drop_last();
                let k = choose|k: int| 0 <= k < r.len() && r[k] == c;
                if k == i {
                    assert(s[s.len() - 1] == c);
                } else {
                    assert(s[k] == c);
                }
            },
            None => {},
        }
    }
}

/// Law: after joining a voice channel, a user is among its members, once.
pub proof fn law_join_makes_member(voice: Map<u128, Seq<u128>>, channel: u128, user: u128)
    requires
        voice.dom().contains(channel) ==> voice[channel].no_duplicates(),
    ensures
        joined(voice, channel, user)[channel].contains(user),
        joined(voice, channel, user)[channel].no_duplicates(),
{
    lemma_inserted_distinct(listed(voice, channel), user);
}

/// Law: leaving undoes joining. A user who was not in a channel, joins it and
/// leaves it again leaves the voice channels as they were; and after leaving,
/// a user is no member of the channel.
pub proof fn law_leave_undoes_join(voice: Map<u128, Seq<u128>>, channel: u128, user: u128)
    requires
        voice.dom().contains(channel) ==> voice[channel].no_duplicates() && voice[channel].len() > 0,
        !listed(voice, channel).contains(user),
    ensures
        left(joined(voice, channel, user), channel, user) == voice,
        !listed(left(voice, channel, user), channel).contains(user),
{
    let s = listed(voice, channel);
    let t = s.push(user);
    assert(t[s.len() as int] == user);
    lemma_first_pos(t, user);
    let i = first_pos(t, user)->0;
    if i < s.len() {
        assert(s[i] == user);
    }
    assert(t.update(i, t.last()).drop_last() =~= s);
    if voice.dom().contains(channel) {
        assert(left(joined(voice, channel, user), channel, user) =~= voice.insert(channel, s));
        assert(voice.insert(channel, s) =~= voice);
        lemma_swap_removed_distinct(voice[channel], user);
    } else {
        assert(left(joined(voice, channel, user), channel, user) =~= voice);
    }
}

/// Law: a user with a registered connection is online.
pub proof fn law_register_makes_online(users: Map<u128, Seq<u128>>, user: u128, conn: u128)
    ensures
        listed(users.insert(user, inserted(listed(users, user), conn)), user).len() > 0,
        listed(users.insert(user, inserted(listed(users, user), conn)), user).contains(conn),
{
    lemma_inserted_keeps(listed(users, user), conn, conn);
}

/// Law: a connection registered for a user who had none open, and then
/// unregistered, leaves the user offline: nothing is listed under the user,
/// so the user reads as offline and a message to the user finds no
/// connection. Unregistering an id that is not open changes nothing.
pub proof fn law_unregister_last_goes_offline(
    conns: Map<u128, u128>,
    users: Map<u128, Seq<u128>>,
    voice: Map<u128, Seq<u128>>,
    user: u128,
    id: u128,
)
    requires
        registry_wf(conns, users, voice),
        !conns.dom().contains(id),
        forall|c: u128| #[trigger] conns.dom().contains(c) ==> conns[c] != user,
    ensures
        ({
            let c1 = conns.insert(id, user);
            let u1 = users_after_register(conns, users, id, user);
            let u2 = users_after_unregister(c1, u1, id);
            &&& listed(u2, user).len() == 0
            &&& open_conns(c1.remove(id), listed(u2, user)).len() == 0
        }),
        users_after_unregister(conns, users, id) == users,
        conns.remove(id) == conns,
{
    let l = listed(users, user);
    if l.len() > 0 {
        assert(users.dom().contains(user));
        assert(users[user].contains(l[0]));
        assert(conns.dom().contains(l[0]));
    }
    assert(l =~= Seq::<u128>::empty());
    let u1 = users_after_register(conns, users, id, user);
    assert(u1[user] =~= seq![id]);
    lemma_first_pos(seq![id], id);
    assert(swap_removed(seq![id], id) =~= Seq::<u128>::empty());
    assert(conns.remove(id) =~= conns);
}

} // verus!
