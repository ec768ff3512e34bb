//! Voice-room state of the overlay: a reducer from events to room state.

use vstd::prelude::*;

verus! {

/// One change to the voice room the local user sits in.
#[derive(Debug, Clone, PartialEq, Eq)]
pub enum VoiceEvent {
    RoomJoined { room_id: String, room_name: String },
    RoomLeft,
    UserJoined { user_id: String, display_name: String },
    UserLeft { user_id: String },
    UserSpeaking { user_id: String, speaking: bool },
    UserMuted { user_id: String, muted: bool },
}

/// A member of the active voice room.
#[derive(Debug, Clone, PartialEq, Eq)]
pub struct Participant {
    pub user_id: String,
    pub display_name: String,
    pub speaking: bool,
    pub muted: bool,
}

/// What the overlay knows of the voice room: nothing, or the active room.
#[derive(Debug, Clone, PartialEq, Eq)]
pub struct RoomState {
    pub active_room: Option<ActiveRoom>,
}

/// The room the local user is in, with its participants in join order.
#[derive(Debug, Clone, PartialEq, Eq)]
pub struct ActiveRoom {
    pub id: String,
    pub name: String,
    pub participants: Vec<Participant>,
}

/// The first position in `ps` of a participant with user id `uid`.
pub open spec fn first_index_of(ps: Seq<Participant>, uid: Seq<char>) -> Option<int>
    decreases ps.len(),
{
    if ps.len() == 0 {
        None
    } else if ps[0].user_id@ == uid {
        Some(0)
    } else {
        match first_index_of(ps.drop_first(), uid) {
            Some(i) => Some(i + 1),
            None => None,
        }
    }
}

/// `ps` holds a participant with user id `uid`.
pub open spec fn has_user(ps: Seq<Participant>, uid: Seq<char>) -> bool {
    exists|i: int| 0 <= i < ps.len() && (#[trigger] ps[i]).user_id@ == uid
}

/// No two participants share a user id.
pub open spec fn distinct_users(ps: Seq<Participant>) -> bool {
    forall|i: int, j: int|
        0 <= i < ps.len() && 0 <= j < ps.len() && i != j ==> (#[trigger] ps[i]).user_id@
            != (#[trigger] ps[j]).user_id@
}

/// `ps` with the participant at `i` given a new speaking flag.
pub open spec fn with_speaking(ps: Seq<Participant>, i: int, speaking: bool) -> Seq<Participant> {
    ps.update(i, Participant { speaking, ..ps[i] })
}

/// `ps` with the participant at `i` given a new muted flag.
pub open spec fn with_muted(ps: Seq<Participant>, i: int, muted: bool) -> Seq<Participant> {
    ps.update(i, Participant { muted, ..ps[i] })
}

/// The participants of `ps` whose user id is not `uid`, in order.
pub open spec fn without_user(ps: Seq<Participant>, uid: Seq<char>) -> Seq<Participant> {
    ps.filter(not_user(uid))
}

/// Holds of the participants whose user id is not `uid`.
pub open spec fn not_user(uid: Seq<char>) -> spec_fn(Participant) -> bool {
    |p: Participant| p.user_id@ != uid
}

/// The participant list that a user event leaves of `ps`; other events leave it alone.
pub open spec fn participants_after(ps: Seq<Participant>, event: VoiceEvent) -> Seq<Participant> {
    match event {
        VoiceEvent::UserJoined { user_id, display_name } => if has_user(ps, user_id@) {
            ps
        } else {
            ps.push(Participant { user_id, display_name, speaking: false, muted: false })
        },
        VoiceEvent::UserLeft { user_id } => without_user(ps, user_id@),
        VoiceEvent::UserSpeaking { user_id, speaking } => match first_index_of(ps, user_id@) {
            Some(i) => with_speaking(ps, i, speaking),
            None => ps,
        },
        VoiceEvent::UserMuted { user_id, muted } => match first_index_of(ps, user_id@) {
            Some(i) => with_muted(ps, i, muted),
            None => ps,
        },
        _ => ps,
    }
}

/// `new` is the room state that `event` leads to from `old`: joining a room
/// starts it empty, leaving drops it, and user events change the participant
/// list of the active room, or nothing when there is none.
pub open spec fn applied(old: RoomState, event: VoiceEvent, new: RoomState) -> bool {
    match event {
        VoiceEvent::RoomJoined { room_id, room_name } => new.active_room matches Some(r) && r.id
            == room_id && r.name == room_name && r.participants@ == Seq::<Participant>::empty(),
        VoiceEvent::RoomLeft => new.active_room is None,
        _ => match old.active_room {
            None => new.active_room is None,
            Some(r) => new.active_room matches Some(n) && n.id == r.id && n.name == r.name
                && n.participants@ == participants_after(r.participants@, event),
        },
    }
}

/// Every participant list of `s` is free of duplicate user ids.
pub open spec fn room_state_wf(s: RoomState) -> bool {
    match s.active_room {
        Some(room) => distinct_users(room.participants@),
        None => true,
    }
}

proof fn lemma_first_index_of(ps: Seq<Participant>, uid: Seq<char>)
    ensures
        match first_index_of(ps, uid) {
            Some(i) => 0 <= i < ps.len() && ps[i].user_id@ == uid && forall|j: int|
                0 <= j < i ==> (#[trigger] ps[j]).user_id@ != uid,
            None => !has_user(ps, uid),
        },
    decreases ps.len(),
{
    if ps.len() > 0 {
        lemma_first_index_of(ps.drop_first(), uid);
        if ps[0].user_id@ != uid {
            match first_index_of(ps.drop_first(), uid) {
                Some(i) => {
                    assert forall|j: int| 0 <= j < i + 1 implies (#[trigger] ps[j]).user_id@ != uid by {
                        if j > 0 {
                            assert(ps[j] == ps.drop_first()[j - 1]);
                        }
                    }
                },
                None => {
                    assert forall|i: int| 0 <= i < ps.len() implies (#[trigger] ps[i]).user_id@ != uid by {
                        if i > 0 {
                            assert(ps[i] == ps.drop_first()[i - 1]);
                        }
                    }
                },
            }
        }
    }
}

/// The position of the first participant of `ps` with user id `uid`.
fn find_user(ps: &Vec<Participant>, uid: &String) -> (r: Option<usize>)
    ensures
        match r {
            Some(i) => first_index_of(ps@, uid@) == Some(i as int),
            None => first_index_of(ps@, uid@) == None::<int>,
        },
{
    proof {
        lemma_first_index_of(ps@, uid@);
    }
    let mut i: usize = 0;
    while i < ps.len()
        invariant
            0 <= i <= ps.len(),
            forall|j: int| 0 <= j < i ==> (#[trigger] ps@[j]).user_id@ != uid@,
            match first_index_of(ps@, uid@) {
                Some(k) => 0 <= k < ps@.len() && ps@[k].user_id@ == uid@ && forall|j: int|
                    0 <= j < k ==> (#[trigger] ps@[j]).user_id@ != uid@,
                None => !has_user(ps@, uid@),
            },
        decreases ps.len() - i,
    {
        if ps[i].user_id == *uid {
            return Some(i);
        }
        i = i + 1;
    }
    None
}

/// A field-for-field copy of `p`.
fn copy_participant(p: &Participant) -> (r: Participant)
    ensures
        r == *p,
{
    Participant {
        user_id: p.user_id.clone(),
        display_name: p.display_name.clone(),
        speaking: p.speaking,
        muted: p.muted,
    }
}

/// The participants of `ps` whose user id is not `uid`.
fn remove_user(ps: &Vec<Participant>, uid: &String) -> (r: Vec<Participant>)
    ensures
        r@ == without_user(ps@, uid@),
{
    let ghost pred = not_user(uid@);
    let mut out: Vec<Participant> = Vec::new();
    let mut i: usize = 0;
    assert(ps@.take(0) =~= Seq::<Participant>::empty());
    proof {
        reveal_with_fuel(Seq::filter, 1);
    }
    while i < ps.len()
        invariant
            0 <= i <= ps.len(),
            out@ == ps@.take(i as int).filter(pred),
            pred == not_user(uid@),
        decreases ps.len() - i,
    {
        proof {
            assert(ps@.take(i as int + 1) =~= ps@.take(i as int).push(ps@[i as int]));
            ps@.take(i as int).lemma_filter_push(ps@[i as int], pred);
        }
        if ps[i].user_id != *uid {
            out.push(copy_participant(&ps[i]));
        }
        i = i + 1;
    }
    assert(ps@.take(ps.len() as int) =~= ps@);
    out
}

impl Default for RoomState {
    /// The state with no active room.
    fn default() -> (r: Self)
        ensures
            r.active_room is None,
    {
        RoomState { active_room: None }
    }
}

impl RoomState {
    /// The state with no active room.
    pub fn new() -> (r: Self)
        ensures
            r.active_room is None,
    {
        RoomState { active_room: None }
    }

    /// Applies one voice event to the state.
    pub fn apply(&mut self, event: VoiceEvent)
        ensures
            applied(*old(self), event, *final(self)),
            room_state_wf(*old(self)) ==> room_state_wf(*final(self)),
    {
        match event {
            VoiceEvent::RoomJoined { room_id, room_name } => {
                self.active_room = Some(
                    ActiveRoom { id: room_id, name: room_name, participants: Vec::new() },
                );
            },
            VoiceEvent::RoomLeft => {
                self.active_room = None;
            },
            VoiceEvent::UserJoined { user_id, display_name } => {
                if let Some(mut room) = self.active_room.take() {
                    proof {
                        lemma_first_index_of(room.participants@, user_id@);
                    }
                    if find_user(&room.participants, &user_id).is_none() {
                        let ghost before = room.participants@;
                        room.participants.push(
                            Participant { user_id, display_name, speaking: false, muted: false },
                        );
                        assert(room.participants@ =~= before.push(room.participants@.last()));
                    }
                    self.active_room = Some(room);
                }
            },
            VoiceEvent::UserLeft { user_id } => {
                if let Some(room) = self.active_room.take() {
                    let kept = remove_user(&room.participants, &user_id);
                    proof {
                        lemma_without_user_keeps_distinct(room.participants@, user_id@);
                    }
                    self.active_room = Some(
                        ActiveRoom { id: room.id, name: room.name, participants: kept },
                    );
                }
            },
            VoiceEvent::UserSpeaking { user_id, speaking } => {
                if let Some(mut room) = self.active_room.take() {
                    if let Some(i) = find_user(&room.participants, &user_id) {
                        proof {
                            lemma_first_index_of(room.participants@, user_id@);
                        }
                        let p = &room.participants[i];
                        let updated = Participant {
                            user_id: p.user_id.clone(),
                            display_name: p.display_name.clone(),
                            speaking,
                            muted: p.muted,
                        };
                        room.participants.set(i, updated);
                    }
                    self.active_room = Some(room);
                }
            },
            VoiceEvent::UserMuted { user_id, muted } => {
                if let Some(mut room) = self.active_room.take() {
                    if let Some(i) = find_user(&room.participants, &user_id) {
                        proof {
                            lemma_first_index_of(room.participants@, user_id@);
                        }
                        let p = &room.participants[i];
                        let updated = Participant {
                            user_id: p.user_id.clone(),
                            display_name: p.display_name.clone(),
                            speaking: p.speaking,
                            muted,
                        };
                        room.participants.set(i, updated);
                    }
                    self.active_room = Some(room);
                }
            },
        }
    }
}

/// Dropping every participant with one user id keeps the others distinct, and
/// leaves none with that id.
proof fn lemma_without_user_keeps_distinct(ps: Seq<Participant>, uid: Seq<char>)
    ensures
        distinct_users(ps) ==> distinct_users(without_user(ps, uid)),
        !has_user(without_user(ps, uid), uid),
    decreases ps.len(),
{
    let pred = not_user(uid);
    broadcast use vstd::seq_lib::group_filter_ensures;

    if ps.len() > 0 {
        lemma_without_user_keeps_distinct(ps.drop_last(), uid);
        assert(ps.drop_last().push(ps.last()) =~= ps);
        ps.drop_last().lemma_filter_push(ps.last(), pred);
        let f = without_user(ps.drop_last(), uid);
        if distinct_users(ps) && pred(ps.last()) {
            assert forall|i: int| 0 <= i < f.len() implies (#[trigger] f[i]).user_id@
                != ps.last().user_id@ by {
                assert(f.contains(f[i]));
                ps.drop_last().lemma_filter_contains_rev(pred, f[i]);
                let k = choose|k: int| 0 <= k < ps.drop_last().len() && ps.drop_last()[k] == f[i];
                assert(ps[k] == f[i]);
            }
            let g = f.push(ps.last());
            assert forall|i: int, j: int|
                0 <= i < g.len() && 0 <= j < g.len() && i != j implies (#[trigger] g[i]).user_id@
                != (#[trigger] g[j]).user_id@ by {
                if i < f.len() && j < f.len() {
                    assert(g[i] == f[i] && g[j] == f[j]);
                } else if i < f.len() {
                    assert(g[i] == f[i]);
                } else if j < f.len() {
                    assert(g[j] == f[j]);
                }
            }
        }
        let w = without_user(ps, uid);
        assert forall|i: int| 0 <= i < w.len() implies (#[trigger] w[i]).user_id@ != uid by {
            ps.lemma_filter_pred(pred, i);
        }
    } else {
        reveal(Seq::filter);
    }
}

/// Filtering out a user id that no participant has changes nothing.
proof fn lemma_without_absent_user(ps: Seq<Participant>, uid: Seq<char>)
    requires
        !has_user(ps, uid),
    ensures
        without_user(ps, uid) == ps,
    decreases ps.len(),
{
    reveal(Seq::filter);
    if ps.len() > 0 {
        assert(!has_user(ps.drop_last(), uid)) by {
            assert forall|i: int| 0 <= i < ps.drop_last().len() implies (
            #[trigger] ps.drop_last()[i]).user_id@ != uid by {
                assert(ps.drop_last()[i] == ps[i]);
            }
        }
        lemma_without_absent_user(ps.drop_last(), uid);
        assert(ps.drop_last().push(ps.last()) =~= ps);
    }
}

/// Updating one participant's flags keeps every user id where it was.
proof fn lemma_first_index_after_update(ps: Seq<Participant>, uid: Seq<char>, i: int, q: Participant)
    requires
        0 <= i < ps.len(),
        q.user_id@ == ps[i].user_id@,
    ensures
        first_index_of(ps.update(i, q), uid) == first_index_of(ps, uid),
    decreases ps.len(),
{
    if ps.len() > 0 && i > 0 {
        assert(ps.update(i, q).drop_first() =~= ps.drop_first().update(i - 1, q));
        lemma_first_index_after_update(ps.drop_first(), uid, i - 1, q);
    } else if ps.len() > 0 {
        assert(ps.update(i, q).drop_first() =~= ps.drop_first());
    }
}

/// Law: a user event applied twice to a participant list has the effect of
/// applying it once: joining twice adds one entry, leaving twice removes as
/// much as leaving once, and a flag set twice to the same value is set.
pub proof fn law_user_event_idempotent(ps: Seq<Participant>, event: VoiceEvent)
    ensures
        participants_after(participants_after(ps, event), event) == participants_after(ps, event),
{
    broadcast use vstd::seq_lib::group_filter_ensures;

    match event {
        VoiceEvent::UserJoined { user_id, display_name } => {
            if !has_user(ps, user_id@) {
                let q = ps.push(Participant { user_id, display_name, speaking: false, muted: false });
                assert(q[ps.len() as int].user_id@ == user_id@);
            }
        },
        VoiceEvent::UserLeft { user_id } => {
            lemma_without_user_keeps_distinct(ps, user_id@);
            lemma_without_absent_user(without_user(ps, user_id@), user_id@);
        },
        VoiceEvent::UserSpeaking { user_id, speaking } => {
            lemma_first_index_of(ps, user_id@);
            if let Some(i) = first_index_of(ps, user_id@) {
                lemma_first_index_after_update(ps, user_id@, i, Participant { speaking, ..ps[i] });
                assert(with_speaking(with_speaking(ps, i, speaking), i, speaking) =~= with_speaking(
                    ps,
                    i,
                    speaking,
                ));
            }
        },
        VoiceEvent::UserMuted { user_id, muted } => {
            lemma_first_index_of(ps, user_id@);
            if let Some(i) = first_index_of(ps, user_id@) {
                lemma_first_index_after_update(ps, user_id@, i, Participant { muted, ..ps[i] });
                assert(with_muted(with_muted(ps, i, muted), i, muted) =~= with_muted(ps, i, muted));
            }
        },
        _ => {},
    }
}

/// Law: a user who joins and then leaves leaves the participant list as it
/// was before the join, when they were not in it.
pub proof fn law_leave_undoes_join(ps: Seq<Participant>, user_id: String, display_name: String)
    requires
        !has_user(ps, user_id@),
    ensures
        participants_after(
            participants_after(ps, VoiceEvent::UserJoined { user_id, display_name }),
            VoiceEvent::UserLeft { user_id },
        ) == ps,
{
    let p = Participant { user_id, display_name, speaking: false, muted: false };
    ps.lemma_filter_push(p, not_user(user_id@));
    lemma_without_absent_user(ps, user_id@);
}

/// Law: whatever the events, no user appears twice in the active room.
pub proof fn law_no_duplicate_participants(ps: Seq<Participant>, event: VoiceEvent)
    requires
        distinct_users(ps),
    ensures
        distinct_users(participants_after(ps, event)),
{
    match event {
        VoiceEvent::UserJoined { user_id, display_name } => {
            if !has_user(ps, user_id@) {
                let q = ps.push(Participant { user_id, display_name, speaking: false, muted: false });
                assert forall|i: int, j: int|
                    0 <= i < q.len() && 0 <= j < q.len() && i != j implies (#[trigger] q[i]).user_id@
                    != (#[trigger] q[j]).user_id@ by {
                    if i < ps.len() && j < ps.len() {
                        assert(q[i] == ps[i] && q[j] == ps[j]);
                    } else if i < ps.len() {
                        assert(q[i] == ps[i]);
                    } else {
                        assert(q[j] == ps[j]);
                    }
                }
            }
        },
        VoiceEvent::UserLeft { user_id } => {
            lemma_without_user_keeps_distinct(ps, user_id@);
        },
        VoiceEvent::UserSpeaking { user_id, speaking } => {
            lemma_first_index_of(ps, user_id@);
        },
        VoiceEvent::UserMuted { user_id, muted } => {
            lemma_first_index_of(ps, user_id@);
        },
        _ => {},
    }
}

/// Law: muting or unmuting a participant of the room sets that
/// participant's muted flag to the event's value, whichever it is, and
/// leaves everything else as it was: the list keeps its length and order,
/// every other participant is unchanged, and the participant keeps their
/// id, name and speaking flag. An event for a user not in the room changes
/// nothing.
pub proof fn law_mute_sets_flag(ps: Seq<Participant>, user_id: String, muted: bool)
    requires
        distinct_users(ps),
    ensures
        ({
            let r = participants_after(ps, VoiceEvent::UserMuted { user_id, muted });
            &&& r.len() == ps.len()
            &&& forall|j: int|
                0 <= j < ps.len() && (#[trigger] ps[j]).user_id@ == user_id@ ==> r[j].muted == muted
                    && r[j].speaking == ps[j].speaking && r[j].user_id == ps[j].user_id
                    && r[j].display_name == ps[j].display_name
            &&& forall|j: int| 0 <= j < ps.len() && (#[trigger] ps[j]).user_id@ != user_id@ ==> r[j] == ps[j]
        }),
{
    lemma_first_index_of(ps, user_id@);
    let r = participants_after(ps, VoiceEvent::UserMuted { user_id, muted });
    match first_index_of(ps, user_id@) {
        Some(i) => {
            assert forall|j: int|
                0 <= j < ps.len() && (#[trigger] ps[j]).user_id@ == user_id@ implies r[j].muted == muted
                && r[j].speaking == ps[j].speaking && r[j].user_id == ps[j].user_id
                && r[j].display_name == ps[j].display_name by {
                if j != i {
                    assert(ps[i].user_id@ == ps[j].user_id@);
                }
            }
        },
        None => {
            assert forall|j: int| 0 <= j < ps.len() implies (#[trigger] ps[j]).user_id@ != user_id@ by {}
        },
    }
}

/// Law: a speaking event sets the speaking flag of that participant to the
/// event's value, whichever it is, and leaves everything else as it was.
pub proof fn law_speaking_sets_flag(ps: Seq<Participant>, user_id: String, speaking: bool)
    requires
        distinct_users(ps),
    ensures
        ({
            let r = participants_after(ps, VoiceEvent::UserSpeaking { user_id, speaking });
            &&& r.len() == ps.len()
            &&& forall|j: int|
                0 <= j < ps.len() && (#[trigger] ps[j]).user_id@ == user_id@ ==> r[j].speaking == speaking
                    && r[j].muted == ps[j].muted && r[j].user_id == ps[j].user_id
                    && r[j].display_name == ps[j].display_name
            &&& forall|j: int| 0 <= j < ps.len() && (#[trigger] ps[j]).user_id@ != user_id@ ==> r[j] == ps[j]
        }),
{
    lemma_first_index_of(ps, user_id@);
    let r = participants_after(ps, VoiceEvent::UserSpeaking { user_id, speaking });
    match first_index_of(ps, user_id@) {
        Some(i) => {
            assert forall|j: int|
                0 <= j < ps.len() && (#[trigger] ps[j]).user_id@ == user_id@ implies r[j].speaking == speaking
                && r[j].muted == ps[j].muted && r[j].user_id == ps[j].user_id
                && r[j].display_name == ps[j].display_name by {
                if j != i {
                    assert(ps[i].user_id@ == ps[j].user_id@);
                }
            }
        },
        None => {},
    }
}

/// Law: after a user joins, the room holds them; a newcomer is added at the
/// end, neither speaking nor muted, under the given name, behind everyone
/// who was there; a user already present changes nothing.
pub proof fn law_join_adds_user(ps: Seq<Participant>, user_id: String, display_name: String)
    ensures
        ({
            let r = participants_after(ps, VoiceEvent::UserJoined { user_id, display_name });
            &&& has_user(r, user_id@)
            &&& has_user(ps, user_id@) ==> r == ps
            &&& !has_user(ps, user_id@) ==> {
                &&& r.len() == ps.len() + 1
                &&& forall|j: int| 0 <= j < ps.len() ==> #[trigger] r[j] == ps[j]
                &&& r[ps.len() as int].user_id == user_id
                &&& r[ps.len() as int].display_name == display_name
                &&& !r[ps.len() as int].speaking
                &&& !r[ps.len() as int].muted
            }
        }),
{
    let r = participants_after(ps, VoiceEvent::UserJoined { user_id, display_name });
    if !has_user(ps, user_id@) {
        assert(r[ps.len() as int].user_id@ == user_id@);
    }
}

/// Law: after a user leaves, nobody with their id is left in the room, and
/// everybody else who was there still is.
pub proof fn law_leave_removes_only_user(ps: Seq<Participant>, user_id: String)
    ensures
        ({
            let r = participants_after(ps, VoiceEvent::UserLeft { user_id });
            &&& !has_user(r, user_id@)
            &&& forall|j: int|
                0 <= j < ps.len() && (#[trigger] ps[j]).user_id@ != user_id@ ==> r.contains(ps[j])
            &&& forall|p: Participant| r.contains(p) ==> ps.contains(p)
        }),
{
    broadcast use vstd::seq_lib::group_filter_ensures;

    lemma_without_user_keeps_distinct(ps, user_id@);
    let pred = not_user(user_id@);
    assert forall|j: int|
        0 <= j < ps.len() && (#[trigger] ps[j]).user_id@ != user_id@ implies without_user(ps, user_id@).contains(
        ps[j],
    ) by {
        assert(pred(ps[j]));
        ps.lemma_filter_contains(pred, j);
    }
    assert forall|p: Participant| without_user(ps, user_id@).contains(p) implies ps.contains(p) by {
        ps.lemma_filter_contains_rev(pred, p);
    }
}

} // verus!
