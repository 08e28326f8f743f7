//! The chat room: who is in it, and to whom a message goes.
//!
//! Each member is one connection that the server keeps, known by the
//! connection's number and by the username its client gave. Every connection
//! that joined stays in the room until it leaves, whatever the other members
//! are called: two clients may well share a username.

use vstd::prelude::*;
use crate::frame::{encode_frame, lemma_frame_round_trip, spec_frame, spec_header_length, HEADER_LEN};
use crate::text::{chat_line, spec_chat_line};

verus! {

/// A member of the room: its connection's number and its username.
pub struct Member {
    pub username: String,
    pub conn: u64,
}

/// The members of a chat room. They are kept in a vector, so that the relay
/// plan is built by a verified walk over them; their order carries no meaning,
/// and the room is seen through its map from connection to username.
pub struct ChatRoom {
    members: Vec<Member>,
}

/// One message to relay: the frame to write, and the members to write it to.
pub struct Broadcast {
    pub frame: Vec<u8>,
    pub recipients: Vec<Member>,
}

/// No two members of `s` share a connection.
pub open spec fn conns_distinct(s: Seq<Member>) -> bool {
    forall|i: int, j: int|
        0 <= i < s.len() && 0 <= j < s.len() && i != j ==> #[trigger] s[i].conn != #[trigger] s[j].conn
}

/// Some member of `s` is on connection `conn`.
pub open spec fn has_conn(s: Seq<Member>, conn: u64) -> bool {
    exists|i: int| 0 <= i < s.len() && #[trigger] s[i].conn == conn
}

/// The username of the member of `s` on connection `conn`.
pub open spec fn name_of(s: Seq<Member>, conn: u64) -> Seq<char> {
    s[choose|i: int| 0 <= i < s.len() && #[trigger] s[i].conn == conn].username@
}

/// The room that `s` describes, as a map from connection to username.
pub open spec fn room_map(s: Seq<Member>) -> Map<u64, Seq<char>> {
    Map::new(|conn: u64| has_conn(s, conn), |conn: u64| name_of(s, conn))
}

/// The connections whose delivery failed in `results`.
pub open spec fn failed_conns(results: Seq<(u64, bool)>) -> Set<u64> {
    Set::new(|conn: u64| exists|i: int| 0 <= i < results.len() && #[trigger] results[i] == (conn, false))
}

/// The room maps each member's connection to that member's username.
proof fn lemma_lookup(s: Seq<Member>, j: int)
    requires
        conns_distinct(s),
        0 <= j < s.len(),
    ensures
        room_map(s).dom().contains(s[j].conn),
        room_map(s)[s[j].conn] == s[j].username@,
{
    let conn = s[j].conn;
    assert(has_conn(s, conn));
    let i = choose|i: int| 0 <= i < s.len() && #[trigger] s[i].conn == conn;
    assert(s[i].conn == conn);
    assert(i == j);
}

/// A room holds finitely many connections.
proof fn lemma_finite(s: Seq<Member>)
    ensures
        room_map(s).dom().finite(),
{
    let conns = s.map_values(|m: Member| m.conn);
    assert forall|c: u64| room_map(s).dom().contains(c) <==> conns.to_set().contains(c) by {
        if room_map(s).dom().contains(c) {
            let i = choose|i: int| 0 <= i < s.len() && #[trigger] s[i].conn == c;
            assert(conns[i] == c);
        }
        if conns.to_set().contains(c) {
            let i = choose|i: int| 0 <= i < conns.len() && #[trigger] conns[i] == c;
            assert(s[i].conn == c);
        }
    }
    assert(room_map(s).dom() =~= conns.to_set());
    vstd::seq_lib::seq_to_set_is_finite(conns);
}

impl View for ChatRoom {
    type V = Map<u64, Seq<char>>;

    closed spec fn view(&self) -> Map<u64, Seq<char>> {
        room_map(self.members@)
    }
}

impl ChatRoom {
    #[verifier::type_invariant]
    spec fn conns_unique(self) -> bool {
        conns_distinct(self.members@)
    }

    /// An empty room.
    pub fn new() -> (room: ChatRoom)
        ensures
            room@ == Map::<u64, Seq<char>>::empty(),
            room@.dom().finite(),
    {
        let room = ChatRoom { members: Vec::new() };
        assert(room@ =~= Map::<u64, Seq<char>>::empty());
        room
    }

    /// The position of the member on connection `conn`, if there is one.
    fn position(&self, conn: u64) -> (pos: Option<usize>)
        ensures
            match pos {
                Some(i) => i < self.members@.len() && self.members@[i as int].conn == conn,
                None => !has_conn(self.members@, conn),
            },
    {
        let mut i: usize = 0;
        while i < self.members.len()
            invariant
                i <= self.members@.len(),
                forall|j: int| 0 <= j < i ==> #[trigger] self.members@[j].conn != conn,
            decreases self.members@.len() - i,
        {
            if self.members[i].conn == conn {
                return Some(i);
            }
            i = i + 1;
        }
        None
    }

    /// Puts connection `conn`, whose client is called `username`, in the room.
    /// Every other member stays as it was.
    pub fn add_to_room(&mut self, username: String, conn: u64)
        ensures
            final(self)@ == old(self)@.insert(conn, username@),
            final(self)@.dom().finite(),
    {
        proof {
            use_type_invariant(&*self);
        }
        let ghost old_s = self.members@;
        let pos = self.position(conn);
        let mut members: Vec<Member> = Vec::new();
        std::mem::swap(&mut members, &mut self.members);
        match pos {
            Some(i) => {
                members.set(i, Member { username, conn });
                let ghost s = members@;
                assert(conns_distinct(s)) by {
                    assert forall|a: int, b: int|
                        0 <= a < s.len() && 0 <= b < s.len() && a != b implies #[trigger] s[a].conn
                        != #[trigger] s[b].conn by {
                        assert(old_s[a].conn != old_s[b].conn);
                    }
                }
                proof {
                    lemma_replaced(old_s, s, i as int);
                    lemma_finite(s);
                }
                self.members = members;
            },
            None => {
                members.push(Member { username, conn });
                let ghost s = members@;
                assert(conns_distinct(s)) by {
                    assert forall|a: int, b: int|
                        0 <= a < s.len() && 0 <= b < s.len() && a != b implies #[trigger] s[a].conn
                        != #[trigger] s[b].conn by {
                        if a < old_s.len() && b < old_s.len() {
                            assert(old_s[a].conn != old_s[b].conn);
                        } else if a < old_s.len() {
                            assert(old_s[a] == s[a]);
                        } else {
                            assert(old_s[b] == s[b]);
                        }
                    }
                }
                proof {
                    lemma_pushed(old_s, s);
                    lemma_finite(s);
                }
                self.members = members;
            },
        }
    }

    /// Takes connection `conn` out of the room. Every other member stays as it
    /// was.
    pub fn remove_from_room(&mut self, conn: u64)
        ensures
            final(self)@ == old(self)@.remove(conn),
            final(self)@.dom().finite(),
    {
        proof {
            use_type_invariant(&*self);
            lemma_finite(self.members@);
        }
        let ghost old_s = self.members@;
        match self.position(conn) {
            Some(i) => {
                let mut members: Vec<Member> = Vec::new();
                std::mem::swap(&mut members, &mut self.members);
                members.remove(i);
                let ghost s = members@;
                assert(s =~= old_s.remove(i as int));
                assert(conns_distinct(s)) by {
                    assert forall|a: int, b: int|
                        0 <= a < s.len() && 0 <= b < s.len() && a != b implies #[trigger] s[a].conn
                        != #[trigger] s[b].conn by {
                        let a2 = if a < i { a } else { a + 1 };
                        let b2 = if b < i { b } else { b + 1 };
                        assert(old_s[a2].conn != old_s[b2].conn);
                    }
                }
                proof {
                    lemma_removed(old_s, s, i as int);
                    lemma_finite(s);
                }
                self.members = members;
            },
            None => {
                assert(self@ =~= old(self)@.remove(conn));
            },
        }
    }

    /// Takes out of the room every connection whose delivery failed: `results`
    /// holds, for each connection written to, whether the write succeeded.
    /// Every other member stays as it was.
    pub fn drop_unreachable(&mut self, results: &Vec<(u64, bool)>)
        ensures
            final(self)@ == old(self)@.remove_keys(failed_conns(results@)),
            final(self)@.dom().finite(),
            forall|i: int|
                0 <= i < results@.len() && !(#[trigger] results@[i]).1 ==> !final(self)@.contains_key(
                    results@[i].0,
                ),
            forall|conn: u64|
                #[trigger] old(self)@.contains_key(conn) && (forall|i: int|
                    0 <= i < results@.len() ==> results@[i] != (conn, false)) ==> final(self)@.contains_key(conn)
                    && final(self)@[conn] == old(self)@[conn],
            forall|conn: u64| #[trigger] final(self)@.contains_key(conn) ==> old(self)@.contains_key(conn),
    {
        proof {
            use_type_invariant(&*self);
            lemma_finite(self.members@);
        }
        let ghost start = self@;
        let mut i: usize = 0;
        assert(start.remove_keys(failed_conns(results@.take(0))) =~= start);
        while i < results.len()
            invariant
                i <= results@.len(),
                self@ == start.remove_keys(failed_conns(results@.take(i as int))),
                self@.dom().finite(),
            decreases results@.len() - i,
        {
            let (conn, delivered): (u64, bool) = results[i];
            let ghost before = failed_conns(results@.take(i as int));
            let ghost after = failed_conns(results@.take(i + 1));
            if !delivered {
                self.remove_from_room(conn);
                assert(after =~= before.insert(conn)) by {
                    assert(results@.take(i + 1)[i as int] == (conn, false));
                    assert forall|c: u64| after.contains(c) implies before.insert(conn).contains(c) by {
                        let j = choose|j: int|
                            0 <= j < results@.take(i + 1).len() && #[trigger] results@.take(i + 1)[j] == (c, false);
                        if j < i {
                            assert(results@.take(i as int)[j] == (c, false));
                        }
                    }
                    assert forall|c: u64| before.contains(c) implies after.contains(c) by {
                        let j = choose|j: int|
                            0 <= j < results@.take(i as int).len() && #[trigger] results@.take(i as int)[j] == (c, false);
                        assert(results@.take(i + 1)[j] == (c, false));
                    }
                }
                assert(self@ =~= start.remove_keys(after));
            } else {
                assert(after =~= before) by {
                    assert forall|c: u64| after.contains(c) implies before.contains(c) by {
                        let j = choose|j: int|
                            0 <= j < results@.take(i + 1).len() && #[trigger] results@.take(i + 1)[j] == (c, false);
                        assert(j != i);
                        assert(results@.take(i as int)[j] == (c, false));
                    }
                    assert forall|c: u64| before.contains(c) implies after.contains(c) by {
                        let j = choose|j: int|
                            0 <= j < results@.take(i as int).len() && #[trigger] results@.take(i as int)[j] == (c, false);
                        assert(results@.take(i + 1)[j] == (c, false));
                    }
                }
            }
            i = i + 1;
        }
        assert(results@.take(results@.len() as int) =~= results@);
        proof {
            law_failed_conns_exact(results@);
        }
    }
}

impl ChatRoom {
    /// Prepares the relay of `message` from `from`, who writes on connection
    /// `sender`: the frame of the line `"{from}: {message}"`, and every member
    /// but the sender's own connection, each once, with its username.
    pub fn broadcast(&self, sender: u64, from: &str, message: &str) -> (plan: Broadcast)
        ensures
            plan.frame@ == spec_frame(vstd::utf8::encode_utf8(spec_chat_line(from@, message@))),
            conns_distinct(plan.recipients@),
            forall|i: int|
                0 <= i < plan.recipients@.len() ==> {
                    let r = #[trigger] plan.recipients@[i];
                    &&& r.conn != sender
                    &&& self@.contains_key(r.conn)
                    &&& self@[r.conn] == r.username@
                },
            forall|conn: u64|
                #[trigger] self@.contains_key(conn) && conn != sender ==> has_conn(
                    plan.recipients@,
                    conn,
                ),
    {
        proof {
            use_type_invariant(self);
        }
        let line: String = chat_line(from, message);
        let frame: Vec<u8> = encode_frame(line.as_str());
        let ghost s = self.members@;
        let mut recipients: Vec<Member> = Vec::new();
        let ghost mut picked: Seq<int> = Seq::empty();
        let mut i: usize = 0;
        while i < self.members.len()
            invariant
                s == self.members@,
                conns_distinct(s),
                i <= s.len(),
                picked.len() == recipients@.len(),
                forall|a: int, b: int|
                    0 <= a < b < picked.len() ==> #[trigger] picked[a] < #[trigger] picked[b],
                forall|a: int|
                    0 <= a < picked.len() ==> {
                        &&& 0 <= #[trigger] picked[a] < i
                        &&& recipients@[a].username@ == s[picked[a]].username@
                        &&& recipients@[a].conn == s[picked[a]].conn
                        &&& s[picked[a]].conn != sender
                    },
                forall|p: int|
                    0 <= p < i && #[trigger] s[p].conn != sender ==> exists|a: int|
                        0 <= a < picked.len() && #[trigger] picked[a] == p,
            decreases s.len() - i,
        {
            if self.members[i].conn != sender {
                let m: Member = Member {
                    username: self.members[i].username.clone(),
                    conn: self.members[i].conn,
                };
                recipients.push(m);
                proof {
                    let old_picked = picked;
                    picked = picked.push(i as int);
                    assert forall|p: int|
                        0 <= p < i && #[trigger] s[p].conn != sender implies exists|a: int|
                        0 <= a < picked.len() && #[trigger] picked[a] == p by {
                        let a = choose|a: int| 0 <= a < old_picked.len() && #[trigger] old_picked[a] == p;
                        assert(picked[a] == p);
                    }
                    assert(picked[picked.len() - 1] == i as int);
                }
            }
            i = i + 1;
        }
        proof {
            let r = recipients@;
            assert forall|a: int, b: int|
                0 <= a < r.len() && 0 <= b < r.len() && a != b implies #[trigger] r[a].conn
                != #[trigger] r[b].conn by {
                assert(picked[a] != picked[b]) by {
                    if a < b {
                        assert(picked[a] < picked[b]);
                    } else {
                        assert(picked[b] < picked[a]);
                    }
                }
                assert(s[picked[a]].conn != s[picked[b]].conn);
            }
            assert forall|a: int| 0 <= a < r.len() implies {
                let m = #[trigger] r[a];
                &&& m.conn != sender
                &&& self@.contains_key(m.conn)
                &&& self@[m.conn] == m.username@
            } by {
                lemma_lookup(s, picked[a]);
            }
            assert forall|conn: u64|
                #[trigger] self@.contains_key(conn) && conn != sender implies has_conn(r, conn) by {
                let p = choose|p: int| 0 <= p < s.len() && #[trigger] s[p].conn == conn;
                assert(s[p].conn != sender);
                let a = choose|a: int| 0 <= a < picked.len() && #[trigger] picked[a] == p;
                assert(r[a].conn == conn);
            }
        }
        Broadcast { frame, recipients }
    }
}

/// Joining keeps every member: when a connection joins, every other
/// connection that was in the room is still there, under the same username.
pub proof fn law_join_keeps_members(
    room: Map<u64, Seq<char>>,
    conn: u64,
    username: Seq<char>,
    other: u64,
)
    requires
        room.contains_key(other),
        other != conn,
    ensures
        room.insert(conn, username).contains_key(other),
        room.insert(conn, username)[other] == room[other],
{
}

/// The failed connections of a relay are exactly those that some result, at
/// any position, reports as not delivered.
pub proof fn law_failed_conns_exact(results: Seq<(u64, bool)>)
    ensures
        forall|i: int|
            0 <= i < results.len() && !(#[trigger] results[i]).1 ==> failed_conns(results).contains(
                results[i].0,
            ),
        forall|conn: u64|
            #[trigger] failed_conns(results).contains(conn) ==> exists|i: int|
                0 <= i < results.len() && results[i] == (conn, false),
{
    assert forall|i: int| 0 <= i < results.len() && !(#[trigger] results[i]).1 implies failed_conns(
        results,
    ).contains(results[i].0) by {
        assert(results[i] == (results[i].0, false));
    }
}

/// Relaying only drops members: after the connections whose delivery failed
/// are taken out, every connection left was in the room before, under the same
/// username. No member is added or renamed.
pub proof fn law_delivery_only_drops(room: Map<u64, Seq<char>>, results: Seq<(u64, bool)>)
    ensures
        room.remove_keys(failed_conns(results)).dom().subset_of(room.dom()),
        forall|conn: u64|
            #[trigger] room.remove_keys(failed_conns(results)).contains_key(conn) ==> room.remove_keys(
                failed_conns(results),
            )[conn] == room[conn],
        forall|conn: u64|
            #[trigger] room.contains_key(conn) && !failed_conns(results).contains(conn) ==> room.remove_keys(
                failed_conns(results),
            ).contains_key(conn),
{
}

/// Leaving undoes joining: a connection that was not in the room, added
/// under any username and then removed, leaves the room as it was.
pub proof fn law_leave_undoes_join(room: Map<u64, Seq<char>>, conn: u64, username: Seq<char>)
    requires
        !room.contains_key(conn),
    ensures
        room.insert(conn, username).remove(conn) == room,
{
    assert(room.insert(conn, username).remove(conn) =~= room);
}

/// What a member reads of a relayed message is the sender's name, `": "`
/// and the message: the frame that `broadcast` prepares announces the length
/// of the line's encoding, and its body decodes to the line, whenever that
/// encoding is shorter than 2^16 bytes.
pub proof fn law_relayed_line(from: Seq<char>, message: Seq<char>)
    requires
        vstd::utf8::encode_utf8(spec_chat_line(from, message)).len() < 65536,
    ensures
        ({
            let body = vstd::utf8::encode_utf8(spec_chat_line(from, message));
            let frame = spec_frame(body);
            &&& spec_header_length(frame[0], frame[1]) == body.len()
            &&& vstd::utf8::decode_utf8(frame.subrange(HEADER_LEN as int, frame.len() as int))
                == from + ": "@ + message
        }),
{
    lemma_frame_round_trip(spec_chat_line(from, message));
}

/// Giving the member at `i` a new username changes only that connection's
/// entry.
proof fn lemma_replaced(old_s: Seq<Member>, s: Seq<Member>, i: int)
    requires
        conns_distinct(old_s),
        conns_distinct(s),
        0 <= i < old_s.len(),
        s.len() == old_s.len(),
        s[i].conn == old_s[i].conn,
        forall|j: int| 0 <= j < old_s.len() && j != i ==> s[j] == old_s[j],
    ensures
        room_map(s) == room_map(old_s).insert(s[i].conn, s[i].username@),
{
    let conn = s[i].conn;
    lemma_lookup(s, i);
    assert forall|k: u64| has_conn(s, k) <==> has_conn(old_s, k) by {
        if has_conn(s, k) {
            let j = choose|j: int| 0 <= j < s.len() && #[trigger] s[j].conn == k;
            assert(old_s[j].conn == k);
        }
        if has_conn(old_s, k) {
            let j = choose|j: int| 0 <= j < old_s.len() && #[trigger] old_s[j].conn == k;
            assert(s[j].conn == k);
        }
    }
    assert(has_conn(old_s, conn)) by {
        assert(old_s[i].conn == conn);
    }
    assert forall|k: u64| #[trigger] room_map(s).dom().contains(k) && k != conn implies room_map(
        s,
    )[k] == room_map(old_s)[k] by {
        let j = choose|j: int| 0 <= j < s.len() && #[trigger] s[j].conn == k;
        assert(j != i);
        lemma_lookup(s, j);
        lemma_lookup(old_s, j);
    }
    assert(room_map(s) =~= room_map(old_s).insert(conn, s[i].username@));
}

/// Appending a member on a new connection adds exactly that connection's
/// entry.
proof fn lemma_pushed(old_s: Seq<Member>, s: Seq<Member>)
    requires
        conns_distinct(old_s),
        conns_distinct(s),
        s.len() == old_s.len() + 1,
        !has_conn(old_s, s[old_s.len() as int].conn),
        forall|j: int| 0 <= j < old_s.len() ==> s[j] == old_s[j],
    ensures
        room_map(s) == room_map(old_s).insert(
            s[old_s.len() as int].conn,
            s[old_s.len() as int].username@,
        ),
{
    let n = old_s.len() as int;
    let conn = s[n].conn;
    lemma_lookup(s, n);
    assert forall|k: u64| has_conn(s, k) <==> (has_conn(old_s, k) || k == conn) by {
        if has_conn(s, k) {
            let j = choose|j: int| 0 <= j < s.len() && #[trigger] s[j].conn == k;
            if j != n {
                assert(old_s[j].conn == k);
            }
        }
        if has_conn(old_s, k) {
            let j = choose|j: int| 0 <= j < old_s.len() && #[trigger] old_s[j].conn == k;
            assert(s[j].conn == k);
        }
    }
    assert forall|k: u64| #[trigger] room_map(s).dom().contains(k) && k != conn implies room_map(
        s,
    )[k] == room_map(old_s)[k] by {
        let j = choose|j: int| 0 <= j < s.len() && #[trigger] s[j].conn == k;
        assert(j != n);
        lemma_lookup(s, j);
        lemma_lookup(old_s, j);
    }
    assert(room_map(s) =~= room_map(old_s).insert(conn, s[n].username@));
}

/// Deleting the member at `i` removes exactly that connection's entry.
proof fn lemma_removed(old_s: Seq<Member>, s: Seq<Member>, i: int)
    requires
        conns_distinct(old_s),
        conns_distinct(s),
        0 <= i < old_s.len(),
        s == old_s.remove(i),
    ensures
        room_map(s) == room_map(old_s).remove(old_s[i].conn),
{
    let conn = old_s[i].conn;
    assert forall|k: u64| has_conn(s, k) <==> (has_conn(old_s, k) && k != conn) by {
        if has_conn(s, k) {
            let j = choose|j: int| 0 <= j < s.len() && #[trigger] s[j].conn == k;
            let j2 = if j < i { j } else { j + 1 };
            assert(old_s[j2].conn == k);
            assert(j2 != i);
        }
        if has_conn(old_s, k) && k != conn {
            let j = choose|j: int| 0 <= j < old_s.len() && #[trigger] old_s[j].conn == k;
            assert(j != i);
            let j2 = if j < i { j } else { j - 1 };
            assert(s[j2].conn == k);
        }
    }
    assert forall|k: u64| #[trigger] room_map(s).dom().contains(k) implies room_map(s)[k]
        == room_map(old_s)[k] by {
        let j = choose|j: int| 0 <= j < s.len() && #[trigger] s[j].conn == k;
        let j2 = if j < i { j } else { j + 1 };
        assert(s[j] == old_s[j2]);
        lemma_lookup(s, j);
        lemma_lookup(old_s, j2);
    }
    assert(room_map(s) =~= room_map(old_s).remove(conn));
}

} // verus!
