//! The session registry: the catalog of live sessions by id. An operation
//! that may suspend takes its session out, works on it detached, and puts it
//! back; while it is out, its id is marked busy and is not found, so no two
//! operations ever run on one session at once and no lock is held across the
//! suspension.
use vstd::prelude::*;
use vstd::string::*;
use std::collections::{HashMap, HashSet};
use vstd::std_specs::hash::spec_hash_map_iter;
use vstd::std_specs::iter::IteratorSpec;
use crate::session::{describes, SessionView, TerminalSession, DEFAULT_COLS, DEFAULT_ROWS};
use crate::terminal::{TerminalError, TerminalInfo};
use crate::transport::fresh_id;

verus! {

broadcast use vstd::std_specs::hash::group_hash_axioms;

/// A lower-case hexadecimal digit.
pub open spec fn hex_char(d: nat) -> char {
    if d < 10 {
        ('0' as nat + d) as char
    } else {
        ('a' as nat + (d - 10)) as char
    }
}

/// 16 to the power `k`.
pub open spec fn pow16(k: nat) -> nat
    decreases k,
{
    if k == 0 {
        1
    } else {
        16 * pow16((k - 1) as nat)
    }
}

proof fn lemma_pow16_pos(k: nat)
    ensures
        pow16(k) >= 1,
    decreases k,
{
    if k > 0 {
        lemma_pow16_pos((k - 1) as nat);
    }
}

/// Hexadecimal digit `i` of a 128-bit value, the most significant first.
pub open spec fn nibble(id: u128, i: nat) -> nat {
    (id as nat / pow16((31 - i) as nat)) % 16
}

/// The first `i` digits of an id's text, with a `-` before digits 8, 12,
/// 16 and 20 (counting from 0).
pub open spec fn uuid_prefix(id: u128, i: nat) -> Seq<char>
    decreases i,
{
    if i == 0 {
        Seq::empty()
    } else {
        let k = (i - 1) as nat;
        let p = uuid_prefix(id, k);
        let p = if k == 8 || k == 12 || k == 16 || k == 20 {
            p.push('-')
        } else {
            p
        };
        p.push(hex_char(nibble(id, k)))
    }
}

/// The text of a session id: the 32 lower-case hexadecimal digits of its
/// value, most significant first, grouped 8-4-4-4-12 by hyphens.
pub open spec fn uuid_text(id: u128) -> Seq<char> {
    uuid_prefix(id, 32)
}

fn hex_str(d: u128) -> (r: &'static str)
    requires
        d < 16,
    ensures
        r@ == seq![hex_char(d as nat)],
{
    proof {
        reveal_strlit("0");
        reveal_strlit("1");
        reveal_strlit("2");
        reveal_strlit("3");
        reveal_strlit("4");
        reveal_strlit("5");
        reveal_strlit("6");
        reveal_strlit("7");
        reveal_strlit("8");
        reveal_strlit("9");
        reveal_strlit("a");
        reveal_strlit("b");
        reveal_strlit("c");
        reveal_strlit("d");
        reveal_strlit("e");
        reveal_strlit("f");
    }
    if d == 0 {
        "0"
    } else if d == 1 {
        "1"
    } else if d == 2 {
        "2"
    } else if d == 3 {
        "3"
    } else if d == 4 {
        "4"
    } else if d == 5 {
        "5"
    } else if d == 6 {
        "6"
    } else if d == 7 {
        "7"
    } else if d == 8 {
        "8"
    } else if d == 9 {
        "9"
    } else if d == 10 {
        "a"
    } else if d == 11 {
        "b"
    } else if d == 12 {
        "c"
    } else if d == 13 {
        "d"
    } else if d == 14 {
        "e"
    } else {
        "f"
    }
}

/// The text of a session id.
pub fn id_text(id: u128) -> (r: String)
    ensures
        r@ == uuid_text(id),
{
    let mut s = String::new();
    let mut d: u128 = 0x1000_0000_0000_0000_0000_0000_0000_0000;
    let mut i: usize = 0;
    proof {
        reveal_with_fuel(pow16, 32);
        assert(pow16(31) == 0x1000_0000_0000_0000_0000_0000_0000_0000);
    }
    while i < 32
        invariant
            i <= 32,
            s@ == uuid_prefix(id, i as nat),
            i < 32 ==> d as nat == pow16((31 - i) as nat),
            d >= 1,
        decreases 32 - i,
    {
        if i == 8 || i == 12 || i == 16 || i == 20 {
            s.append("-");
        }
        proof {
            reveal_strlit("-");
        }
        let digit = (id / d) % 16;
        s.append(hex_str(digit));
        proof {
            assert(digit as nat == nibble(id, i as nat));
            if i < 31 {
                let k = (30 - i) as nat;
                assert(pow16((k + 1) as nat) == 16 * pow16(k));
                assert((16 * pow16(k)) / 16 == pow16(k)) by (nonlinear_arith);
                lemma_pow16_pos(k);
            }
        }
        if i < 31 {
            d = d / 16;
        }
        i = i + 1;
    }
    s
}

/// The catalog after removing a session for good: the session, if the id was
/// there, and the catalog without it.
pub open spec fn take_spec<H, Q>(m: Map<u128, SessionView<H, Q>>, id: u128) -> (
    Map<u128, SessionView<H, Q>>,
    Option<SessionView<H, Q>>,
) {
    if m.contains_key(id) {
        (m.remove(id), Some(m[id]))
    } else {
        (m, None)
    }
}

/// The catalog and the busy ids after taking a session out for an
/// operation: the id becomes busy and the session leaves the catalog. An id
/// that is busy or unknown gives nothing and changes nothing.
pub open spec fn checkout_spec<H, Q>(
    m: Map<u128, SessionView<H, Q>>,
    busy: Set<u128>,
    id: u128,
) -> (Map<u128, SessionView<H, Q>>, Set<u128>, Option<SessionView<H, Q>>) {
    if m.contains_key(id) && !busy.contains(id) {
        (m.remove(id), busy.insert(id), Some(m[id]))
    } else {
        (m, busy, None)
    }
}

/// The catalog after a create-if-missing for `id` with session `s`: a
/// busy or known id is left alone.
pub open spec fn ensure_spec<H, Q>(
    m: Map<u128, SessionView<H, Q>>,
    busy: Set<u128>,
    id: u128,
    s: SessionView<H, Q>,
) -> Map<u128, SessionView<H, Q>> {
    if m.contains_key(id) || busy.contains(id) {
        m
    } else {
        m.insert(id, s)
    }
}

/// Whether a snapshot describes one of the sessions of a catalog.
pub open spec fn describes_one_of<H, Q>(info: TerminalInfo, m: Map<u128, SessionView<H, Q>>) -> bool {
    exists|k: u128| #[trigger] m.contains_key(k) && describes(info, m[k])
}

/// The ids below `c`.
spec fn below(c: u128) -> Set<u128> {
    Set::new(|j: u128| j < c)
}

proof fn lemma_below_len(c: u128)
    ensures
        below(c).finite(),
        below(c).len() == c as nat,
    decreases c,
{
    if c == 0 {
        assert(below(0) =~= Set::<u128>::empty());
    } else {
        let p = (c - 1) as u128;
        lemma_below_len(p);
        assert(below(c) =~= below(p).insert(p));
    }
}

/// The catalog of live terminal sessions, and the ids of the sessions that
/// are out for an operation.
pub struct TerminalManager<H, Q> {
    sessions: HashMap<u128, TerminalSession<H, Q>>,
    busy: HashSet<u128>,
}

impl<H, Q> TerminalManager<H, Q> {
    /// Every session is kept under its own id, and a busy id is not in the
    /// catalog.
    pub closed spec fn wf(&self) -> bool {
        &&& forall|k: u128| #[trigger]
            self.sessions@.contains_key(k) ==> self.sessions@[k].view().id == k
        &&& forall|k: u128| #[trigger] self.busy@.contains(k) ==> !self.sessions@.contains_key(k)
        &&& self.busy@.finite()
    }

    /// The sessions, by id.
    pub closed spec fn sessions(&self) -> Map<u128, SessionView<H, Q>> {
        self.sessions@.map_values(|s: TerminalSession<H, Q>| s.view())
    }

    /// The ids of the sessions that are out for an operation.
    pub closed spec fn busy(&self) -> Set<u128> {
        self.busy@
    }

    /// The registry's invariant, as seen through its views.
    pub proof fn lemma_wf(&self)
        requires
            self.wf(),
        ensures
            forall|k: u128| #[trigger]
                self.sessions().contains_key(k) ==> self.sessions()[k].id == k,
            forall|k: u128| #[trigger] self.busy().contains(k) ==> !self.sessions().contains_key(k),
    {
    }

    pub fn new() -> (r: Self)
        ensures
            r.wf(),
            r.sessions() == Map::<u128, SessionView<H, Q>>::empty(),
            r.busy() == Set::<u128>::empty(),
    {
        let r = TerminalManager { sessions: HashMap::new(), busy: HashSet::new() };
        proof {
            assert(r.sessions() =~= Map::<u128, SessionView<H, Q>>::empty());
        }
        r
    }

    /// Whether a session with this id is in the registry.
    pub fn contains(&self, id: u128) -> (r: bool)
        ensures
            r == self.sessions().contains_key(id),
    {
        self.sessions.contains_key(&id)
    }

    /// Whether the session with this id is out for an operation.
    pub fn is_busy(&self, id: u128) -> (r: bool)
        ensures
            r == self.busy().contains(id),
    {
        self.busy.contains(&id)
    }

    /// An id that no session has, in the registry or out of it: a fresh
    /// random one, or else the least free one.
    fn unused_id(&self) -> (r: u128)
        requires
            self.wf(),
        ensures
            !self.sessions().contains_key(r),
            !self.busy().contains(r),
    {
        let first = fresh_id();
        if !self.sessions.contains_key(&first) && !self.busy.contains(&first) {
            return first;
        }
        let ghost used = self.sessions@.dom().union(self.busy@);
        let bound: u128 = self.sessions.len() as u128 + self.busy.len() as u128;
        proof {
            vstd::set_lib::lemma_len_union(self.sessions@.dom(), self.busy@);
        }
        let mut c: u128 = 0;
        while self.sessions.contains_key(&c) || self.busy.contains(&c)
            invariant
                used == self.sessions@.dom().union(self.busy@),
                used.finite(),
                used.len() <= bound,
                bound <= 2 * (usize::MAX as u128),
                forall|j: u128| j < c ==> used.contains(j),
                c <= bound,
            decreases bound - c,
        {
            proof {
                assert(below((c + 1) as u128).subset_of(used));
                lemma_below_len((c + 1) as u128);
                vstd::set_lib::lemma_len_subset(below((c + 1) as u128), used);
            }
            c = c + 1;
        }
        c
    }

    /// Removes the session with this id for good, if it is in the registry.
    pub fn close_session(&mut self, id: u128) -> (r: Option<TerminalSession<H, Q>>)
        requires
            old(self).wf(),
        ensures
            final(self).wf(),
            final(self).busy() == old(self).busy(),
            take_spec(old(self).sessions(), id) == (final(self).sessions(), match r {
                Some(s) => Some(s.view()),
                None => None,
            }),
    {
        let r = self.sessions.remove(&id);
        proof {
            assert(self.sessions() =~= old(self).sessions().remove(id));
        }
        r
    }

    /// Puts a session into the registry under its own id, in place of any
    /// session held there; the id is no longer busy.
    pub fn insert_session(&mut self, id: u128, session: TerminalSession<H, Q>)
        requires
            old(self).wf(),
            session.view().id == id,
        ensures
            final(self).wf(),
            final(self).sessions() == old(self).sessions().insert(id, session.view()),
            final(self).busy() == old(self).busy().remove(id),
    {
        let ghost sv = session.view();
        self.sessions.insert(id, session);
        self.busy.remove(&id);
        proof {
            assert(self.sessions() =~= old(self).sessions().insert(id, sv));
            assert(self.busy@ =~= old(self).busy@.remove(id));
        }
    }

    /// Registers a new unconnected session under an id that no session has;
    /// returns its snapshot.
    pub fn create_session(&mut self, host_id: u128, host_name: String) -> (r: TerminalInfo)
        requires
            old(self).wf(),
        ensures
            final(self).wf(),
            !old(self).sessions().contains_key(r.id),
            !old(self).busy().contains(r.id),
            final(self).busy() == old(self).busy(),
            final(self).sessions() == old(self).sessions().insert(
                r.id,
                final(self).sessions()[r.id],
            ),
            describes(r, final(self).sessions()[r.id]),
            final(self).sessions()[r.id].cols == DEFAULT_COLS,
            final(self).sessions()[r.id].rows == DEFAULT_ROWS,
            final(self).sessions()[r.id].transport is None,
            final(self).sessions()[r.id].queue is None,
            r.host_id == host_id,
            r.host_name@ == host_name@,
            !r.connected,
    {
        let id = self.unused_id();
        self.create_session_with_id(id, host_id, host_name)
    }

    /// Registers a new unconnected session under `id`, in place of any
    /// session held there; returns its snapshot. The id must not be out for
    /// an operation.
    pub fn create_session_with_id(&mut self, id: u128, host_id: u128, host_name: String) -> (r:
        TerminalInfo)
        requires
            old(self).wf(),
            !old(self).busy().contains(id),
        ensures
            final(self).wf(),
            final(self).busy() == old(self).busy(),
            final(self).sessions().contains_key(id),
            final(self).sessions() == old(self).sessions().insert(id, final(self).sessions()[id]),
            describes(r, final(self).sessions()[id]),
            final(self).sessions()[id].cols == DEFAULT_COLS,
            final(self).sessions()[id].rows == DEFAULT_ROWS,
            final(self).sessions()[id].transport is None,
            final(self).sessions()[id].queue is None,
            r.id == id,
            r.host_id == host_id,
            r.host_name@ == host_name@,
            !r.connected,
    {
        let session = TerminalSession::new_with_id(id, host_id, host_name);
        let info = session.info();
        self.insert_session(id, session);
        proof {
            assert(old(self).busy().remove(id) =~= old(self).busy());
        }
        info
    }

    /// Registers a session under `id`, named after the host it is for,
    /// unless one is there already or the id is out for an operation.
    pub fn ensure_session(&mut self, id: u128, host_name: String)
        requires
            old(self).wf(),
        ensures
            final(self).wf(),
            final(self).busy() == old(self).busy(),
            old(self).sessions().contains_key(id) || old(self).busy().contains(id)
                ==> final(self).sessions() == old(self).sessions(),
            !old(self).sessions().contains_key(id) && !old(self).busy().contains(id) ==> {
                &&& final(self).sessions() == ensure_spec(
                    old(self).sessions(),
                    old(self).busy(),
                    id,
                    final(self).sessions()[id],
                )
                &&& final(self).sessions()[id].host_name == host_name@
                &&& final(self).sessions()[id].id == id
                &&& final(self).sessions()[id].host_id == id
                &&& final(self).sessions()[id].transport is None
                &&& final(self).sessions()[id].queue is None
            },
    {
        if !self.contains(id) && !self.is_busy(id) {
            self.create_session_with_id(id, id, host_name);
        }
    }

    /// The snapshot of the session with this id, if it is in the registry.
    pub fn get_session(&self, id: u128) -> (r: Option<TerminalInfo>)
        ensures
            r is Some <==> self.sessions().contains_key(id),
            r matches Some(info) ==> describes(info, self.sessions()[id]),
    {
        match self.sessions.get(&id) {
            Some(s) => Some(s.info()),
            None => None,
        }
    }

    /// Snapshots of all sessions in the registry, one per session.
    pub fn get_sessions(&self) -> (r: Vec<TerminalInfo>)
        requires
            self.wf(),
        ensures
            r@.len() == self.sessions().len(),
            forall|i: int| 0 <= i < r@.len() ==> describes_one_of(#[trigger] r@[i], self.sessions()),
            forall|k: u128| #[trigger]
                self.sessions().contains_key(k) ==> exists|i: int|
                    0 <= i < r@.len() && describes(#[trigger] r@[i], self.sessions()[k]),
            forall|i: int, j: int|
                0 <= i < r@.len() && 0 <= j < r@.len() && i != j ==> #[trigger] r@[i].id
                    != #[trigger] r@[j].id,
    {
        let mut out: Vec<TerminalInfo> = Vec::new();
        let ghost v = spec_hash_map_iter(&self.sessions).remaining();
        for (_k, s) in it: self.sessions.iter()
            invariant
                it.seq() == v,
                out@.len() == it.index(),
                it.index() <= v.len(),
                forall|j: int|
                    0 <= j < it.index() ==> describes(#[trigger] out@[j], (*v[j].1).view()),
        {
            out.push(s.info());
        }
        proof {
            let m = self.sessions@;
            assert(out@.len() == v.len());
            assert(self.sessions().dom() =~= m.dom());
            assert forall|i: int| 0 <= i < out@.len() implies describes_one_of(
                #[trigger] out@[i],
                self.sessions(),
            ) by {
                let k = *v[i].0;
                assert(m.contains_key(k) && m[k] == *v[i].1);
                assert(self.sessions().contains_key(k) && describes(out@[i], self.sessions()[k]));
            }
            assert forall|k: u128| #[trigger] self.sessions().contains_key(k) implies exists|i: int|
                0 <= i < out@.len() && describes(#[trigger] out@[i], self.sessions()[k]) by {
                assert(v.contains((&k, &m[k])));
                let i = choose|i: int| 0 <= i < v.len() && v[i] == (&k, &m[k]);
                assert(describes(out@[i], self.sessions()[k]));
            }
            assert forall|i: int, j: int|
                0 <= i < out@.len() && 0 <= j < out@.len() && i != j implies #[trigger] out@[i].id
                    != #[trigger] out@[j].id by {
                let ki = *v[i].0;
                let kj = *v[j].0;
                assert(m.contains_key(ki) && m[ki] == *v[i].1);
                assert(m.contains_key(kj) && m[kj] == *v[j].1);
                assert(out@[i].id == ki);
                assert(out@[j].id == kj);
                if ki == kj {
                    assert(v[i] == v[j]);
                    assert(v.no_duplicates());
                }
            }
        }
        out
    }

    /// Takes the session with this id out for an operation, which must put
    /// it back with `insert_session` when done. While it is out, the id is
    /// busy and a second operation on it fails with `SessionNotFound`
    /// instead of waiting or interleaving.
    pub fn checkout(&mut self, id: u128) -> (r: Result<TerminalSession<H, Q>, TerminalError>)
        requires
            old(self).wf(),
        ensures
            final(self).wf(),
            checkout_spec(old(self).sessions(), old(self).busy(), id) == (
                final(self).sessions(),
                final(self).busy(),
                match r {
                    Ok(s) => Some(s.view()),
                    Err(_) => None,
                },
            ),
            r matches Err(e) ==> e matches TerminalError::SessionNotFound(m) && m@ == uuid_text(
                id,
            ),
    {
        if self.busy.contains(&id) {
            return Err(TerminalError::SessionNotFound(id_text(id)));
        }
        match self.sessions.remove(&id) {
            Some(s) => {
                self.busy.insert(id);
                proof {
                    assert(self.sessions() =~= old(self).sessions().remove(id));
                }
                Ok(s)
            },
            None => {
                proof {
                    assert(self.sessions() =~= old(self).sessions());
                }
                Err(TerminalError::SessionNotFound(id_text(id)))
            },
        }
    }
}

impl<H, Q> Default for TerminalManager<H, Q> {
    fn default() -> (r: Self)
        ensures
            r.wf(),
            r.sessions() == Map::<u128, SessionView<H, Q>>::empty(),
            r.busy() == Set::<u128>::empty(),
    {
        Self::new()
    }
}

/// Of two operations on one session id, the one that takes the session out
/// first gets it; the other finds nothing until it is put back, and a
/// create-if-missing in between leaves the catalog alone.
pub proof fn lemma_exclusive_checkout<H, Q>(
    m: Map<u128, SessionView<H, Q>>,
    busy: Set<u128>,
    id: u128,
    s: SessionView<H, Q>,
)
    requires
        forall|k: u128| #[trigger] busy.contains(k) ==> !m.contains_key(k),
    ensures
        checkout_spec(m, busy, id).2 is Some <==> m.contains_key(id),
        ({
            let (m1, b1, _) = checkout_spec(m, busy, id);
            &&& checkout_spec(m1, b1, id).2 is None
            &&& checkout_spec(m1, b1, id).0 == m1
            &&& (m.contains_key(id) ==> ensure_spec(m1, b1, id, s) == m1)
        }),
{
}

/// Taking a session out and putting it back unchanged leaves the registry
/// as it was.
pub proof fn lemma_checkout_put_back<H, Q>(
    m: Map<u128, SessionView<H, Q>>,
    busy: Set<u128>,
    id: u128,
)
    requires
        m.contains_key(id),
        !busy.contains(id),
    ensures
        ({
            let (m1, b1, s) = checkout_spec(m, busy, id);
            m1.insert(id, s->0) == m && b1.remove(id) == busy
        }),
{
    assert(m.remove(id).insert(id, m[id]) =~= m);
    assert(busy.insert(id).remove(id) =~= busy);
}

} // verus!
