use crate::event::{IdDataSenderBridge, UserIncoming};
use vstd::prelude::*;

verus! {

/// No two bridges share an identifier.
pub open spec fn ids_unique(s: Seq<IdDataSenderBridge>) -> bool {
    forall|i: int, j: int|
        0 <= i < s.len() && 0 <= j < s.len() && i != j ==> #[trigger] s[i].id@ != #[trigger] s[j].id@
}

pub open spec fn has_id(s: Seq<IdDataSenderBridge>, id: Seq<u8>) -> bool {
    exists|i: int| 0 <= i < s.len() && #[trigger] s[i].id@ == id
}

/// The position of the bridge with identifier `id`, when there is one.
pub open spec fn index_of(s: Seq<IdDataSenderBridge>, id: Seq<u8>) -> int {
    choose|i: int| 0 <= i < s.len() && #[trigger] s[i].id@ == id
}

/// Adding a bridge replaces the one with the same identifier in place, or
/// appends it.
pub open spec fn added(s: Seq<IdDataSenderBridge>, b: IdDataSenderBridge) -> Seq<IdDataSenderBridge> {
    if has_id(s, b.id@) {
        s.update(index_of(s, b.id@), b)
    } else {
        s.push(b)
    }
}

/// Removing an identifier drops its bridge; an absent one changes nothing.
pub open spec fn removed(s: Seq<IdDataSenderBridge>, id: Seq<u8>) -> Seq<IdDataSenderBridge> {
    if has_id(s, id) {
        s.remove(index_of(s, id))
    } else {
        s
    }
}

pub open spec fn applied(s: Seq<IdDataSenderBridge>, ev: UserIncoming) -> Seq<IdDataSenderBridge> {
    match ev {
        UserIncoming::Add(b) => added(s, b),
        UserIncoming::Remove(id) => removed(s, id@),
    }
}

/// The registry after a stream of notifications, taken in order.
pub open spec fn replayed(s: Seq<IdDataSenderBridge>, evs: Seq<UserIncoming>) -> Seq<IdDataSenderBridge>
    decreases evs.len(),
{
    if evs.len() == 0 {
        s
    } else {
        replayed(applied(s, evs[0]), evs.drop_first())
    }
}

/// Whether a notification adds a bridge with identifier `id`.
pub open spec fn adds_id(ev: UserIncoming, id: Seq<u8>) -> bool {
    ev matches UserIncoming::Add(b) && b.id@ == id
}

/// The live bridges of one session, in the order they were first added.
pub struct BridgeRegistry {
    entries: Vec<IdDataSenderBridge>,
}

impl View for BridgeRegistry {
    type V = Seq<IdDataSenderBridge>;

    closed spec fn view(&self) -> Seq<IdDataSenderBridge> {
        self.entries@
    }
}

fn same_bytes(a: &[u8], b: &[u8]) -> (r: bool)
    ensures
        r == (a@ == b@),
{
    if a.len() != b.len() {
        return false;
    }
    let mut i: usize = 0;
    while i < a.len()
        invariant
            a@.len() == b@.len(),
            i <= a@.len(),
            a@.subrange(0, i as int) == b@.subrange(0, i as int),
        decreases a@.len() - i,
    {
        if a[i] != b[i] {
            assert(a@[i as int] != b@[i as int]);
            return false;
        }
        assert(a@.subrange(0, i + 1) == a@.subrange(0, i as int).push(a@[i as int]));
        assert(b@.subrange(0, i + 1) == b@.subrange(0, i as int).push(b@[i as int]));
        i = i + 1;
    }
    assert(a@ == a@.subrange(0, a@.len() as int));
    assert(b@ == b@.subrange(0, b@.len() as int));
    true
}

fn copy_bytes(a: &[u8]) -> (r: Vec<u8>)
    ensures
        r@ == a@,
{
    let mut out: Vec<u8> = Vec::new();
    let mut i: usize = 0;
    while i < a.len()
        invariant
            i <= a@.len(),
            out@ == a@.subrange(0, i as int),
        decreases a@.len() - i,
    {
        out.push(a[i]);
        assert(a@.subrange(0, i + 1) == a@.subrange(0, i as int).push(a@[i as int]));
        i = i + 1;
    }
    assert(a@ == a@.subrange(0, a@.len() as int));
    out
}

impl BridgeRegistry {
    pub open spec fn wf(&self) -> bool {
        ids_unique(self@)
    }

    pub fn new() -> (r: Self)
        ensures
            r.wf(),
            r@ == Seq::<IdDataSenderBridge>::empty(),
    {
        BridgeRegistry { entries: Vec::new() }
    }

    fn position(&self, id: &[u8]) -> (r: Option<usize>)
        requires
            self.wf(),
        ensures
            r matches Some(i) ==> i < self@.len() && i == index_of(self@, id@),
            r is None <==> !has_id(self@, id@),
    {
        let mut i: usize = 0;
        while i < self.entries.len()
            invariant
                i <= self@.len(),
                self@ == self.entries@,
                self.wf(),
                forall|j: int| 0 <= j < i ==> #[trigger] self@[j].id@ != id@,
            decreases self@.len() - i,
        {
            if same_bytes(self.entries[i].id.as_slice(), id) {
                proof {
                    let k = index_of(self@, id@);
                    assert(self@[i as int].id@ == id@);
                    assert(self@[k].id@ == id@ && 0 <= k < self@.len());
                    if k != i {
                        assert(self@[k].id@ != self@[i as int].id@);
                    }
                }
                return Some(i);
            }
            i = i + 1;
        }
        None
    }

    pub fn len(&self) -> (r: usize)
        ensures
            r == self@.len(),
    {
        self.entries.len()
    }

    pub fn contains(&self, id: &[u8]) -> (r: bool)
        requires
            self.wf(),
        ensures
            r == has_id(self@, id@),
    {
        self.position(id).is_some()
    }

    pub fn get(&self, id: &[u8]) -> (r: Option<&IdDataSenderBridge>)
        requires
            self.wf(),
        ensures
            r is Some <==> has_id(self@, id@),
            r matches Some(b) ==> *b == self@[index_of(self@, id@)],
    {
        match self.position(id) {
            Some(i) => Some(&self.entries[i]),
            None => None,
        }
    }

    /// Registers a bridge. A bridge already registered under the same
    /// identifier is superseded: it is replaced in place and handed back.
    pub fn add(&mut self, bridge: IdDataSenderBridge) -> (superseded: Option<IdDataSenderBridge>)
        requires
            old(self).wf(),
        ensures
            final(self).wf(),
            final(self)@ == added(old(self)@, bridge),
            superseded is Some <==> has_id(old(self)@, bridge.id@),
            superseded matches Some(b) ==> b == old(self)@[index_of(old(self)@, bridge.id@)],
    {
        let ghost s = self@;
        let ghost id = bridge.id@;
        match self.position(bridge.id.as_slice()) {
            Some(i) => {
                self.entries.push(bridge);
                let prev = self.entries.swap_remove(i);
                proof {
                    assert(self@ =~= s.update(i as int, bridge));
                    assert forall|a: int, b: int|
                        0 <= a < self@.len() && 0 <= b < self@.len() && a != b implies #[trigger] self@[a].id@
                        != #[trigger] self@[b].id@ by {
                        if a != i && b != i {
                            assert(s[a].id@ != s[b].id@);
                        } else if a == i {
                            assert(s[i as int].id@ == id);
                            assert(s[b].id@ != s[i as int].id@);
                        } else {
                            assert(s[i as int].id@ == id);
                            assert(s[a].id@ != s[i as int].id@);
                        }
                    }
                }
                Some(prev)
            },
            None => {
                self.entries.push(bridge);
                proof {
                    assert forall|a: int, b: int|
                        0 <= a < self@.len() && 0 <= b < self@.len() && a != b implies #[trigger] self@[a].id@
                        != #[trigger] self@[b].id@ by {
                        if a < s.len() && b < s.len() {
                            assert(s[a].id@ != s[b].id@);
                        } else if a < s.len() {
                            assert(s[a].id@ != id);
                        } else {
                            assert(s[b].id@ != id);
                        }
                    }
                }
                None
            },
        }
    }

    /// Drops the bridge with identifier `id`; an absent identifier (a
    /// connection already reaped) is no error and changes nothing.
    pub fn remove(&mut self, id: &[u8]) -> (r: Option<IdDataSenderBridge>)
        requires
            old(self).wf(),
        ensures
            final(self).wf(),
            final(self)@ == removed(old(self)@, id@),
            !has_id(final(self)@, id@),
            r is Some <==> has_id(old(self)@, id@),
            r matches Some(b) ==> b == old(self)@[index_of(old(self)@, id@)],
    {
        let ghost s = self@;
        match self.position(id) {
            Some(i) => {
                let prev = self.entries.remove(i);
                proof {
                    lemma_removed_unique_absent(s, id@);
                }
                Some(prev)
            },
            None => None,
        }
    }

    /// Takes one notification from the data plane.
    pub fn apply(&mut self, ev: UserIncoming)
        requires
            old(self).wf(),
        ensures
            final(self).wf(),
            final(self)@ == applied(old(self)@, ev),
    {
        match ev {
            UserIncoming::Add(b) => {
                let _ = self.add(b);
            },
            UserIncoming::Remove(id) => {
                let _ = self.remove(id.as_slice());
            },
        }
    }

    /// The identifiers of the live bridges at this moment, in order.
    pub fn snapshot(&self) -> (r: Vec<Vec<u8>>)
        ensures
            r@.len() == self@.len(),
            forall|i: int| 0 <= i < r@.len() ==> #[trigger] r@[i]@ == self@[i].id@,
    {
        let mut out: Vec<Vec<u8>> = Vec::new();
        let mut i: usize = 0;
        while i < self.entries.len()
            invariant
                i <= self@.len(),
                self@ == self.entries@,
                out@.len() == i,
                forall|j: int| 0 <= j < i ==> #[trigger] out@[j]@ == self@[j].id@,
            decreases self@.len() - i,
        {
            out.push(copy_bytes(self.entries[i].id.as_slice()));
            i = i + 1;
        }
        out
    }

    /// Hands every live bridge over for session teardown, in order, and
    /// leaves the registry empty.
    pub fn drain(&mut self) -> (r: Vec<IdDataSenderBridge>)
        ensures
            r@ == old(self)@,
            final(self)@ == Seq::<IdDataSenderBridge>::empty(),
            final(self).wf(),
    {
        let mut out: Vec<IdDataSenderBridge> = Vec::new();
        std::mem::swap(&mut out, &mut self.entries);
        out
    }
}

proof fn lemma_removed_unique_absent(s: Seq<IdDataSenderBridge>, id: Seq<u8>)
    requires
        ids_unique(s),
    ensures
        ids_unique(removed(s, id)),
        !has_id(removed(s, id), id),
{
    if has_id(s, id) {
        let k = index_of(s, id);
        let t = s.remove(k);
        assert forall|a: int, b: int|
            0 <= a < t.len() && 0 <= b < t.len() && a != b implies #[trigger] t[a].id@
            != #[trigger] t[b].id@ by {
            let a2 = if a < k { a } else { a + 1 };
            let b2 = if b < k { b } else { b + 1 };
            assert(t[a] == s[a2] && t[b] == s[b2]);
            assert(s[a2].id@ != s[b2].id@);
        }
        if has_id(t, id) {
            let j = choose|j: int| 0 <= j < t.len() && #[trigger] t[j].id@ == id;
            let j2 = if j < k { j } else { j + 1 };
            assert(t[j] == s[j2]);
            assert(s[k].id@ == id);
            assert(s[j2].id@ != s[k].id@);
        }
    }
}

proof fn lemma_applied_unique(s: Seq<IdDataSenderBridge>, ev: UserIncoming)
    requires
        ids_unique(s),
    ensures
        ids_unique(applied(s, ev)),
{
    match ev {
        UserIncoming::Add(b) => {
            let t = added(s, b);
            if has_id(s, b.id@) {
                let k = index_of(s, b.id@);
                assert(s[k].id@ == b.id@);
                assert forall|x: int, y: int|
                    0 <= x < t.len() && 0 <= y < t.len() && x != y implies #[trigger] t[x].id@
                    != #[trigger] t[y].id@ by {
                    if x != k && y != k {
                        assert(s[x].id@ != s[y].id@);
                    } else if x == k {
                        assert(s[y].id@ != s[k].id@);
                    } else {
                        assert(s[x].id@ != s[k].id@);
                    }
                }
            } else {
                assert forall|x: int, y: int|
                    0 <= x < t.len() && 0 <= y < t.len() && x != y implies #[trigger] t[x].id@
                    != #[trigger] t[y].id@ by {
                    if x < s.len() && y < s.len() {
                        assert(s[x].id@ != s[y].id@);
                    } else if x < s.len() {
                        assert(s[x].id@ != b.id@);
                    } else {
                        assert(s[y].id@ != b.id@);
                    }
                }
            }
        },
        UserIncoming::Remove(id) => {
            lemma_removed_unique_absent(s, id@);
        },
    }
}

proof fn lemma_replayed_unique(s: Seq<IdDataSenderBridge>, evs: Seq<UserIncoming>)
    requires
        ids_unique(s),
    ensures
        ids_unique(replayed(s, evs)),
    decreases evs.len(),
{
    if evs.len() > 0 {
        lemma_applied_unique(s, evs[0]);
        lemma_replayed_unique(applied(s, evs[0]), evs.drop_first());
    }
}

proof fn lemma_replayed_concat(s: Seq<IdDataSenderBridge>, a: Seq<UserIncoming>, b: Seq<UserIncoming>)
    ensures
        replayed(s, a + b) == replayed(replayed(s, a), b),
    decreases a.len(),
{
    if a.len() == 0 {
        assert(a + b =~= b);
    } else {
        assert((a + b)[0] == a[0]);
        assert((a + b).drop_first() =~= a.drop_first() + b);
        lemma_replayed_concat(applied(s, a[0]), a.drop_first(), b);
    }
}

proof fn lemma_no_add_keeps_absent(s: Seq<IdDataSenderBridge>, id: Seq<u8>, evs: Seq<UserIncoming>)
    requires
        !has_id(s, id),
        forall|k: int| 0 <= k < evs.len() ==> !adds_id(#[trigger] evs[k], id),
    ensures
        !has_id(replayed(s, evs), id),
    decreases evs.len(),
{
    if evs.len() > 0 {
        let t = applied(s, evs[0]);
        assert(!adds_id(evs[0], id));
        match evs[0] {
            UserIncoming::Add(b) => {
                if has_id(t, id) {
                    let j = choose|j: int| 0 <= j < t.len() && #[trigger] t[j].id@ == id;
                    if has_id(s, b.id@) {
                        let k = index_of(s, b.id@);
                        if j != k {
                            assert(t[j] == s[j]);
                        }
                    } else {
                        if j < s.len() {
                            assert(t[j] == s[j]);
                        }
                    }
                }
            },
            UserIncoming::Remove(r) => {
                if has_id(s, r@) && has_id(t, id) {
                    let k = index_of(s, r@);
                    let j = choose|j: int| 0 <= j < t.len() && #[trigger] t[j].id@ == id;
                    let j2 = if j < k { j } else { j + 1 };
                    assert(t[j] == s[j2]);
                }
            },
        }
        assert forall|k: int| 0 <= k < evs.drop_first().len() implies !adds_id(
            #[trigger] evs.drop_first()[k],
            id,
        ) by {
            assert(evs.drop_first()[k] == evs[k + 1]);
        }
        lemma_no_add_keeps_absent(t, id, evs.drop_first());
    }
}

/// Once a bridge was added and its identifier then removed, the identifier
/// stays out of the registry for as long as no bridge with that identifier is
/// added again, whatever else happens before or after the removal.
pub proof fn lemma_removed_stays_absent(
    s: Seq<IdDataSenderBridge>,
    h: IdDataSenderBridge,
    between: Seq<UserIncoming>,
    id: Vec<u8>,
    after: Seq<UserIncoming>,
)
    requires
        ids_unique(s),
        id@ == h.id@,
        forall|k: int| 0 <= k < between.len() ==> !adds_id(#[trigger] between[k], id@),
        forall|k: int| 0 <= k < after.len() ==> !adds_id(#[trigger] after[k], id@),
    ensures
        !has_id(
            replayed(
                s,
                seq![UserIncoming::Add(h)] + between + seq![UserIncoming::Remove(id)] + after,
            ),
            id@,
        ),
{
    let first = seq![UserIncoming::Add(h)] + between;
    let rm = seq![UserIncoming::Remove(id)];
    lemma_replayed_concat(s, first + rm, after);
    lemma_replayed_concat(s, first, rm);
    let s1 = replayed(s, first);
    lemma_replayed_unique(s, first);
    assert(rm.drop_first() =~= Seq::<UserIncoming>::empty());
    assert(replayed(s1, rm) == replayed(applied(s1, rm[0]), rm.drop_first()));
    assert(replayed(s1, rm) == removed(s1, id@));
    lemma_removed_unique_absent(s1, id@);
    lemma_no_add_keeps_absent(removed(s1, id@), id@, after);
}

} // verus!
