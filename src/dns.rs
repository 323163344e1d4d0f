//! The table of host-name queries that the network stack resolves through
//! the modem. A name asked for while its query is open joins that query: the
//! modem is asked once, and every caller waiting on the name sees the answer.
use vstd::prelude::*;
use crate::ip::{parse_ip_text, parsed_ip, IpAddress};

verus! {

/// How many names may be looked up at the same time.
pub const DNS_TABLE_SIZE: usize = 4;

/// The longest host name the modem takes.
pub const MAX_HOSTNAME_LEN: usize = 128;

#[derive(Clone, Copy, Debug, PartialEq, Eq, Structural)]
pub enum DnsState {
    /// Not yet sent to the modem.
    New,
    /// Sent; the answer has not come.
    Pending,
    Resolved(IpAddress),
    Error,
}

#[derive(Clone, Copy, Debug, PartialEq, Eq, Structural)]
pub enum DnsError {
    /// The table has no room for another name.
    Full,
    /// The modem could not resolve the name.
    Failed,
    /// The name is empty or too long.
    InvalidName,
}

/// One query: the name, its state, and how many callers wait on it.
pub struct DnsQuery {
    name: Vec<u8>,
    state: DnsState,
    waiters: u8,
}

pub struct DnsTable {
    queries: Vec<DnsQuery>,
}

/// A query as the table's contracts see it.
pub type Entry = (Seq<u8>, DnsState, nat);

/// The position of the query for `name` in `es`, or `es.len()` if none.
pub open spec fn find(es: Seq<Entry>, name: Seq<u8>) -> nat
    decreases es.len(),
{
    if es.len() == 0 {
        0
    } else if es[0].0 == name {
        0
    } else {
        1 + find(es.drop_first(), name)
    }
}

pub open spec fn valid_name(name: Seq<u8>) -> bool {
    0 < name.len() <= MAX_HOSTNAME_LEN
}

/// The table after `name` is asked for.
pub open spec fn submit_spec(es: Seq<Entry>, name: Seq<u8>) -> Seq<Entry> {
    let i = find(es, name);
    if !valid_name(name) {
        es
    } else if i < es.len() {
        if es[i as int].2 < 255 {
            es.update(i as int, (es[i as int].0, es[i as int].1, es[i as int].2 + 1))
        } else {
            es
        }
    } else if es.len() < DNS_TABLE_SIZE {
        es.push((name, DnsState::New, 1))
    } else {
        es
    }
}

/// The outcome of asking for `name`.
pub open spec fn submit_result(es: Seq<Entry>, name: Seq<u8>) -> Result<(), DnsError> {
    let i = find(es, name);
    if !valid_name(name) {
        Err(DnsError::InvalidName)
    } else if i < es.len() {
        if es[i as int].2 < 255 {
            Ok(())
        } else {
            Err(DnsError::Full)
        }
    } else if es.len() < DNS_TABLE_SIZE {
        Ok(())
    } else {
        Err(DnsError::Full)
    }
}

/// The table after one caller of `name` stops waiting: the query loses a
/// caller, and leaves the table with its last one.
pub open spec fn release_spec(es: Seq<Entry>, name: Seq<u8>) -> Seq<Entry> {
    let i = find(es, name);
    if i >= es.len() {
        es
    } else if es[i as int].2 > 1 {
        es.update(i as int, (es[i as int].0, es[i as int].1, (es[i as int].2 - 1) as nat))
    } else {
        es.remove(i as int)
    }
}

/// The position of the first query not yet sent, or `es.len()`.
pub open spec fn first_new(es: Seq<Entry>) -> nat
    decreases es.len(),
{
    if es.len() == 0 {
        0
    } else if es[0].1 == DnsState::New {
        0
    } else {
        1 + first_new(es.drop_first())
    }
}

/// The table after the first query not yet sent is handed to the modem.
pub open spec fn take_new_spec(es: Seq<Entry>) -> Seq<Entry> {
    let i = first_new(es);
    if i < es.len() {
        es.update(i as int, (es[i as int].0, DnsState::Pending, es[i as int].2))
    } else {
        es
    }
}

/// The state a query moves to when the modem's answer reads as `answer`.
pub open spec fn answered(answer: Option<IpAddress>) -> DnsState {
    match answer {
        Some(ip) => DnsState::Resolved(ip),
        None => DnsState::Error,
    }
}

/// The table after the answer for `name` arrives: only a pending query takes it.
pub open spec fn resolve_spec(es: Seq<Entry>, name: Seq<u8>, s: DnsState) -> Seq<Entry> {
    let i = find(es, name);
    if i < es.len() && es[i as int].1 == DnsState::Pending {
        es.update(i as int, (es[i as int].0, s, es[i as int].2))
    } else {
        es
    }
}

proof fn lemma_find_bounds(es: Seq<Entry>, name: Seq<u8>)
    ensures
        find(es, name) <= es.len(),
        find(es, name) < es.len() ==> es[find(es, name) as int].0 == name,
        forall|j: int| 0 <= j < find(es, name) ==> es[j].0 != name,
    decreases es.len(),
{
    if es.len() > 0 && es[0].0 != name {
        lemma_find_bounds(es.drop_first(), name);
        assert forall|j: int| 0 <= j < find(es, name) implies es[j].0 != name by {
            if j > 0 {
                assert(es[j] == es.drop_first()[j - 1]);
            }
        }
    }
}

proof fn lemma_first_new_bounds(es: Seq<Entry>)
    ensures
        first_new(es) <= es.len(),
        first_new(es) < es.len() ==> es[first_new(es) as int].1 == DnsState::New,
        forall|j: int| 0 <= j < first_new(es) ==> es[j].1 != DnsState::New,
    decreases es.len(),
{
    if es.len() > 0 && es[0].1 != DnsState::New {
        lemma_first_new_bounds(es.drop_first());
        assert forall|j: int| 0 <= j < first_new(es) implies es[j].1 != DnsState::New by {
            if j > 0 {
                assert(es[j] == es.drop_first()[j - 1]);
            }
        }
    }
}

proof fn lemma_find_at(es: Seq<Entry>, name: Seq<u8>, i: int)
    requires
        0 <= i <= es.len(),
        forall|j: int| 0 <= j < i ==> es[j].0 != name,
        i == es.len() || es[i].0 == name,
    ensures
        find(es, name) == i,
    decreases es.len(),
{
    if es.len() > 0 && i > 0 {
        assert forall|j: int| 0 <= j < i - 1 implies es.drop_first()[j].0 != name by {
            assert(es.drop_first()[j] == es[j + 1]);
        }
        lemma_find_at(es.drop_first(), name, i - 1);
    }
}

proof fn lemma_first_new_at(es: Seq<Entry>, i: int)
    requires
        0 <= i <= es.len(),
        forall|j: int| 0 <= j < i ==> es[j].1 != DnsState::New,
        i == es.len() || es[i].1 == DnsState::New,
    ensures
        first_new(es) == i,
    decreases es.len(),
{
    if es.len() > 0 && i > 0 {
        assert forall|j: int| 0 <= j < i - 1 implies es.drop_first()[j].1 != DnsState::New by {
            assert(es.drop_first()[j] == es[j + 1]);
        }
        lemma_first_new_at(es.drop_first(), i - 1);
    }
}

/// The bytes of `v`, copied.
fn copy_bytes(v: &[u8]) -> (r: Vec<u8>)
    ensures
        r@ == v@,
{
    let mut r: Vec<u8> = Vec::new();
    let mut i: usize = 0;
    while i < v.len()
        invariant
            i <= v@.len(),
            r@ == v@.subrange(0, i as int),
        decreases v@.len() - i,
    {
        r.push(v[i]);
        proof {
            assert(r@ =~= v@.subrange(0, i + 1));
        }
        i = i + 1;
    }
    proof {
        assert(r@ =~= v@);
    }
    r
}

fn bytes_equal(a: &[u8], b: &[u8]) -> (r: bool)
    ensures
        r == (a@ == b@),
{
    if a.len() != b.len() {
        return false;
    }
    let mut i: usize = 0;
    while i < a.len()
        invariant
            a@.len() == b@.len(),
            i <= a@.len(),
            forall|j: int| 0 <= j < i ==> a@[j] == b@[j],
        decreases a@.len() - i,
    {
        if a[i] != b[i] {
            return false;
        }
        i = i + 1;
    }
    proof {
        assert(a@ =~= b@);
    }
    true
}

impl DnsQuery {
    pub closed spec fn entry(&self) -> Entry {
        (self.name@, self.state, self.waiters as nat)
    }
}

impl DnsTable {
    pub closed spec fn entries(&self) -> Seq<Entry> {
        self.queries@.map_values(|q: DnsQuery| q.entry())
    }

    /// At most `DNS_TABLE_SIZE` queries, one per name, each with a caller.
    pub open spec fn wf(&self) -> bool {
        &&& self.entries().len() <= DNS_TABLE_SIZE
        &&& forall|i: int, j: int|
            0 <= i < j < self.entries().len() ==> #[trigger] self.entries()[i].0
                != #[trigger] self.entries()[j].0
        &&& forall|i: int| 0 <= i < self.entries().len() ==> #[trigger] self.entries()[i].2 >= 1
    }

    pub fn new() -> (r: DnsTable)
        ensures
            r.wf(),
            r.entries() == Seq::<Entry>::empty(),
    {
        let r = DnsTable { queries: Vec::new() };
        proof {
            assert(r.entries() =~= Seq::<Entry>::empty());
        }
        r
    }

    /// Where the query for `name` stands in the table.
    fn position(&self, name: &[u8]) -> (r: usize)
        ensures
            r == find(self.entries(), name@),
    {
        let mut i: usize = 0;
        while i < self.queries.len()
            invariant
                i <= self.queries@.len(),
                forall|j: int| 0 <= j < i ==> self.entries()[j].0 != name@,
            decreases self.queries@.len() - i,
        {
            if bytes_equal(self.queries[i].name.as_slice(), name) {
                proof {
                    lemma_find_at(self.entries(), name@, i as int);
                }
                return i;
            }
            i = i + 1;
        }
        proof {
            lemma_find_at(self.entries(), name@, i as int);
        }
        i
    }

    /// Asks for `name`. A name already in the table gets one more caller and
    /// no new query; a new name gets a query not yet sent, where there is room.
    pub fn submit(&mut self, name: &[u8]) -> (r: Result<(), DnsError>)
        requires
            old(self).wf(),
        ensures
            final(self).wf(),
            final(self).entries() == submit_spec(old(self).entries(), name@),
            r == submit_result(old(self).entries(), name@),
    {
        proof {
            lemma_find_bounds(self.entries(), name@);
        }
        if name.len() == 0 || name.len() > MAX_HOSTNAME_LEN {
            return Err(DnsError::InvalidName);
        }
        let i = self.position(name);
        if i < self.queries.len() {
            if self.queries[i].waiters < 255 {
                let ghost es = self.entries();
                let w = self.queries[i].waiters;
                let mut q = self.queries.remove(i);
                q.waiters = w + 1;
                self.queries.insert(i, q);
                proof {
                    assert(self.entries() =~= es.update(
                        i as int,
                        (es[i as int].0, es[i as int].1, es[i as int].2 + 1),
                    ));
                }
                Ok(())
            } else {
                Err(DnsError::Full)
            }
        } else if self.queries.len() < DNS_TABLE_SIZE {
            let ghost es = self.entries();
            let q = DnsQuery { name: copy_bytes(name), state: DnsState::New, waiters: 1 };
            self.queries.push(q);
            proof {
                assert(self.entries() =~= es.push((name@, DnsState::New, 1)));
            }
            Ok(())
        } else {
            Err(DnsError::Full)
        }
    }

    /// The state of the query for `name`, if there is one.
    pub fn state_of(&self, name: &[u8]) -> (r: Option<DnsState>)
        ensures
            find(self.entries(), name@) < self.entries().len() ==> r == Some(
                self.entries()[find(self.entries(), name@) as int].1,
            ),
            find(self.entries(), name@) >= self.entries().len() ==> r == None::<DnsState>,
    {
        let i = self.position(name);
        if i < self.queries.len() {
            Some(self.queries[i].state)
        } else {
            None
        }
    }

    /// One caller of `name` stops waiting; the query leaves the table with
    /// its last caller.
    pub fn release(&mut self, name: &[u8])
        requires
            old(self).wf(),
        ensures
            final(self).wf(),
            final(self).entries() == release_spec(old(self).entries(), name@),
    {
        proof {
            lemma_find_bounds(self.entries(), name@);
        }
        let i = self.position(name);
        if i < self.queries.len() {
            let ghost es = self.entries();
            let mut q = self.queries.remove(i);
            if q.waiters > 1 {
                q.waiters = q.waiters - 1;
                self.queries.insert(i, q);
                proof {
                    assert(self.entries() =~= es.update(
                        i as int,
                        (es[i as int].0, es[i as int].1, (es[i as int].2 - 1) as nat),
                    ));
                }
            } else {
                proof {
                    assert(self.entries() =~= es.remove(i as int));
                }
            }
        }
    }

    /// Hands the first query not yet sent to the modem: marks it pending and
    /// gives its name.
    pub fn take_new(&mut self) -> (r: Option<Vec<u8>>)
        requires
            old(self).wf(),
        ensures
            final(self).wf(),
            final(self).entries() == take_new_spec(old(self).entries()),
            first_new(old(self).entries()) < old(self).entries().len() ==> (r matches Some(n)
                && n@ == old(self).entries()[first_new(old(self).entries()) as int].0),
            first_new(old(self).entries()) >= old(self).entries().len() ==> r is None,
    {
        let mut i: usize = 0;
        while i < self.queries.len()
            invariant
                i <= self.queries@.len(),
                self.wf(),
                self.entries() == old(self).entries(),
                forall|j: int| 0 <= j < i ==> self.entries()[j].1 != DnsState::New,
            decreases self.queries@.len() - i,
        {
            if self.queries[i].state == DnsState::New {
                proof {
                    lemma_first_new_at(self.entries(), i as int);
                }
                let ghost es = self.entries();
                let mut q = self.queries.remove(i);
                q.state = DnsState::Pending;
                let name = copy_bytes(q.name.as_slice());
                self.queries.insert(i, q);
                proof {
                    assert(self.entries() =~= es.update(
                        i as int,
                        (es[i as int].0, DnsState::Pending, es[i as int].2),
                    ));
                }
                return Some(name);
            }
            i = i + 1;
        }
        proof {
            lemma_first_new_at(self.entries(), i as int);
        }
        None
    }

    /// Records the answer for `name`, as read: an address resolves the
    /// query, no address fails it. Only a pending query takes an answer.
    pub fn resolve_with(&mut self, name: &[u8], answer: Option<IpAddress>)
        requires
            old(self).wf(),
        ensures
            final(self).wf(),
            final(self).entries() == resolve_spec(old(self).entries(), name@, answered(answer)),
    {
        proof {
            lemma_find_bounds(self.entries(), name@);
        }
        let i = self.position(name);
        if i < self.queries.len() && self.queries[i].state == DnsState::Pending {
            let ghost es = self.entries();
            let mut q = self.queries.remove(i);
            q.state = match answer {
                Some(ip) => DnsState::Resolved(ip),
                None => DnsState::Error,
            };
            self.queries.insert(i, q);
            proof {
                assert(self.entries() =~= es.update(
                    i as int,
                    (es[i as int].0, answered(answer), es[i as int].2),
                ));
            }
        }
    }

    /// Records the modem's answer text for `name`.
    pub fn resolve_text(&mut self, name: &[u8], text: &[u8])
        requires
            old(self).wf(),
        ensures
            final(self).wf(),
            final(self).entries() == resolve_spec(
                old(self).entries(),
                name@,
                answered(parsed_ip(text@)),
            ),
    {
        let answer = parse_ip_text(text);
        self.resolve_with(name, answer);
    }

    /// Records that the modem could not be asked about `name`.
    pub fn fail(&mut self, name: &[u8])
        requires
            old(self).wf(),
        ensures
            final(self).wf(),
            final(self).entries() == resolve_spec(old(self).entries(), name@, DnsState::Error),
    {
        self.resolve_with(name, None);
    }
}

/// Asking twice for a name that is not in the table, while there is room,
/// makes one query with two callers; handing queries to the modem then sends
/// it once, and when the answer comes both callers find it in that one query.
pub proof fn lemma_dns_idempotent(es: Seq<Entry>, name: Seq<u8>, answer: DnsState)
    requires
        es.len() < DNS_TABLE_SIZE,
        valid_name(name),
        find(es, name) == es.len(),
        first_new(es) == es.len(),
    ensures
        submit_spec(submit_spec(es, name), name) == es.push((name, DnsState::New, 2)),
        take_new_spec(submit_spec(submit_spec(es, name), name)) == es.push(
            (name, DnsState::Pending, 2),
        ),
        first_new(take_new_spec(submit_spec(submit_spec(es, name), name))) == es.len() + 1,
        resolve_spec(
            take_new_spec(submit_spec(submit_spec(es, name), name)),
            name,
            answer,
        ) == es.push((name, answer, 2)),
{
    lemma_find_bounds(es, name);
    lemma_first_new_bounds(es);
    let e1 = es.push((name, DnsState::New, 1));
    assert(submit_spec(es, name) == e1);
    lemma_find_at(e1, name, es.len() as int);
    let e2 = e1.update(es.len() as int, (name, DnsState::New, 2));
    assert(e2 =~= es.push((name, DnsState::New, 2)));
    lemma_first_new_at(e2, es.len() as int);
    let e3 = e2.update(es.len() as int, (name, DnsState::Pending, 2));
    assert(e3 =~= es.push((name, DnsState::Pending, 2)));
    lemma_first_new_at(e3, e3.len() as int);
    lemma_find_at(e3, name, es.len() as int);
    assert(e3.update(es.len() as int, (name, answer, 2)) =~= es.push((name, answer, 2)));
}

} // verus!
