//! The memory store behind the tool surface, modelled as a tenant-scoped
//! record set: every record belongs to exactly one tenant (the verified
//! subject), identifiers are assigned by the store and never repeat, and
//! every read is filtered by tenant before anything else happens.

use vstd::prelude::*;
use vstd::string::StringExecFns;
use crate::text::{spec_contains, str_contains, str_eq};

verus! {

/// One persisted record: its store-assigned identifier, the tenant that
/// owns it, and its content.
#[derive(Clone, Debug, PartialEq, Eq)]
pub struct Memory {
    pub memory_id: String,
    pub user_id: String,
    pub content: String,
}

/// Anything that exposes a record identifier.
pub trait HasMemoryId {
    /// The identifier the executable getter returns.
    spec fn spec_memory_id(&self) -> Seq<char>;

    fn memory_id(&self) -> (r: String)
        ensures
            r@ == self.spec_memory_id(),
    ;
}

impl HasMemoryId for Memory {
    open spec fn spec_memory_id(&self) -> Seq<char> {
        self.memory_id@
    }

    fn memory_id(&self) -> (r: String)
        ensures
            r@ == self.memory_id@,
    {
        self.memory_id.clone()
    }
}

/// A failure from the store, in the categories the tool surface reports:
/// a record that does not exist (for this tenant), an argument the store
/// rejects, and a backend that cannot be reached.
#[derive(Clone, Copy, Debug, PartialEq, Eq, Structural)]
pub enum UpstreamError {
    NotFound,
    InvalidArgument,
    Unavailable,
}

/// The decimal digit character for `d`.
pub open spec fn spec_digit(d: nat) -> char {
    if d == 0 { '0' }
    else if d == 1 { '1' }
    else if d == 2 { '2' }
    else if d == 3 { '3' }
    else if d == 4 { '4' }
    else if d == 5 { '5' }
    else if d == 6 { '6' }
    else if d == 7 { '7' }
    else if d == 8 { '8' }
    else if d == 9 { '9' }
    else { '?' }
}

/// The decimal rendering of `n`, without leading zeros.
pub open spec fn spec_dec(n: nat) -> Seq<char>
    decreases n,
{
    if n < 10 {
        seq![spec_digit(n)]
    } else {
        spec_dec(n / 10) + seq![spec_digit(n % 10)]
    }
}

proof fn lemma_dec_len(n: nat)
    ensures
        spec_dec(n).len() >= 1,
        n >= 10 ==> spec_dec(n).len() >= 2,
    decreases n,
{
    if n >= 10 {
        lemma_dec_len(n / 10);
    }
}

/// Distinct numbers render to distinct decimal strings: the store's
/// identifier assignment never collides.
proof fn lemma_dec_injective(a: nat, b: nat)
    requires
        a != b,
    ensures
        spec_dec(a) != spec_dec(b),
    decreases a + b,
{
    lemma_dec_len(a);
    lemma_dec_len(b);
    if a < 10 && b < 10 {
        assert(spec_dec(a)[0] != spec_dec(b)[0]);
    } else if a < 10 && b >= 10 {
        assert(spec_dec(a).len() < spec_dec(b).len());
    } else if a >= 10 && b < 10 {
        assert(spec_dec(a).len() > spec_dec(b).len());
    } else {
        assert(a / 10 * 10 + a % 10 == a && a % 10 < 10 && a / 10 < a) by (nonlinear_arith)
            requires a >= 10;
        assert(b / 10 * 10 + b % 10 == b && b % 10 < 10 && b / 10 < b) by (nonlinear_arith)
            requires b >= 10;
        if a % 10 != b % 10 {
            assert(spec_dec(a).last() != spec_dec(b).last());
        } else {
            assert(a / 10 != b / 10);
            lemma_dec_injective(a / 10, b / 10);
            if spec_dec(a) == spec_dec(b) {
                assert(spec_dec(a).drop_last() =~= spec_dec(a / 10));
                assert(spec_dec(b).drop_last() =~= spec_dec(b / 10));
                assert(false);
            }
        }
    }
}

fn push_digit(s: &mut String, d: u64)
    requires
        d < 10,
    ensures
        final(s)@ == old(s)@ + seq![spec_digit(d as nat)],
{
    match d {
        0 => {
            proof { reveal_strlit("0"); }
            s.append("0");
        },
        1 => {
            proof { reveal_strlit("1"); }
            s.append("1");
        },
        2 => {
            proof { reveal_strlit("2"); }
            s.append("2");
        },
        3 => {
            proof { reveal_strlit("3"); }
            s.append("3");
        },
        4 => {
            proof { reveal_strlit("4"); }
            s.append("4");
        },
        5 => {
            proof { reveal_strlit("5"); }
            s.append("5");
        },
        6 => {
            proof { reveal_strlit("6"); }
            s.append("6");
        },
        7 => {
            proof { reveal_strlit("7"); }
            s.append("7");
        },
        8 => {
            proof { reveal_strlit("8"); }
            s.append("8");
        },
        _ => {
            proof { reveal_strlit("9"); }
            s.append("9");
        },
    }
    proof {
        assert(s@ =~= old(s)@ + seq![spec_digit(d as nat)]);
    }
}

fn append_dec(s: &mut String, n: u64)
    ensures
        final(s)@ == old(s)@ + spec_dec(n as nat),
    decreases n,
{
    if n < 10 {
        push_digit(s, n);
    } else {
        proof {
            assert(n / 10 < n && n % 10 < 10) by (nonlinear_arith)
                requires n >= 10;
        }
        append_dec(s, n / 10);
        push_digit(s, n % 10);
        proof {
            assert(s@ =~= old(s)@ + spec_dec(n as nat));
        }
    }
}

/// The decimal rendering of `n` as a string.
fn u64_to_dec(n: u64) -> (r: String)
    ensures
        r@ == spec_dec(n as nat),
{
    let mut s = String::new();
    append_dec(&mut s, n);
    proof {
        assert(s@ =~= spec_dec(n as nat));
    }
    s
}

/// The records of `records` owned by `tenant`, in stored order.
pub open spec fn spec_tenant_records(records: Seq<Memory>, tenant: Seq<char>) -> Seq<Memory>
    decreases records.len(),
{
    if records.len() == 0 {
        Seq::empty()
    } else {
        spec_tenant_records(records.drop_last(), tenant)
            + if records.last().user_id@ == tenant {
                seq![records.last()]
            } else {
                Seq::empty()
            }
    }
}

/// The records of `records` owned by `tenant` whose content contains
/// `query`, in stored order.
pub open spec fn spec_matching_records(records: Seq<Memory>, tenant: Seq<char>, query: Seq<char>) -> Seq<Memory>
    decreases records.len(),
{
    if records.len() == 0 {
        Seq::empty()
    } else {
        spec_matching_records(records.drop_last(), tenant, query)
            + if records.last().user_id@ == tenant && spec_contains(records.last().content@, query) {
                seq![records.last()]
            } else {
                Seq::empty()
            }
    }
}

/// The position of the first record in `records` owned by `tenant` whose
/// identifier is `id`, if any.
pub open spec fn spec_find_record(records: Seq<Memory>, tenant: Seq<char>, id: Seq<char>) -> Option<int>
    decreases records.len(),
{
    if records.len() == 0 {
        None
    } else if records[0].user_id@ == tenant && records[0].memory_id@ == id {
        Some(0)
    } else {
        match spec_find_record(records.skip(1), tenant, id) {
            Some(i) => Some(i + 1),
            None => None,
        }
    }
}

proof fn lemma_find_record_skip(records: Seq<Memory>, tenant: Seq<char>, id: Seq<char>, i: int)
    requires
        0 <= i <= records.len(),
        forall|j: int| 0 <= j < i
            ==> !(records[j].user_id@ == tenant && records[j].memory_id@ == id),
    ensures
        spec_find_record(records, tenant, id) == match spec_find_record(records.skip(i), tenant, id) {
            Some(k) => Some(k + i),
            None => None::<int>,
        },
    decreases i,
{
    if i > 0 {
        lemma_find_record_skip(records, tenant, id, i - 1);
        assert(records.skip(i - 1).skip(1) =~= records.skip(i));
        assert(records.skip(i - 1)[0] == records[i - 1]);
    } else {
        assert(records.skip(0) =~= records);
    }
}

/// A successful identifier lookup points at a record of that tenant with
/// that identifier.
pub proof fn lemma_find_record_sound(records: Seq<Memory>, tenant: Seq<char>, id: Seq<char>, i: int)
    requires
        spec_find_record(records, tenant, id) == Some(i),
    ensures
        0 <= i < records.len(),
        records[i].user_id@ == tenant,
        records[i].memory_id@ == id,
    decreases records.len(),
{
    if records.len() > 0 {
        if !(records[0].user_id@ == tenant && records[0].memory_id@ == id) {
            let k = spec_find_record(records.skip(1), tenant, id)->0;
            lemma_find_record_sound(records.skip(1), tenant, id, k);
            assert(records.skip(1)[k] == records[k + 1]);
        }
    }
}

/// Every record the tenant filter returns belongs to that tenant.
pub proof fn lemma_tenant_records_scoped(records: Seq<Memory>, tenant: Seq<char>)
    ensures
        forall|i: int| 0 <= i < spec_tenant_records(records, tenant).len()
            ==> #[trigger] spec_tenant_records(records, tenant)[i].user_id@ == tenant,
    decreases records.len(),
{
    if records.len() > 0 {
        lemma_tenant_records_scoped(records.drop_last(), tenant);
        let prefix = spec_tenant_records(records.drop_last(), tenant);
        let whole = spec_tenant_records(records, tenant);
        assert forall|i: int| 0 <= i < whole.len() implies #[trigger] whole[i].user_id@ == tenant by {
            if i < prefix.len() {
                assert(whole[i] == prefix[i]);
            } else {
                assert(whole[i] == records.last());
            }
        }
    }
}

/// Every record the search filter returns belongs to that tenant and
/// contains the query.
pub proof fn lemma_matching_records_scoped(records: Seq<Memory>, tenant: Seq<char>, query: Seq<char>)
    ensures
        forall|i: int| 0 <= i < spec_matching_records(records, tenant, query).len()
            ==> #[trigger] spec_matching_records(records, tenant, query)[i].user_id@ == tenant
                && spec_contains(spec_matching_records(records, tenant, query)[i].content@, query),
    decreases records.len(),
{
    if records.len() > 0 {
        lemma_matching_records_scoped(records.drop_last(), tenant, query);
        let prefix = spec_matching_records(records.drop_last(), tenant, query);
        let whole = spec_matching_records(records, tenant, query);
        assert forall|i: int| 0 <= i < whole.len()
            implies #[trigger] whole[i].user_id@ == tenant
                && spec_contains(whole[i].content@, query) by {
            if i < prefix.len() {
                assert(whole[i] == prefix[i]);
            } else {
                assert(whole[i] == records.last());
            }
        }
    }
}

/// A record owned by the tenant is visible in that tenant's view.
pub proof fn lemma_tenant_records_member(records: Seq<Memory>, tenant: Seq<char>, i: int)
    requires
        0 <= i < records.len(),
        records[i].user_id@ == tenant,
    ensures
        spec_tenant_records(records, tenant).contains(records[i]),
    decreases records.len(),
{
    let filtered = spec_tenant_records(records, tenant);
    if i == records.len() - 1 {
        assert(filtered[filtered.len() - 1] == records[i]);
    } else {
        lemma_tenant_records_member(records.drop_last(), tenant, i);
        assert(records.drop_last()[i] == records[i]);
        let prefix = spec_tenant_records(records.drop_last(), tenant);
        let j = choose|j: int| 0 <= j < prefix.len() && prefix[j] == records[i];
        assert(filtered[j] == records[i]);
    }
}

/// Appending a record of another tenant leaves a tenant's view unchanged.
pub proof fn lemma_tenant_records_push_other(records: Seq<Memory>, tenant: Seq<char>, m: Memory)
    requires
        m.user_id@ != tenant,
    ensures
        spec_tenant_records(records.push(m), tenant) == spec_tenant_records(records, tenant),
{
    assert(records.push(m).drop_last() =~= records);
    assert(records.push(m).last() == m);
}

/// Appending a record of another tenant leaves a tenant's search results
/// unchanged as well.
pub proof fn lemma_matching_records_push_other(records: Seq<Memory>, tenant: Seq<char>, query: Seq<char>, m: Memory)
    requires
        m.user_id@ != tenant,
    ensures
        spec_matching_records(records.push(m), tenant, query) == spec_matching_records(records, tenant, query),
{
    assert(records.push(m).drop_last() =~= records);
    assert(records.push(m).last() == m);
}

/// Replacing a record of another tenant (by another record of a tenant
/// other than this one) leaves a tenant's view unchanged.
pub proof fn lemma_tenant_records_update_other(records: Seq<Memory>, tenant: Seq<char>, i: int, m: Memory)
    requires
        0 <= i < records.len(),
        records[i].user_id@ != tenant,
        m.user_id@ != tenant,
    ensures
        spec_tenant_records(records.update(i, m), tenant) == spec_tenant_records(records, tenant),
    decreases records.len(),
{
    let u = records.update(i, m);
    if i == records.len() - 1 {
        assert(u.drop_last() =~= records.drop_last());
        assert(u.last() == m);
        assert(records.last() == records[i]);
    } else {
        assert(u.drop_last() =~= records.drop_last().update(i, m));
        assert(u.last() == records.last());
        lemma_tenant_records_update_other(records.drop_last(), tenant, i, m);
    }
}

/// Replacing a record of another tenant leaves a tenant's search results
/// unchanged as well.
pub proof fn lemma_matching_records_update_other(
    records: Seq<Memory>,
    tenant: Seq<char>,
    query: Seq<char>,
    i: int,
    m: Memory,
)
    requires
        0 <= i < records.len(),
        records[i].user_id@ != tenant,
        m.user_id@ != tenant,
    ensures
        spec_matching_records(records.update(i, m), tenant, query)
            == spec_matching_records(records, tenant, query),
    decreases records.len(),
{
    let u = records.update(i, m);
    if i == records.len() - 1 {
        assert(u.drop_last() =~= records.drop_last());
        assert(u.last() == m);
        assert(records.last() == records[i]);
    } else {
        assert(u.drop_last() =~= records.drop_last().update(i, m));
        assert(u.last() == records.last());
        lemma_matching_records_update_other(records.drop_last(), tenant, query, i, m);
    }
}

/// Law: a successful content update is visible to its tenant — after the
/// record with `id` is replaced by one carrying `content`, the tenant's
/// record set contains a record with that identifier and that content.
pub proof fn lemma_update_visible(
    old_records: Seq<Memory>,
    new_records: Seq<Memory>,
    tenant: Seq<char>,
    id: Seq<char>,
    content: Seq<char>,
)
    requires
        spec_find_record(old_records, tenant, id) is Some,
        new_records.len() == old_records.len(),
        ({
            let i = spec_find_record(old_records, tenant, id)->0;
            &&& (forall|j: int| 0 <= j < old_records.len() && j != i
                ==> #[trigger] new_records[j] == old_records[j])
            &&& new_records[i].memory_id@ == id
            &&& new_records[i].user_id@ == tenant
            &&& new_records[i].content@ == content
        }),
    ensures
        exists|k: int| 0 <= k < spec_tenant_records(new_records, tenant).len()
            && (#[trigger] spec_tenant_records(new_records, tenant)[k]).memory_id@ == id
            && spec_tenant_records(new_records, tenant)[k].content@ == content,
{
    let i = spec_find_record(old_records, tenant, id)->0;
    lemma_find_record_sound(old_records, tenant, id, i);
    lemma_tenant_records_member(new_records, tenant, i);
    let f = spec_tenant_records(new_records, tenant);
    let k = choose|k: int| 0 <= k < f.len() && f[k] == new_records[i];
    assert(f[k].memory_id@ == id && f[k].content@ == content);
}

/// A field-wise copy of a record.
fn clone_memory(m: &Memory) -> (r: Memory)
    ensures
        r == *m,
{
    Memory {
        memory_id: m.memory_id.clone(),
        user_id: m.user_id.clone(),
        content: m.content.clone(),
    }
}

/// The tenant-scoped record store consumed by the tool handlers: records
/// are appended with store-assigned, never-repeating identifiers, and all
/// reads and updates are scoped by tenant.
pub struct MemoryController {
    pub records: Vec<Memory>,
    pub next_id: u64,
    pub id_nums: Ghost<Seq<nat>>,
}

impl MemoryController {
    /// Identifiers are the decimal renderings of a strictly growing
    /// counter: every stored identifier is below the counter and no two
    /// records share one.
    pub open spec fn wf(&self) -> bool {
        &&& self.id_nums@.len() == self.records@.len()
        &&& (forall|i: int| 0 <= i < self.records@.len()
            ==> self.records@[i].memory_id@ == spec_dec(#[trigger] self.id_nums@[i]))
        &&& (forall|i: int| 0 <= i < self.id_nums@.len() ==> #[trigger] self.id_nums@[i] < self.next_id)
        &&& (forall|i: int, j: int| 0 <= i < j < self.id_nums@.len()
            ==> self.id_nums@[i] != self.id_nums@[j])
    }

    /// An empty store.
    pub fn new() -> (r: MemoryController)
        ensures
            r.wf(),
            r.records@ == Seq::<Memory>::empty(),
            r.next_id == 0,
    {
        MemoryController { records: Vec::new(), next_id: 0, id_nums: Ghost(Seq::empty()) }
    }

    /// No two records of a well-formed store share an identifier.
    pub proof fn lemma_ids_unique(&self)
        requires
            self.wf(),
        ensures
            forall|i: int, j: int| 0 <= i < j < self.records@.len()
                ==> self.records@[i].memory_id@ != self.records@[j].memory_id@,
    {
        assert forall|i: int, j: int| 0 <= i < j < self.records@.len()
            implies self.records@[i].memory_id@ != self.records@[j].memory_id@ by {
            lemma_dec_injective(self.id_nums@[i], self.id_nums@[j]);
        }
    }

    /// Persists one record for `user_id`: rejects empty content, otherwise
    /// appends a record carrying exactly the given content and a fresh
    /// identifier, and returns that record.
    pub fn add_memory(&mut self, user_id: String, content: String) -> (r: Result<Memory, UpstreamError>)
        requires
            old(self).wf(),
        ensures
            final(self).wf(),
            content@.len() == 0 ==> r == Err::<Memory, UpstreamError>(UpstreamError::InvalidArgument)
                && *final(self) == *old(self),
            content@.len() > 0 ==> match r {
                Ok(m) => {
                    &&& m.user_id@ == user_id@
                    &&& m.content@ == content@
                    &&& final(self).records@ == old(self).records@.push(m)
                    &&& final(self).next_id == old(self).next_id + 1
                    &&& forall|i: int| 0 <= i < old(self).records@.len()
                        ==> old(self).records@[i].memory_id@ != m.memory_id@
                },
                Err(e) => e == UpstreamError::Unavailable && old(self).next_id == u64::MAX
                    && *final(self) == *old(self),
            },
    {
        if content.as_str().is_empty() {
            return Err(UpstreamError::InvalidArgument);
        }
        if self.next_id == u64::MAX {
            return Err(UpstreamError::Unavailable);
        }
        let id_num = self.next_id;
        let id = u64_to_dec(id_num);
        let stored = Memory { memory_id: id, user_id, content };
        let returned = clone_memory(&stored);
        proof {
            assert forall|i: int| 0 <= i < self.records@.len()
                implies self.records@[i].memory_id@ != stored.memory_id@ by {
                lemma_dec_injective(self.id_nums@[i], id_num as nat);
            }
        }
        self.records.push(stored);
        self.next_id = id_num + 1;
        self.id_nums = Ghost(self.id_nums@.push(id_num as nat));
        Ok(returned)
    }

    /// Persists a batch of records, each under its own tenant: rejects an
    /// empty batch and any empty content without storing anything,
    /// otherwise appends one record per entry, in order.
    pub fn add_memory_bulk(&mut self, memories: Vec<Memory>) -> (r: Result<(), UpstreamError>)
        requires
            old(self).wf(),
        ensures
            final(self).wf(),
            match r {
                Ok(_) => {
                    &&& memories@.len() > 0
                    &&& (forall|k: int| 0 <= k < memories@.len() ==> #[trigger] memories@[k].content@.len() > 0)
                    &&& final(self).records@.len() == old(self).records@.len() + memories@.len()
                    &&& final(self).records@.subrange(0, old(self).records@.len() as int)
                        == old(self).records@
                    &&& (forall|k: int| 0 <= k < memories@.len()
                        ==> (#[trigger] final(self).records@[old(self).records@.len() + k]).user_id@
                                == memories@[k].user_id@
                            && final(self).records@[old(self).records@.len() + k].content@
                                == memories@[k].content@)
                },
                Err(e) => *final(self) == *old(self)
                    && (e == UpstreamError::InvalidArgument
                        ==> memories@.len() == 0
                            || exists|k: int| 0 <= k < memories@.len()
                                && #[trigger] memories@[k].content@.len() == 0)
                    && (e == UpstreamError::Unavailable
                        ==> old(self).next_id + memories@.len() > u64::MAX)
                    && (e == UpstreamError::NotFound ==> false),
            },
    {
        if memories.is_empty() {
            return Err(UpstreamError::InvalidArgument);
        }
        let n = memories.len();
        for k in 0..n
            invariant
                *self == *old(self),
                old(self).wf(),
                n == memories@.len(),
                forall|j: int| 0 <= j < k ==> #[trigger] memories@[j].content@.len() > 0,
        {
            if memories[k].content.as_str().is_empty() {
                return Err(UpstreamError::InvalidArgument);
            }
        }
        if n as u64 > u64::MAX - self.next_id {
            return Err(UpstreamError::Unavailable);
        }
        let ghost orig = *self;
        for k in 0..n
            invariant
                n == memories@.len(),
                self.wf(),
                self.next_id as int + (n - k) <= u64::MAX as int,
                self.records@.len() == orig.records@.len() + k,
                self.records@.subrange(0, orig.records@.len() as int) == orig.records@,
                forall|j: int| 0 <= j < n ==> #[trigger] memories@[j].content@.len() > 0,
                forall|j: int| 0 <= j < k
                    ==> (#[trigger] self.records@[orig.records@.len() + j]).user_id@
                            == memories@[j].user_id@
                        && self.records@[orig.records@.len() + j].content@
                            == memories@[j].content@,
        {
            let ghost before = self.records@;
            let user_id = memories[k].user_id.clone();
            let content = memories[k].content.clone();
            assert(content@.len() > 0);
            let added = self.add_memory(user_id, content);
            proof {
                assert(added is Ok);
                assert(self.records@ == before.push(added->Ok_0));
                assert(self.records@.subrange(0, orig.records@.len() as int)
                    =~= before.subrange(0, orig.records@.len() as int));
                assert(self.records@[orig.records@.len() + k as int] == added->Ok_0);
            }
        }
        Ok(())
    }

    /// All records owned by `user_id`, in stored order.
    pub fn get_memories_by_user_id(&self, user_id: &str) -> (r: Vec<Memory>)
        ensures
            r@ == spec_tenant_records(self.records@, user_id@),
    {
        let mut out: Vec<Memory> = Vec::new();
        let n = self.records.len();
        for i in 0..n
            invariant
                n == self.records@.len(),
                out@ == spec_tenant_records(self.records@.take(i as int), user_id@),
        {
            proof {
                assert(self.records@.take(i + 1).drop_last() =~= self.records@.take(i as int));
                assert(self.records@.take(i + 1).last() == self.records@[i as int]);
            }
            if str_eq(self.records[i].user_id.as_str(), user_id) {
                out.push(clone_memory(&self.records[i]));
            }
        }
        proof {
            assert(self.records@.take(n as int) =~= self.records@);
        }
        out
    }

    /// The records owned by `user_id` whose content contains `query`, in
    /// stored order: the model of relevance-ranked search the tool surface
    /// is specified against.
    pub fn get_memories_by_query(&self, user_id: &str, query: &str) -> (r: Vec<Memory>)
        ensures
            r@ == spec_matching_records(self.records@, user_id@, query@),
    {
        let mut out: Vec<Memory> = Vec::new();
        let n = self.records.len();
        for i in 0..n
            invariant
                n == self.records@.len(),
                out@ == spec_matching_records(self.records@.take(i as int), user_id@, query@),
        {
            proof {
                assert(self.records@.take(i + 1).drop_last() =~= self.records@.take(i as int));
                assert(self.records@.take(i + 1).last() == self.records@[i as int]);
            }
            if str_eq(self.records[i].user_id.as_str(), user_id)
                && str_contains(self.records[i].content.as_str(), query) {
                out.push(clone_memory(&self.records[i]));
            }
        }
        proof {
            assert(self.records@.take(n as int) =~= self.records@);
        }
        out
    }

    /// Replaces the content of the record `memory_id` owned by `user_id`
    /// — full replacement of the content field only. A record that does
    /// not exist for this tenant is `NotFound`; records of other tenants
    /// are never touched.
    pub fn update_memory(&mut self, user_id: &str, memory_id: &str, content: String) -> (r: Result<(), UpstreamError>)
        requires
            old(self).wf(),
        ensures
            final(self).wf(),
            match spec_find_record(old(self).records@, user_id@, memory_id@) {
                Some(i) => {
                    &&& r == Ok::<(), UpstreamError>(())
                    &&& final(self).records@.len() == old(self).records@.len()
                    &&& (forall|j: int| 0 <= j < old(self).records@.len() && j != i
                        ==> #[trigger] final(self).records@[j] == old(self).records@[j])
                    &&& final(self).records@[i].memory_id@ == memory_id@
                    &&& final(self).records@[i].user_id@ == user_id@
                    &&& final(self).records@[i].content@ == content@
                },
                None => r == Err::<(), UpstreamError>(UpstreamError::NotFound)
                    && *final(self) == *old(self),
            },
    {
        let n = self.records.len();
        for i in 0..n
            invariant
                *self == *old(self),
                old(self).wf(),
                n == self.records@.len(),
                forall|j: int| 0 <= j < i
                    ==> !((#[trigger] self.records@[j]).user_id@ == user_id@
                        && self.records@[j].memory_id@ == memory_id@),
        {
            if str_eq(self.records[i].user_id.as_str(), user_id)
                && str_eq(self.records[i].memory_id.as_str(), memory_id) {
                proof {
                    lemma_find_record_skip(self.records@, user_id@, memory_id@, i as int);
                    assert(self.records@.skip(i as int)[0] == self.records@[i as int]);
                    assert(spec_find_record(old(self).records@, user_id@, memory_id@)
                        == Some(i as int));
                }
                let ghost pre = *self;
                let rec = &mut self.records[i];
                rec.content = content;
                proof {
                    assert(self.records@[i as int].memory_id@ == pre.records@[i as int].memory_id@);
                    assert forall|j: int| 0 <= j < self.records@.len()
                        implies self.records@[j].memory_id@ == spec_dec(#[trigger] self.id_nums@[j]) by {
                        if j != i {
                            assert(self.records@[j] == pre.records@[j]);
                        }
                    }
                }
                return Ok(());
            }
        }
        proof {
            lemma_find_record_skip(self.records@, user_id@, memory_id@, n as int);
        }
        Err(UpstreamError::NotFound)
    }

    /// Removes the record `memory_id` owned by `user_id`; `NotFound` when
    /// this tenant has no such record.
    pub fn delete_memory(&mut self, user_id: &str, memory_id: &str) -> (r: Result<(), UpstreamError>)
        requires
            old(self).wf(),
        ensures
            final(self).wf(),
            match spec_find_record(old(self).records@, user_id@, memory_id@) {
                Some(i) => r == Ok::<(), UpstreamError>(())
                    && final(self).records@ == old(self).records@.remove(i),
                None => r == Err::<(), UpstreamError>(UpstreamError::NotFound)
                    && *final(self) == *old(self),
            },
    {
        let n = self.records.len();
        for i in 0..n
            invariant
                *self == *old(self),
                old(self).wf(),
                n == self.records@.len(),
                forall|j: int| 0 <= j < i
                    ==> !((#[trigger] self.records@[j]).user_id@ == user_id@
                        && self.records@[j].memory_id@ == memory_id@),
        {
            if str_eq(self.records[i].user_id.as_str(), user_id)
                && str_eq(self.records[i].memory_id.as_str(), memory_id) {
                proof {
                    lemma_find_record_skip(self.records@, user_id@, memory_id@, i as int);
                    assert(self.records@.skip(i as int)[0] == self.records@[i as int]);
                    assert(spec_find_record(old(self).records@, user_id@, memory_id@)
                        == Some(i as int));
                }
                let ghost pre = *self;
                self.records.remove(i);
                self.id_nums = Ghost(self.id_nums@.remove(i as int));
                proof {
                    pre.records@.remove_ensures(i as int);
                    pre.id_nums@.remove_ensures(i as int);
                    assert(self.records@.len() == pre.records@.len() - 1);
                    assert forall|j: int| 0 <= j < self.records@.len()
                        implies self.records@[j].memory_id@ == spec_dec(#[trigger] self.id_nums@[j])
                            && self.id_nums@[j] < self.next_id by {
                        if j < i {
                            assert(self.records@[j] == pre.records@[j]);
                            assert(self.id_nums@[j] == pre.id_nums@[j]);
                        } else {
                            assert(self.records@[j] == pre.records@[j + 1]);
                            assert(self.id_nums@[j] == pre.id_nums@[j + 1]);
                        }
                    }
                    assert forall|p: int, q: int| 0 <= p < q < self.id_nums@.len()
                        implies self.id_nums@[p] != self.id_nums@[q] by {
                        let p0 = if p < i { p } else { p + 1 };
                        let q0 = if q < i { q } else { q + 1 };
                        assert(self.id_nums@[p] == pre.id_nums@[p0]);
                        assert(self.id_nums@[q] == pre.id_nums@[q0]);
                    }
                }
                return Ok(());
            }
        }
        proof {
            lemma_find_record_skip(self.records@, user_id@, memory_id@, n as int);
        }
        Err(UpstreamError::NotFound)
    }
}

} // verus!
