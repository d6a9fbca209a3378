//! The jail database: the index of jails, their configurations and the
//! rows that list them.
use vstd::prelude::*;

use crate::jails::{JailOSEntry, OsJails};
use crate::text::{decimal, decimal_string};

verus! {

/// A network interface of a jail.
#[derive(Debug, Clone)]
pub struct Nic {
    /// Name of the interface inside the jail (`net0`).
    pub interface: String,
    /// Address given to the interface.
    pub ip: String,
    /// Netmask of the address.
    pub netmask: String,
    /// Default route of the jail, empty for none.
    pub gateway: String,
}

/// Jail configuration values
#[derive(Debug, Clone)]
pub struct JailConfig {
    /// UUID of the jail
    pub uuid: String,
    /// UUID of the image
    pub image_uuid: String,
    /// Human readable name
    pub alias: String,
    /// Host name inside the jail
    pub hostname: String,
    /// Memory cap in MB
    pub max_physical_memory: u64,
    /// CPU cap in percent of one CPU
    pub cpu_cap: u64,
    /// Disk quota in GB
    pub quota: u64,
    /// Start the jail with the host
    pub autostart: bool,
    /// Network interfaces, in order
    pub nics: Vec<Nic>,
    /// Name of the brand that boots the jail
    pub brand: String,
}

/// What an index entry holds.
pub struct IdxEntryView {
    pub version: u32,
    pub uuid: Seq<char>,
    pub root: Seq<char>,
    pub state: Seq<char>,
    pub jail_type: Seq<char>,
}

/// `JailDB` index entry
#[derive(Debug, Clone)]
pub struct IdxEntry {
    /// Schema version
    pub version: u32,
    /// UUID of the jail
    pub uuid: String,
    /// ZFS dataset root
    pub root: String,
    /// Lifecycle state as last recorded
    pub state: String,
    /// Kind of jail
    pub jail_type: String,
}

impl View for IdxEntry {
    type V = IdxEntryView;

    open spec fn view(&self) -> IdxEntryView {
        IdxEntryView {
            version: self.version,
            uuid: self.uuid@,
            root: self.root@,
            state: self.state@,
            jail_type: self.jail_type@,
        }
    }
}

/// The stored index: a version and the entries.
#[derive(Debug, Clone)]
pub struct Index {
    /// Schema version
    pub version: u32,
    /// One entry per jail
    pub entries: Vec<IdxEntry>,
}

impl Index {
    /// An empty index of version 0.
    pub fn new() -> (r: Index)
        ensures
            r.version == 0,
            r.entries@.len() == 0,
    {
        Index { version: 0, entries: Vec::new() }
    }
}

/// Settings of the host that the database needs.
#[derive(Debug, Clone)]
pub struct Settings {
    /// Directory of the index and of the configurations
    pub conf_dir: String,
    /// Storage pool that holds the jail roots
    pub pool: String,
    /// devfs ruleset of the jails
    pub devfs_ruleset: u64,
}

/// Why a database operation failed.
#[derive(Debug, Clone)]
pub enum DbError {
    /// No jail with this uuid.
    NotFound(String),
    /// A jail with this uuid exists already.
    Conflict(String),
    /// The index names this uuid twice.
    Duplicate(String),
}

pub open spec fn entries_view(es: Seq<IdxEntry>) -> Seq<IdxEntryView> {
    es.map_values(|e: IdxEntry| e@)
}

/// No two entries share a uuid.
pub open spec fn entries_unique(es: Seq<IdxEntryView>) -> bool {
    forall|i: int, j: int| 0 <= i < j < es.len() ==> es[i].uuid != es[j].uuid
}

/// Position of the first entry for `u`, or `es.len()` when there is none.
pub open spec fn first_index(es: Seq<IdxEntryView>, u: Seq<char>, from: int) -> int
    decreases es.len() - from,
{
    if from < 0 || from >= es.len() {
        es.len() as int
    } else if es[from].uuid == u {
        from
    } else {
        first_index(es, u, from + 1)
    }
}

/// The entry for `u`, if any.
pub open spec fn lookup_entry(es: Seq<IdxEntryView>, u: Seq<char>) -> Option<IdxEntryView> {
    let i = first_index(es, u, 0);
    if 0 <= i < es.len() {
        Some(es[i])
    } else {
        None
    }
}

/// How many entries are for `u`.
pub open spec fn count_uuid(es: Seq<IdxEntryView>, u: Seq<char>) -> nat
    decreases es.len(),
{
    if es.len() == 0 {
        0
    } else {
        count_uuid(es.drop_last(), u) + if es.last().uuid == u {
            1nat
        } else {
            0nat
        }
    }
}

/// The entry that registers jail `u` in pool `pool`.
pub open spec fn new_entry(pool: Seq<char>, u: Seq<char>) -> IdxEntryView {
    IdxEntryView {
        version: 0,
        uuid: u,
        root: pool + seq!['/'] + u,
        state: "installing"@,
        jail_type: "base"@,
    }
}

/// The entries after inserting jail `u`, or `None` when it is there already.
pub open spec fn insert_spec(es: Seq<IdxEntryView>, pool: Seq<char>, u: Seq<char>) -> Option<
    Seq<IdxEntryView>,
> {
    if lookup_entry(es, u) is Some {
        None
    } else {
        Some(es.push(new_entry(pool, u)))
    }
}

/// The entries after removing jail `u`, or `None` when it is not there.
pub open spec fn remove_spec(es: Seq<IdxEntryView>, u: Seq<char>) -> Option<Seq<IdxEntryView>> {
    if lookup_entry(es, u) is Some {
        Some(es.remove(first_index(es, u, 0)))
    } else {
        None
    }
}

pub proof fn lemma_first_index_bounds(es: Seq<IdxEntryView>, u: Seq<char>, from: int)
    requires
        0 <= from <= es.len(),
    ensures
        from <= first_index(es, u, from) <= es.len(),
        first_index(es, u, from) < es.len() ==> es[first_index(es, u, from)].uuid == u,
        forall|j: int| from <= j < first_index(es, u, from) ==> es[j].uuid != u,
    decreases es.len() - from,
{
    if from < es.len() && es[from].uuid != u {
        lemma_first_index_bounds(es, u, from + 1);
    }
}

/// Looking `u` up after one more entry at the end.
pub proof fn lemma_lookup_push(es: Seq<IdxEntryView>, e: IdxEntryView, u: Seq<char>)
    ensures
        lookup_entry(es.push(e), u) == if lookup_entry(es, u) is Some {
            lookup_entry(es, u)
        } else if e.uuid == u {
            Some(e)
        } else {
            None::<IdxEntryView>
        },
{
    let t = es.push(e);
    lemma_first_index_bounds(es, u, 0);
    lemma_first_index_bounds(t, u, 0);
    let i = first_index(es, u, 0);
    let k = first_index(t, u, 0);
    if i < es.len() {
        assert(t[i] == es[i]);
        if k < i {
            assert(t[k] == es[k]);
        }
        assert(k == i);
        assert(lookup_entry(t, u) == Some(es[i]));
    } else {
        if k < es.len() {
            assert(t[k] == es[k]);
        }
        assert(k >= es.len());
        if e.uuid == u {
            assert(t[es.len() as int] == e);
            assert(k == es.len());
            assert(lookup_entry(t, u) == Some(e));
        } else {
            assert(k == t.len());
        }
    }
}

/// With no entry for `u`, none counts.
pub proof fn lemma_count_absent(es: Seq<IdxEntryView>, u: Seq<char>)
    requires
        forall|j: int| 0 <= j < es.len() ==> es[j].uuid != u,
    ensures
        count_uuid(es, u) == 0,
    decreases es.len(),
{
    if es.len() > 0 {
        lemma_count_absent(es.drop_last(), u);
    }
}

/// After jail `u` is inserted, looking `u` up finds its new entry: rooted
/// at `<pool>/<u>` and in state `installing`.
pub proof fn law_insert_then_get(es: Seq<IdxEntryView>, pool: Seq<char>, u: Seq<char>)
    requires
        insert_spec(es, pool, u) is Some,
    ensures
        lookup_entry(insert_spec(es, pool, u)->0, u) == Some(new_entry(pool, u)),
        lookup_entry(insert_spec(es, pool, u)->0, u)->0.root == pool + seq!['/'] + u,
        lookup_entry(insert_spec(es, pool, u)->0, u)->0.state == "installing"@,
{
    lemma_lookup_push(es, new_entry(pool, u), u);
}

/// Inserting jail `u` a second time is refused, and the entries then hold
/// exactly one entry for `u`.
pub proof fn law_insert_twice(es: Seq<IdxEntryView>, pool: Seq<char>, u: Seq<char>)
    requires
        insert_spec(es, pool, u) is Some,
    ensures
        insert_spec(insert_spec(es, pool, u)->0, pool, u) is None,
        count_uuid(insert_spec(es, pool, u)->0, u) == 1,
{
    let e = new_entry(pool, u);
    let t = es.push(e);
    lemma_lookup_push(es, e, u);
    lemma_first_index_bounds(es, u, 0);
    lemma_count_absent(es, u);
    assert(t.drop_last() =~= es);
}

/// Once jail `u` is removed, looking `u` up finds nothing.
pub proof fn law_remove_then_get(es: Seq<IdxEntryView>, u: Seq<char>)
    requires
        entries_unique(es),
        remove_spec(es, u) is Some,
    ensures
        lookup_entry(remove_spec(es, u)->0, u) is None,
{
    lemma_first_index_bounds(es, u, 0);
    let k = first_index(es, u, 0);
    let t = es.remove(k);
    assert forall|j: int| 0 <= j < t.len() implies t[j].uuid != u by {
        if j < k {
            assert(t[j] == es[j]);
        } else {
            assert(t[j] == es[j + 1]);
        }
    }
    lemma_first_index_bounds(t, u, 0);
}

/// The entry that registers jail `uuid` in pool `pool`.
fn make_entry(pool: &str, uuid: &str) -> (r: IdxEntry)
    ensures
        r@ == new_entry(pool@, uuid@),
{
    proof {
        reveal_strlit("/");
        reveal_strlit("installing");
        reveal_strlit("base");
    }
    let mut root = pool.to_owned();
    root.append("/");
    root.append(uuid);
    assert(root@ =~= pool@ + seq!['/'] + uuid@);
    IdxEntry {
        version: 0,
        uuid: uuid.to_owned(),
        root,
        state: String::from_str("installing"),
        jail_type: String::from_str("base"),
    }
}

/// A jail as the database knows it: its index entry and what the OS
/// reports of it.
pub struct Jail<'a> {
    /// Index reference
    pub idx: &'a IdxEntry,
    /// Configuration, where it was read
    pub config: Option<&'a JailConfig>,
    /// Record from the OS
    pub os: Option<&'a JailOSEntry>,
}

/// `JailDB` main struct
#[derive(Debug)]
pub struct JDB {
    settings: Settings,
    index: Index,
    jails: OsJails,
}

impl JDB {
    /// The entries of the index, in order.
    pub closed spec fn entries(&self) -> Seq<IdxEntryView> {
        entries_view(self.index.entries@)
    }

    /// The pool that holds the jail roots.
    pub closed spec fn pool(&self) -> Seq<char> {
        self.settings.pool@
    }

    /// The running jails.
    pub closed spec fn os_jails(&self) -> Map<Seq<char>, u64> {
        self.jails@
    }

    pub open spec fn wf(&self) -> bool {
        entries_unique(self.entries())
    }

    /// Opens a database over a loaded index and a snapshot of the running
    /// jails. An index that names a uuid twice is refused.
    pub fn open(settings: Settings, index: Index, jails: OsJails) -> (r: Result<JDB, DbError>)
        ensures
            r is Ok <==> entries_unique(entries_view(index.entries@)),
            r is Ok ==> r->Ok_0.wf() && r->Ok_0.entries() == entries_view(index.entries@)
                && r->Ok_0.pool() == settings.pool@ && r->Ok_0.os_jails() == jails@,
    {
        let n = index.entries.len();
        let ghost es = entries_view(index.entries@);
        let mut j: usize = 0;
        while j < n
            invariant
                n == index.entries@.len(),
                es == entries_view(index.entries@),
                j <= n,
                forall|a: int, b: int| 0 <= a < b < j ==> es[a].uuid != es[b].uuid,
            decreases n - j,
        {
            let mut i: usize = 0;
            while i < j
                invariant
                    n == index.entries@.len(),
                    es == entries_view(index.entries@),
                    i <= j < n,
                    forall|a: int| 0 <= a < i ==> es[a].uuid != es[j as int].uuid,
                decreases j - i,
            {
                if index.entries[i].uuid.eq(&index.entries[j].uuid) {
                    assert(es[i as int].uuid == es[j as int].uuid);
                    return Err(DbError::Duplicate(index.entries[j].uuid.clone()));
                }
                i += 1;
            }
            j += 1;
        }
        Ok(JDB { settings, index, jails })
    }

    /// The settings the database was opened with.
    pub fn settings(&self) -> (r: &Settings)
        ensures
            r.pool@ == self.pool(),
    {
        &self.settings
    }

    /// The index entries, in order.
    pub fn index(&self) -> (r: &Index)
        ensures
            entries_view(r.entries@) == self.entries(),
    {
        &self.index
    }

    /// The running jails.
    pub fn os_jails_list(&self) -> (r: &OsJails)
        ensures
            r@ == self.os_jails(),
    {
        &self.jails
    }

    /// Finds the position of the entry for `uuid`.
    pub fn find(&self, uuid: &str) -> (r: Option<usize>)
        ensures
            lookup_entry(self.entries(), uuid@) is Some <==> r is Some,
            r is Some ==> r->0 == first_index(self.entries(), uuid@, 0),
            r is Some ==> r->0 < self.entries().len(),
    {
        let key = uuid.to_owned();
        let ghost es = self.entries();
        let n = self.index.entries.len();
        let mut i: usize = 0;
        while i < n
            invariant
                n == es.len(),
                es == self.entries(),
                key@ == uuid@,
                i <= n,
                first_index(es, uuid@, 0) == first_index(es, uuid@, i as int),
            decreases n - i,
        {
            if self.index.entries[i].uuid.eq(&key) {
                return Some(i);
            }
            i += 1;
        }
        None
    }

    /// Inserts a jail: adds its entry, rooted in the pool, in state
    /// `installing`. A uuid that is there already is a conflict, and the
    /// database stays as it was.
    pub fn insert(&mut self, config: &JailConfig) -> (r: Result<IdxEntry, DbError>)
        requires
            old(self).wf(),
        ensures
            final(self).wf(),
            final(self).pool() == old(self).pool(),
            final(self).os_jails() == old(self).os_jails(),
            match insert_spec(old(self).entries(), old(self).pool(), config.uuid@) {
                None => r is Err && r->Err_0 is Conflict && r->Err_0->Conflict_0@ == config.uuid@
                    && final(self).entries() == old(self).entries(),
                Some(es) => r is Ok && r->Ok_0@ == new_entry(old(self).pool(), config.uuid@)
                    && final(self).entries() == es,
            },
    {
        match self.find(config.uuid.as_str()) {
            Some(_) => Err(DbError::Conflict(config.uuid.clone())),
            None => {
                proof {
                    lemma_first_index_bounds(self.entries(), config.uuid@, 0);
                }
                let e = make_entry(self.settings.pool.as_str(), config.uuid.as_str());
                let ghost es = self.entries();
                self.index.entries.push(e);
                assert(self.entries() =~= es.push(new_entry(self.pool(), config.uuid@)));
                Ok(make_entry(self.settings.pool.as_str(), config.uuid.as_str()))
            },
        }
    }

    /// Removes the entry of `uuid` and returns its position. An unknown
    /// uuid is not found, and the database stays as it was.
    pub fn remove(&mut self, uuid: &str) -> (r: Result<usize, DbError>)
        requires
            old(self).wf(),
        ensures
            final(self).wf(),
            final(self).pool() == old(self).pool(),
            final(self).os_jails() == old(self).os_jails(),
            match remove_spec(old(self).entries(), uuid@) {
                None => r is Err && r->Err_0 is NotFound && r->Err_0->NotFound_0@ == uuid@
                    && final(self).entries() == old(self).entries(),
                Some(es) => r is Ok && r->Ok_0 == first_index(old(self).entries(), uuid@, 0)
                    && final(self).entries() == es,
            },
    {
        match self.find(uuid) {
            None => Err(DbError::NotFound(uuid.to_owned())),
            Some(i) => {
                let ghost es = self.entries();
                self.index.entries.remove(i);
                assert(self.entries() =~= es.remove(i as int));
                assert forall|a: int, b: int|
                    0 <= a < b < self.entries().len() implies self.entries()[a].uuid
                        != self.entries()[b].uuid by {
                    let a2 = if a < i { a } else { a + 1 };
                    let b2 = if b < i { b } else { b + 1 };
                    assert(self.entries()[a] == es[a2]);
                    assert(self.entries()[b] == es[b2]);
                }
                Ok(i)
            },
        }
    }

    /// The jail with `uuid`: its entry, and the OS record where it runs.
    pub fn get(&self, uuid: &str) -> (r: Option<Jail<'_>>)
        ensures
            r is Some <==> lookup_entry(self.entries(), uuid@) is Some,
            r is Some ==> r->0.idx@ == lookup_entry(self.entries(), uuid@)->0
                && r->0.config is None
                && (r->0.os is Some <==> self.os_jails().contains_key(uuid@))
                && (r->0.os is Some ==> r->0.os->0.id == self.os_jails()[uuid@]),
    {
        match self.find(uuid) {
            None => None,
            Some(i) => {
                proof { lemma_first_index_bounds(self.entries(), uuid@, 0); }
                Some(Jail { idx: &self.index.entries[i], os: self.jails.get(uuid), config: None })
            },
        }
    }

    /// The state to show and the OS id of the jail `uuid`: a running jail
    /// shows `running` and its id; any other shows its recorded state and
    /// id 0.
    pub fn live_state(&self, uuid: &str, recorded: &str) -> (r: (String, u64))
        ensures
            r.0@ == (if self.os_jails().contains_key(uuid@) && self.os_jails()[uuid@] != 0 {
                "running"@
            } else {
                recorded@
            }),
            r.1 == (if self.os_jails().contains_key(uuid@) {
                self.os_jails()[uuid@]
            } else {
                0
            }),
    {
        let id = match self.jails.get(uuid) {
            Some(j) => j.id,
            None => 0,
        };
        if id == 0 {
            (recorded.to_owned(), id)
        } else {
            (String::from_str("running"), id)
        }
    }

    /// The listing of the database: a header and one row per entry, with
    /// the configuration that `configs` holds at the same position.
    pub fn print(&self, configs: &Vec<JailConfig>) -> (r: Vec<String>)
        requires
            configs@.len() == self.entries().len(),
        ensures
            r@.len() == configs@.len() + 1,
            r@[0]@ == header_row(),
            forall|i: int|
                0 <= i < configs@.len() ==> #[trigger] r@[i + 1]@ == {
                    let c = configs@[i];
                    let e = self.entries()[i];
                    let running = self.os_jails().contains_key(c.uuid@) && self.os_jails()[c.uuid@]
                        != 0;
                    let id = if self.os_jails().contains_key(c.uuid@) {
                        self.os_jails()[c.uuid@]
                    } else {
                        0
                    };
                    row_spec(
                        c.uuid@,
                        c.max_physical_memory,
                        if running {
                            "running"@
                        } else {
                            e.state
                        },
                        id,
                        c.alias@,
                    )
                },
    {
        let mut out: Vec<String> = Vec::new();
        out.push(header());
        let n = configs.len();
        let mut i: usize = 0;
        while i < n
            invariant
                n == configs@.len(),
                n == self.entries().len(),
                n == self.index.entries@.len(),
                i <= n,
                out@.len() == i + 1,
                out@[0]@ == header_row(),
                forall|k: int|
                    0 <= k < i ==> #[trigger] out@[k + 1]@ == {
                        let c = configs@[k];
                        let e = self.entries()[k];
                        let running = self.os_jails().contains_key(c.uuid@)
                            && self.os_jails()[c.uuid@] != 0;
                        let id = if self.os_jails().contains_key(c.uuid@) {
                            self.os_jails()[c.uuid@]
                        } else {
                            0
                        };
                        row_spec(
                            c.uuid@,
                            c.max_physical_memory,
                            if running {
                                "running"@
                            } else {
                                e.state
                            },
                            id,
                            c.alias@,
                        )
                    },
            decreases n - i,
        {
            let c = &configs[i];
            let (state, id) = self.live_state(c.uuid.as_str(), self.index.entries[i].state.as_str());
            let row = print_entry(c.uuid.as_str(), c.max_physical_memory, state.as_str(), id, c.alias.as_str());
            out.push(row);
            i += 1;
        }
        out
    }
}

/// `s` followed by spaces up to `w` characters.
pub open spec fn pad_end(s: Seq<char>, w: nat) -> Seq<char> {
    if s.len() >= w {
        s
    } else {
        s + Seq::new((w - s.len()) as nat, |i: int| ' ')
    }
}

/// Spaces up to `w` characters followed by `s`.
pub open spec fn pad_start(s: Seq<char>, w: nat) -> Seq<char> {
    if s.len() >= w {
        s
    } else {
        Seq::new((w - s.len()) as nat, |i: int| ' ') + s
    }
}

/// The header of the listing.
pub open spec fn header_row() -> Seq<char> {
    pad_end("UUID"@, 37) + seq![' '] + pad_end("TYPE"@, 5) + seq![' '] + pad_end("RAM"@, 8) + seq![
        ' ',
    ] + pad_end("STATE"@, 17) + seq![' '] + pad_end("ID"@, 5) + seq![' '] + "ALIAS"@
}

/// One row of the listing; numbers stand to the right of their column.
pub open spec fn row_spec(
    uuid: Seq<char>,
    ram: u64,
    state: Seq<char>,
    id: u64,
    alias: Seq<char>,
) -> Seq<char> {
    pad_end(uuid, 37) + seq![' '] + pad_end("OS"@, 5) + seq![' '] + pad_start(
        decimal(ram as nat),
        8,
    ) + seq![' '] + pad_end(state, 17) + seq![' '] + pad_start(decimal(id as nat), 5) + seq![' ']
        + alias
}

fn spaces(n: usize) -> (r: String)
    ensures
        r@ == Seq::new(n as nat, |i: int| ' '),
{
    proof { reveal_strlit(" "); }
    let mut r = String::new();
    let mut i: usize = 0;
    while i < n
        invariant
            i <= n,
            r@ == Seq::new(i as nat, |k: int| ' '),
        decreases n - i,
    {
        proof { reveal_strlit(" "); }
        r.append(" ");
        i += 1;
        assert(r@ =~= Seq::new(i as nat, |k: int| ' '));
    }
    r
}

/// Pads `s` with spaces on the right to `w` characters.
pub fn pad_end_string(s: &str, w: usize) -> (r: String)
    ensures
        r@ == pad_end(s@, w as nat),
{
    let n = s.unicode_len();
    let mut r = s.to_owned();
    if n < w {
        let sp = spaces(w - n);
        r.append(sp.as_str());
    }
    r
}

/// Pads `s` with spaces on the left to `w` characters.
pub fn pad_start_string(s: &str, w: usize) -> (r: String)
    ensures
        r@ == pad_start(s@, w as nat),
{
    let n = s.unicode_len();
    if n < w {
        let mut r = spaces(w - n);
        r.append(s);
        r
    } else {
        s.to_owned()
    }
}

/// The header of the listing.
pub fn header() -> (r: String)
    ensures
        r@ == header_row(),
{
    proof {
        reveal_strlit(" ");
    }
    let mut r = pad_end_string("UUID", 37);
    r.append(" ");
    r.append(pad_end_string("TYPE", 5).as_str());
    r.append(" ");
    r.append(pad_end_string("RAM", 8).as_str());
    r.append(" ");
    r.append(pad_end_string("STATE", 17).as_str());
    r.append(" ");
    r.append(pad_end_string("ID", 5).as_str());
    r.append(" ");
    r.append("ALIAS");
    assert(r@ =~= header_row());
    r
}

/// One row of the listing.
pub fn print_entry(uuid: &str, ram: u64, state: &str, id: u64, alias: &str) -> (r: String)
    ensures
        r@ == row_spec(uuid@, ram, state@, id, alias@),
{
    proof {
        reveal_strlit(" ");
    }
    let mut r = pad_end_string(uuid, 37);
    r.append(" ");
    r.append(pad_end_string("OS", 5).as_str());
    r.append(" ");
    r.append(pad_start_string(decimal_string(ram).as_str(), 8).as_str());
    r.append(" ");
    r.append(pad_end_string(state, 17).as_str());
    r.append(" ");
    r.append(pad_start_string(decimal_string(id).as_str(), 5).as_str());
    r.append(" ");
    r.append(alias);
    assert(r@ =~= row_spec(uuid@, ram, state@, id, alias@));
    r
}

} // verus!
