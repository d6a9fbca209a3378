//! The running jails as the OS reports them, and the names that the
//! network interfaces of a running jail take.
use vstd::prelude::*;

use crate::text::{
    decimal, decimal_string, find_char, find_from, lemma_find_from_bounds, lines, lines_from,
    parse_u64, parse_u64_spec,
};

verus! {

/// A running jail: its name (the jail's uuid) and the id the OS gave it.
#[derive(Debug, Clone)]
pub struct JailOSEntry {
    /// uuid of the jail
    pub uuid: String,
    /// os id of the jail
    pub id: u64,
}

impl View for JailOSEntry {
    type V = (Seq<char>, u64);

    open spec fn view(&self) -> (Seq<char>, u64) {
        (self.uuid@, self.id)
    }
}

/// Why a line of the jail listing could not be read.
#[derive(Debug, Clone, Copy, PartialEq, Eq, Structural)]
pub enum ListError {
    /// The first field is not a number.
    InvalidId,
    /// The line has no second field.
    MissingName,
}

/// A listing line `"<id> <name>"`, split on single spaces: the first field
/// must be a number and a second field must follow it; further fields are
/// ignored.
pub open spec fn entry_of(line: Seq<char>) -> Result<(Seq<char>, u64), ListError> {
    let p = find_from(line, ' ', 0);
    match parse_u64_spec(line.subrange(0, p)) {
        None => Err(ListError::InvalidId),
        Some(id) => if p >= line.len() {
            Err(ListError::MissingName)
        } else {
            Ok((line.subrange(p + 1, find_from(line, ' ', p + 1)), id))
        },
    }
}

/// Prepends `acc` to a successful result; an error stays as it is.
pub open spec fn prepend_ok(
    acc: Seq<(Seq<char>, u64)>,
    r: Result<Seq<(Seq<char>, u64)>, ListError>,
) -> Result<Seq<(Seq<char>, u64)>, ListError> {
    match r {
        Ok(x) => Ok(acc + x),
        Err(e) => Err(e),
    }
}

/// The entries of a list of lines, in order; the first bad line decides
/// the error.
pub open spec fn parse_lines(ls: Seq<Seq<char>>) -> Result<Seq<(Seq<char>, u64)>, ListError>
    decreases ls.len(),
{
    if ls.len() == 0 {
        Ok(seq![])
    } else {
        match entry_of(ls[0]) {
            Err(e) => Err(e),
            Ok(p) => prepend_ok(seq![p], parse_lines(ls.drop_first())),
        }
    }
}

/// The id recorded last for `name` in `ps`, if any.
pub open spec fn lookup(ps: Seq<(Seq<char>, u64)>, name: Seq<char>) -> Option<u64>
    decreases ps.len(),
{
    if ps.len() == 0 {
        None
    } else if ps.last().0 == name {
        Some(ps.last().1)
    } else {
        lookup(ps.drop_last(), name)
    }
}

/// The mapping that a sequence of entries builds when a later entry for a
/// name replaces an earlier one.
pub open spec fn pairs_map(ps: Seq<(Seq<char>, u64)>) -> Map<Seq<char>, u64> {
    Map::new(|k: Seq<char>| lookup(ps, k) is Some, |k: Seq<char>| lookup(ps, k)->0)
}

/// The running jails by name.
#[derive(Debug)]
pub struct OsJails {
    entries: Vec<JailOSEntry>,
}

impl View for OsJails {
    type V = Map<Seq<char>, u64>;

    open spec fn view(&self) -> Map<Seq<char>, u64> {
        pairs_map(self.pairs())
    }
}

impl OsJails {
    /// The entries in the order they were added.
    pub closed spec fn pairs(&self) -> Seq<(Seq<char>, u64)> {
        self.entries@.map_values(|e: JailOSEntry| e@)
    }

    /// No running jail.
    pub fn new() -> (r: OsJails)
        ensures
            r.pairs() == Seq::<(Seq<char>, u64)>::empty(),
            r@ == Map::<Seq<char>, u64>::empty(),
    {
        let r = OsJails { entries: Vec::new() };
        assert(r.pairs() =~= Seq::<(Seq<char>, u64)>::empty());
        assert(r@ =~= Map::<Seq<char>, u64>::empty());
        r
    }

    /// Adds an entry; it replaces an earlier one of the same name.
    pub fn insert(&mut self, e: JailOSEntry)
        ensures
            final(self).pairs() == old(self).pairs().push(e@),
            final(self)@ == old(self)@.insert(e.uuid@, e.id),
    {
        let ghost p = e@;
        self.entries.push(e);
        assert(self.pairs() =~= old(self).pairs().push(p));
        assert(self.pairs().drop_last() =~= old(self).pairs());
        assert(self@ =~= old(self)@.insert(p.0, p.1));
    }

    /// The number of entries added, replaced ones included.
    pub fn len(&self) -> (r: usize)
        ensures
            r == self.pairs().len(),
    {
        self.entries.len()
    }

    /// The running jail named `uuid`, if any.
    pub fn get(&self, uuid: &str) -> (r: Option<&JailOSEntry>)
        ensures
            r is Some <==> self@.contains_key(uuid@),
            r is Some ==> r->0.uuid@ == uuid@ && r->0.id == self@[uuid@],
    {
        let key = uuid.to_owned();
        let ghost ps = self.pairs();
        let mut i = self.entries.len();
        assert(ps.take(i as int) =~= ps);
        while i > 0
            invariant
                i <= self.entries@.len(),
                ps == self.pairs(),
                key@ == uuid@,
                lookup(ps, uuid@) == lookup(ps.take(i as int), uuid@),
            decreases i,
        {
            assert(ps.take(i as int).drop_last() =~= ps.take(i - 1));
            assert(ps.take(i as int).last() == self.entries@[i - 1]@);
            if self.entries[i - 1].uuid.eq(&key) {
                return Some(&self.entries[i - 1]);
            }
            i -= 1;
        }
        None
    }
}

/// Reads one line of the jail listing.
pub fn deconstruct_entry(line: &str) -> (r: Result<JailOSEntry, ListError>)
    ensures
        match entry_of(line@) {
            Ok(p) => r is Ok && r->Ok_0@ == p,
            Err(e) => r == Err::<JailOSEntry, ListError>(e),
        },
{
    let p = find_char(line, ' ', 0);
    proof { lemma_find_from_bounds(line@, ' ', 0); }
    let id = match parse_u64(line.substring_char(0, p)) {
        None => return Err(ListError::InvalidId),
        Some(id) => id,
    };
    let n = line.unicode_len();
    if p >= n {
        return Err(ListError::MissingName);
    }
    let q = find_char(line, ' ', p + 1);
    proof { lemma_find_from_bounds(line@, ' ', p + 1); }
    let uuid = line.substring_char(p + 1, q).to_owned();
    Ok(JailOSEntry { uuid, id })
}

/// Reads the output of the OS jail listing: one `"<id> <name>"` record per
/// non-empty line. Any bad line fails the whole listing.
pub fn parse_listing(reply: &str) -> (r: Result<OsJails, ListError>)
    ensures
        match parse_lines(lines(reply@)) {
            Ok(ps) => r is Ok && r->Ok_0.pairs() == ps && r->Ok_0@ == pairs_map(ps),
            Err(e) => r is Err && r->Err_0 == e,
        },
{
    let n = reply.unicode_len();
    let mut res = OsJails::new();
    let mut pos: usize = 0;
    while pos < n
        invariant
            pos <= n,
            n == reply@.len(),
            prepend_ok(res.pairs(), parse_lines(lines_from(reply@, pos as int)))
                == parse_lines(lines(reply@)),
        decreases n - pos,
    {
        let e = find_char(reply, '\n', pos);
        proof { lemma_find_from_bounds(reply@, '\n', pos as int); }
        let ghost s = reply@;
        let ghost rest = lines_from(s, e + 1);
        proof {
            if e >= n {
                assert(rest =~= Seq::<Seq<char>>::empty());
            }
        }
        if e > pos {
            let line = reply.substring_char(pos, e);
            let ghost l = s.subrange(pos as int, e as int);
            assert(lines_from(s, pos as int) == seq![l] + rest);
            assert((seq![l] + rest)[0] == l);
            assert((seq![l] + rest).drop_first() =~= rest);
            match deconstruct_entry(line) {
                Err(err) => {
                    return Err(err);
                },
                Ok(entry) => {
                    let ghost acc = res.pairs();
                    res.insert(entry);
                    proof {
                        match parse_lines(rest) {
                            Ok(x) => {
                                assert(acc.push(entry@) + x =~= acc + (seq![entry@] + x));
                            },
                            Err(_) => {},
                        }
                    }
                },
            }
        } else {
            assert(lines_from(s, pos as int) =~= rest);
        }
        if e >= n {
            pos = n;
        } else {
            pos = e + 1;
        }
    }
    proof {
        match parse_lines(lines(reply@)) {
            Ok(ps) => {
                assert(res.pairs() + Seq::<(Seq<char>, u64)>::empty() =~= res.pairs());
            },
            Err(_) => {},
        }
    }
    Ok(res)
}

/// The listing that `list` reads: two jails, the second nested in the
/// first.
pub open spec fn stub_reply() -> Seq<char> {
    "1 00000000-1f3e-4b11-b0ae-8494bb6ecd52\n2 00000000-1f3e-4b11-b0ae-8494bb6ecd52.00000000-1f3e-4b11-b0ae-8494bb6ecd52\n"@
}

/// The jail listing of a host without a jail facility: a fixed reply of
/// two jails, read as the real listing is.
pub fn list() -> (r: Result<OsJails, ListError>)
    ensures
        match parse_lines(lines(stub_reply())) {
            Ok(ps) => r is Ok && r->Ok_0.pairs() == ps && r->Ok_0@ == pairs_map(ps),
            Err(e) => r is Err && r->Err_0 == e,
        },
{
    let reply = "1 00000000-1f3e-4b11-b0ae-8494bb6ecd52\n2 00000000-1f3e-4b11-b0ae-8494bb6ecd52.00000000-1f3e-4b11-b0ae-8494bb6ecd52\n";
    assert(reply@ == stub_reply());
    parse_listing(reply)
}

/// The name `j<id>:<iface>` that a jail's interface carries on the host.
pub open spec fn iface_target_spec(id: u64, iface: Seq<char>) -> Seq<char> {
    seq!['j'] + decimal(id as nat) + seq![':'] + iface
}

/// The host-side name of interface `iface` of the jail with OS id `id`.
pub fn iface_target(id: u64, iface: &str) -> (r: String)
    ensures
        r@ == iface_target_spec(id, iface@),
{
    proof {
        reveal_strlit("j");
        reveal_strlit(":");
    }
    let mut r = String::from_str("j");
    let digits = decimal_string(id);
    r.append(digits.as_str());
    r.append(":");
    r.append(iface);
    r
}

} // verus!
