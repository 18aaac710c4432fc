//! Names for numeric owners and groups.

use vstd::prelude::*;
use crate::assoc::{lemma_position, lemma_position_is, lemma_put, lookup, position};
use crate::text::push_char;

verus! {

/// The names known for numeric identifiers, as a table that is filled
/// once and then consulted.
pub struct NameTable {
    rows: Vec<(u32, String)>,
}

/// The identifiers of rows, in their order.
pub open spec fn ids_of(rows: Seq<(u32, String)>) -> Seq<u32> {
    Seq::new(rows.len(), |i: int| rows[i].0)
}

/// The names of rows, in their order.
pub open spec fn names_of(rows: Seq<(u32, String)>) -> Seq<Seq<char>> {
    Seq::new(rows.len(), |i: int| rows[i].1@)
}

impl NameTable {
    /// The table as a map from identifier to name.
    pub closed spec fn view(&self) -> Map<u32, Seq<char>> {
        lookup(ids_of(self.rows@), names_of(self.rows@))
    }

    /// A table that knows no name.
    pub fn new() -> (t: NameTable)
        ensures
            t@ == Map::<u32, Seq<char>>::empty(),
    {
        let t = NameTable { rows: Vec::new() };
        assert(t@ =~= Map::<u32, Seq<char>>::empty());
        t
    }

    fn find(&self, id: u32) -> (p: usize)
        ensures
            p == position(ids_of(self.rows@), id),
            p <= self.rows.len(),
    {
        let mut p: usize = 0;
        while p < self.rows.len() && self.rows[p].0 != id
            invariant
                p <= self.rows.len(),
                forall|j: int| 0 <= j < p ==> ids_of(self.rows@)[j] != id,
            decreases self.rows.len() - p,
        {
            p += 1;
        }
        proof {
            lemma_position_is(ids_of(self.rows@), id, p as int);
        }
        p
    }

    /// Records `name` for `id`, in place of any name recorded before.
    pub fn insert(&mut self, id: u32, name: String)
        ensures
            final(self)@ == old(self)@.insert(id, name@),
    {
        let p = self.find(id);
        let ghost ids = ids_of(self.rows@);
        let ghost names = names_of(self.rows@);
        proof {
            lemma_put(ids, names, id, name@);
            lemma_position(ids, id);
        }
        if p < self.rows.len() {
            self.rows.set(p, (id, name));
            assert(ids_of(self.rows@) =~= ids);
            assert(names_of(self.rows@) =~= names.update(p as int, name@));
        } else {
            self.rows.push((id, name));
            assert(ids_of(self.rows@) =~= ids.push(id));
            assert(names_of(self.rows@) =~= names.push(name@));
        }
    }

    /// The name recorded for `id`, if there is one.
    pub fn get(&self, id: u32) -> (r: Option<String>)
        ensures
            match r {
                Some(name) => self@.contains_key(id) && name@ == self@[id],
                None => !self@.contains_key(id),
            },
    {
        let p = self.find(id);
        if p < self.rows.len() {
            Some(self.rows[p].1.clone())
        } else {
            None
        }
    }
}

/// What stands for an identifier without a name.
pub open spec fn unknown() -> Seq<char> {
    seq!['u', 'n', 'k', 'n', 'o', 'w', 'n']
}

/// The name shown for an identifier: the one the table has, or `unknown`.
pub open spec fn display_name(table: Map<u32, Seq<char>>, id: u32) -> Seq<char> {
    if table.contains_key(id) {
        table[id]
    } else {
        unknown()
    }
}

/// The names known for owners and for groups.
pub struct Identities {
    pub users: NameTable,
    pub groups: NameTable,
}

impl Identities {
    /// No names at all: every identifier shows as `unknown`.
    pub fn new() -> (ids: Identities)
        ensures
            ids.users@ == Map::<u32, Seq<char>>::empty(),
            ids.groups@ == Map::<u32, Seq<char>>::empty(),
    {
        Identities { users: NameTable::new(), groups: NameTable::new() }
    }
}

fn name_or_unknown(table: &NameTable, id: u32) -> (r: String)
    ensures
        r@ == display_name(table@, id),
{
    match table.get(id) {
        Some(name) => name,
        None => {
            let mut out = String::new();
            push_char(&mut out, 'u');
            push_char(&mut out, 'n');
            push_char(&mut out, 'k');
            push_char(&mut out, 'n');
            push_char(&mut out, 'o');
            push_char(&mut out, 'w');
            push_char(&mut out, 'n');
            assert(out@ =~= unknown());
            out
        },
    }
}

/// The names shown for an owner and a group. An identifier that has no
/// name shows as `unknown`; the lookup never fails.
pub fn get_user_group_names(identities: &Identities, uid: u32, gid: u32) -> (r: (String, String))
    ensures
        r.0@ == display_name(identities.users@, uid),
        r.1@ == display_name(identities.groups@, gid),
{
    (name_or_unknown(&identities.users, uid), name_or_unknown(&identities.groups, gid))
}

} // verus!
