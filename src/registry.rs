//! The resource-handle registry: opaque string handles for live
//! connections and tables, with the cascade that drops a connection's
//! tables when the connection goes.
//!
//! The registry is generic over the engine's connection and table objects,
//! which it only stores and hands out clones of.

use vstd::prelude::*;
use vstd::string::*;

use vstd::hash_set::StringHashSet;

use crate::text::same_text;

verus! {

/// A live object under its handle.
pub struct Slot<V> {
    pub id: String,
    pub value: V,
}

/// A table as the registry keeps it: its name and the handle of the
/// connection it was opened under.
pub struct StoredTable<T> {
    pub name: String,
    pub owner: String,
    pub table: T,
}

/// The object under handle `h`: the first slot that carries it.
pub open spec fn lookup<V>(s: Seq<Slot<V>>, h: Seq<char>) -> Option<V>
    decreases s.len(),
{
    if s.len() == 0 {
        None
    } else if s[0].id@ == h {
        Some(s[0].value)
    } else {
        lookup(s.skip(1), h)
    }
}

/// No handle is carried by two slots.
pub open spec fn ids_distinct<V>(s: Seq<Slot<V>>) -> bool {
    forall|i: int, j: int| 0 <= i < j < s.len() ==> s[i].id@ != s[j].id@
}

/// Handle `h` resolves to something.
pub open spec fn resolves<V>(s: Seq<Slot<V>>, h: Seq<char>) -> bool {
    lookup(s, h) is Some
}

/// The tables that were not opened under connection `c`, in order.
pub open spec fn unowned<T>(s: Seq<Slot<StoredTable<T>>>, c: Seq<char>) -> Seq<Slot<StoredTable<T>>>
    decreases s.len(),
{
    if s.len() == 0 {
        Seq::empty()
    } else if s[0].value.owner@ == c {
        unowned(s.skip(1), c)
    } else {
        seq![s[0]] + unowned(s.skip(1), c)
    }
}

/// How many tables were opened under connection `c`.
pub open spec fn owned_count<T>(s: Seq<Slot<StoredTable<T>>>, c: Seq<char>) -> nat
    decreases s.len(),
{
    if s.len() == 0 {
        0
    } else if s[0].value.owner@ == c {
        1 + owned_count(s.skip(1), c)
    } else {
        owned_count(s.skip(1), c)
    }
}

/// Relies on `uuid::Uuid::new_v4` and its `Display`: a random version-4
/// UUID in its 36-character hyphenated form.
#[verifier::external_body]
fn draw_handle() -> (r: String)
    ensures
        r@.len() == 36,
{
    uuid::Uuid::new_v4().to_string()
}

/// Where a slot list matches handle `i` first, lookup finds that slot; where
/// no slot matches, lookup finds nothing.
proof fn lemma_lookup_index<V>(s: Seq<Slot<V>>, h: Seq<char>, i: int)
    requires
        0 <= i <= s.len(),
        forall|j: int| 0 <= j < i ==> s[j].id@ != h,
        i < s.len() ==> s[i].id@ == h,
    ensures
        i < s.len() ==> lookup(s, h) == Some(s[i].value),
        i == s.len() ==> lookup(s, h) is None,
    decreases i,
{
    if s.len() > 0 && i > 0 {
        lemma_lookup_index(s.skip(1), h, i - 1);
    }
}

/// The index of the slot that handle `h` resolves to.
fn find_slot<V>(s: &Vec<Slot<V>>, h: &str) -> (r: Option<usize>)
    ensures
        match r {
            Some(i) => i < s@.len() && s@[i as int].id@ == h@ && lookup(s@, h@) == Some(
                s@[i as int].value,
            ),
            None => lookup(s@, h@) is None && forall|j: int|
                0 <= j < s@.len() ==> s@[j].id@ != h@,
        },
{
    let mut i: usize = 0;
    while i < s.len()
        invariant
            i <= s@.len(),
            forall|j: int| 0 <= j < i ==> s@[j].id@ != h@,
        decreases s@.len() - i,
    {
        if same_text(s[i].id.as_str(), h) {
            proof {
                lemma_lookup_index(s@, h@, i as int);
            }
            return Some(i);
        }
        i += 1;
    }
    proof {
        lemma_lookup_index(s@, h@, i as int);
    }
    None
}

/// A handle never issued before: a fresh random UUID. Should the drawn
/// identifier have been issued already, it is lengthened until it is longer
/// than every handle issued, which no issued handle can then equal.
fn mint_handle(issued: &StringHashSet, longest: usize) -> (r: String)
    requires
        forall|x: Seq<char>| issued@.contains(x) ==> x.len() <= longest,
    ensures
        !issued@.contains(r@),
{
    let mut id = draw_handle();
    if !issued.contains(id.as_str()) {
        return id;
    }
    let mut len = id.as_str().unicode_len();
    while len <= longest
        invariant
            len == id@.len(),
        decreases longest + 1 - len,
    {
        id.append("0");
        proof {
            reveal_strlit("0");
        }
        len = id.as_str().unicode_len();
    }
    id
}

/// A handle outside a record that holds every slot's handle is carried by
/// no slot, also once the record has grown.
proof fn lemma_unissued_absent<V>(s: Seq<Slot<V>>, before: Set<Seq<char>>, after: Set<Seq<char>>)
    requires
        forall|i: int| 0 <= i < s.len() ==> before.contains(#[trigger] s[i].id@),
        before.subset_of(after),
    ensures
        forall|i: int| 0 <= i < s.len() ==> after.contains(#[trigger] s[i].id@),
{
}

/// A handle that no slot carries resolves to nothing.
proof fn lemma_lookup_absent<V>(s: Seq<Slot<V>>, h: Seq<char>)
    requires
        forall|i: int| 0 <= i < s.len() ==> s[i].id@ != h,
    ensures
        lookup(s, h) is None,
{
    lemma_lookup_index(s, h, s.len() as int);
}

/// Appending a slot changes what its own handle resolves to, where that
/// handle was unused, and nothing else.
proof fn lemma_lookup_push<V>(s: Seq<Slot<V>>, x: Slot<V>, h: Seq<char>)
    ensures
        lookup(s.push(x), h) == (if lookup(s, h) is Some {
            lookup(s, h)
        } else if x.id@ == h {
            Some(x.value)
        } else {
            None
        }),
    decreases s.len(),
{
    if s.len() > 0 {
        assert(s.push(x)[0] == s[0]);
        assert(s.push(x).skip(1) =~= s.skip(1).push(x));
        lemma_lookup_push(s.skip(1), x, h);
    } else {
        assert(s.push(x)[0] == x);
        assert(s.push(x).skip(1) =~= Seq::<Slot<V>>::empty());
        assert(lookup(Seq::<Slot<V>>::empty(), h) is None);
    }
}

/// Removing a slot whose handle is not `h` leaves what `h` resolves to.
proof fn lemma_lookup_remove<V>(s: Seq<Slot<V>>, i: int, h: Seq<char>)
    requires
        0 <= i < s.len(),
        s[i].id@ != h,
    ensures
        lookup(s.remove(i), h) == lookup(s, h),
    decreases i,
{
    if i == 0 {
        assert(s.remove(0) =~= s.skip(1));
    } else {
        assert(s.remove(i).skip(1) =~= s.skip(1).remove(i - 1));
        lemma_lookup_remove(s.skip(1), i - 1, h);
    }
}

/// Handles stay distinct when a slot is removed.
proof fn lemma_distinct_remove<V>(s: Seq<Slot<V>>, i: int)
    requires
        0 <= i < s.len(),
        ids_distinct(s),
    ensures
        ids_distinct(s.remove(i)),
        forall|h: Seq<char>| #[trigger] lookup(s.remove(i), h) == (if h == s[i].id@ {
            None
        } else {
            lookup(s, h)
        }),
{
    let r = s.remove(i);
    assert forall|a: int, b: int| 0 <= a < b < r.len() implies r[a].id@ != r[b].id@ by {
        let a2 = if a < i { a } else { a + 1 };
        let b2 = if b < i { b } else { b + 1 };
        assert(r[a] == s[a2]);
        assert(r[b] == s[b2]);
    }
    assert forall|h: Seq<char>| #[trigger] lookup(r, h) == (if h == s[i].id@ {
        None
    } else {
        lookup(s, h)
    }) by {
        if h == s[i].id@ {
            assert forall|j: int| 0 <= j < r.len() implies r[j].id@ != h by {
                let j2 = if j < i { j } else { j + 1 };
                assert(r[j] == s[j2]);
            }
            lemma_lookup_index(r, h, r.len() as int);
        } else {
            lemma_lookup_remove(s, i, h);
        }
    }
}

/// Every table that survives a cascade was in the list and was not opened
/// under the removed connection.
proof fn lemma_unowned_subset<T>(s: Seq<Slot<StoredTable<T>>>, c: Seq<char>)
    ensures
        forall|j: int|
            #![trigger unowned(s, c)[j]]
            0 <= j < unowned(s, c).len() ==> unowned(s, c)[j].value.owner@ != c && s.contains(
                unowned(s, c)[j],
            ),
        unowned(s, c).len() + owned_count(s, c) == s.len(),
        ids_distinct(s) ==> ids_distinct(unowned(s, c)),
    decreases s.len(),
{
    if s.len() > 0 {
        lemma_unowned_subset(s.skip(1), c);
        let rest = unowned(s.skip(1), c);
        if ids_distinct(s) && s[0].value.owner@ != c {
            let u = unowned(s, c);
            assert(u == seq![s[0]] + rest);
            assert(ids_distinct(s.skip(1)));
            assert forall|a: int, b: int| 0 <= a < b < u.len() implies u[a].id@ != u[b].id@ by {
                assert(u[b] == rest[b - 1]);
                if a == 0 {
                    assert(s.skip(1).contains(rest[b - 1]));
                    let k = choose|k: int| 0 <= k < s.skip(1).len() && s.skip(1)[k] == rest[b - 1];
                    assert(s[k + 1] == u[b]);
                } else {
                    assert(u[a] == rest[a - 1]);
                }
            }
        } else if ids_distinct(s) {
            assert(ids_distinct(s.skip(1)));
        }
        assert forall|j: int| #![trigger unowned(s, c)[j]] 0 <= j < unowned(s, c).len() implies unowned(s, c)[j].value.owner@ != c
            && s.contains(unowned(s, c)[j]) by {
            let u = unowned(s, c);
            if s[0].value.owner@ == c {
                assert(u == rest);
                assert(rest[j].value.owner@ != c && s.skip(1).contains(rest[j]));
                let k = choose|k: int| 0 <= k < s.skip(1).len() && s.skip(1)[k] == u[j];
                assert(s[k + 1] == u[j]);
            } else if j == 0 {
                assert(u[0] == s[0]);
            } else {
                assert(u == seq![s[0]] + rest);
                assert(u[j] == rest[j - 1]);
                assert(rest[j - 1].value.owner@ != c && s.skip(1).contains(rest[j - 1]));
                let k = choose|k: int| 0 <= k < s.skip(1).len() && s.skip(1)[k] == rest[j - 1];
                assert(s[k + 1] == u[j]);
            }
        }
    }
}

/// The handle registry. Connections and tables live under distinct handles;
/// each table records the handle of the connection it was opened under.
/// Every handle ever issued is recorded, so that none is issued twice.
pub struct ConnectionManager<C, T> {
    connections: Vec<Slot<C>>,
    tables: Vec<Slot<StoredTable<T>>>,
    issued: StringHashSet,
    longest: usize,
}

impl<C: Clone, T: Clone> ConnectionManager<C, T> {
    /// The live connections, in order of insertion.
    pub closed spec fn connection_slots(&self) -> Seq<Slot<C>> {
        self.connections@
    }

    /// The live tables, in order of insertion.
    pub closed spec fn table_slots(&self) -> Seq<Slot<StoredTable<T>>> {
        self.tables@
    }

    /// What connection handle `h` resolves to.
    pub open spec fn connection_at(&self, h: Seq<char>) -> Option<C> {
        lookup(self.connection_slots(), h)
    }

    /// What table handle `h` resolves to.
    pub open spec fn table_at(&self, h: Seq<char>) -> Option<StoredTable<T>> {
        lookup(self.table_slots(), h)
    }

    /// Every handle this registry has issued, live or released.
    pub closed spec fn issued(&self) -> Set<Seq<char>> {
        self.issued@
    }

    /// The record of issued handles knows how long the longest one is.
    pub closed spec fn lengths_bounded(&self) -> bool {
        forall|x: Seq<char>| self.issued@.contains(x) ==> x.len() <= self.longest
    }

    /// No handle is in use twice, and every live handle was issued here.
    pub open spec fn wf(&self) -> bool {
        &&& ids_distinct(self.connection_slots())
        &&& ids_distinct(self.table_slots())
        &&& forall|i: int| 0 <= i < self.connection_slots().len() ==> self.issued().contains(
            #[trigger] self.connection_slots()[i].id@,
        )
        &&& forall|i: int| 0 <= i < self.table_slots().len() ==> self.issued().contains(
            #[trigger] self.table_slots()[i].id@,
        )
        &&& self.lengths_bounded()
    }

    /// An empty registry.
    pub fn new() -> (r: Self)
        ensures
            r.wf(),
            r.connection_slots() == Seq::<Slot<C>>::empty(),
            r.table_slots() == Seq::<Slot<StoredTable<T>>>::empty(),
            r.issued() == Set::<Seq<char>>::empty(),
    {
        ConnectionManager { connections: Vec::new(), tables: Vec::new(), issued: StringHashSet::new(), longest: 0 }
    }

    /// Mints a handle never issued before, and records it.
    fn issue_handle(&mut self) -> (r: String)
        requires
            old(self).wf(),
        ensures
            !old(self).issued().contains(r@),
            final(self).issued() == old(self).issued().insert(r@),
            final(self).lengths_bounded(),
            final(self).connections == old(self).connections,
            final(self).tables == old(self).tables,
    {
        let id = mint_handle(&self.issued, self.longest);
        let n = id.as_str().unicode_len();
        if n > self.longest {
            self.longest = n;
        }
        self.issued.insert(id.clone());
        id
    }

    /// Stores a connection under a fresh handle and returns the handle.
    pub fn insert_connection(&mut self, connection: C) -> (r: String)
        requires
            old(self).wf(),
        ensures
            final(self).wf(),
            !old(self).issued().contains(r@),
            final(self).issued() == old(self).issued().insert(r@),
            old(self).connection_at(r@) is None,
            old(self).table_at(r@) is None,
            final(self).connection_at(r@) == Some(connection),
            forall|h: Seq<char>| h != r@ ==> #[trigger] final(self).connection_at(h) == old(self).connection_at(h),
            final(self).table_slots() == old(self).table_slots(),
    {
        proof {
            lemma_unissued_absent(self.connections@, self.issued@, self.issued@);
            lemma_unissued_absent(self.tables@, self.issued@, self.issued@);
        }
        let id = self.issue_handle();
        proof {
            lemma_unissued_absent(self.connections@, old(self).issued@, self.issued@);
            lemma_unissued_absent(self.tables@, old(self).issued@, self.issued@);
            lemma_lookup_absent(self.connections@, id@);
            lemma_lookup_absent(self.tables@, id@);
        }
        let returned = id.clone();
        let slot = Slot { id, value: connection };
        proof {
            assert forall|h: Seq<char>| #[trigger] lookup(self.connections@.push(slot), h) == (if h == slot.id@ {
                Some(connection)
            } else {
                lookup(self.connections@, h)
            }) by {
                lemma_lookup_push(self.connections@, slot, h);
            }
        }
        let ghost before = self.connections@;
        self.connections.push(slot);
        proof {
            assert forall|a: int, b: int| 0 <= a < b < self.connections@.len() implies self.connections@[a].id@
                != self.connections@[b].id@ by {
                if b == before.len() {
                    assert(self.connections@[a] == before[a]);
                }
            }
        }
        returned
    }

    /// A clone of the connection under handle `h`, if it is live.
    pub fn get_connection(&self, h: &str) -> (r: Option<C>)
        ensures
            match r {
                Some(c) => self.connection_at(h@) matches Some(v) && cloned(v, c),
                None => self.connection_at(h@) is None,
            },
    {
        match find_slot(&self.connections, h) {
            Some(i) => Some(self.connections[i].value.clone()),
            None => None,
        }
    }

    /// Stores a table, with its name and the handle of its connection, under
    /// a fresh handle and returns the handle.
    pub fn insert_table(&mut self, name: String, table: T, owner: String) -> (r: String)
        requires
            old(self).wf(),
        ensures
            final(self).wf(),
            !old(self).issued().contains(r@),
            final(self).issued() == old(self).issued().insert(r@),
            old(self).table_at(r@) is None,
            old(self).connection_at(r@) is None,
            final(self).table_at(r@) == Some(StoredTable { name, owner, table }),
            forall|h: Seq<char>| h != r@ ==> #[trigger] final(self).table_at(h) == old(self).table_at(h),
            final(self).connection_slots() == old(self).connection_slots(),
    {
        proof {
            lemma_unissued_absent(self.connections@, self.issued@, self.issued@);
            lemma_unissued_absent(self.tables@, self.issued@, self.issued@);
        }
        let id = self.issue_handle();
        proof {
            lemma_unissued_absent(self.connections@, old(self).issued@, self.issued@);
            lemma_unissued_absent(self.tables@, old(self).issued@, self.issued@);
            lemma_lookup_absent(self.connections@, id@);
            lemma_lookup_absent(self.tables@, id@);
        }
        let returned = id.clone();
        let slot = Slot { id, value: StoredTable { name, owner, table } };
        proof {
            assert forall|h: Seq<char>| #[trigger] lookup(self.tables@.push(slot), h) == (if h == slot.id@ {
                Some(slot.value)
            } else {
                lookup(self.tables@, h)
            }) by {
                lemma_lookup_push(self.tables@, slot, h);
            }
        }
        let ghost before = self.tables@;
        self.tables.push(slot);
        proof {
            assert forall|a: int, b: int| 0 <= a < b < self.tables@.len() implies self.tables@[a].id@
                != self.tables@[b].id@ by {
                if b == before.len() {
                    assert(self.tables@[a] == before[a]);
                }
            }
        }
        returned
    }

    /// A clone of the table under handle `h`, if it is live.
    pub fn get_table(&self, h: &str) -> (r: Option<T>)
        ensures
            match r {
                Some(t) => self.table_at(h@) matches Some(v) && cloned(v.table, t),
                None => self.table_at(h@) is None,
            },
    {
        match find_slot(&self.tables, h) {
            Some(i) => Some(self.tables[i].value.table.clone()),
            None => None,
        }
    }

    /// The name of the table under handle `h`, if it is live.
    pub fn get_table_name(&self, h: &str) -> (r: Option<String>)
        ensures
            match r {
                Some(n) => self.table_at(h@) matches Some(v) && n@ == v.name@,
                None => self.table_at(h@) is None,
            },
    {
        match find_slot(&self.tables, h) {
            Some(i) => Some(self.tables[i].value.name.clone()),
            None => None,
        }
    }

    /// Removes a connection and, with it, every table opened under it.
    /// Returns how many tables were released, or `None` (and changes
    /// nothing) when the handle is not a live connection.
    pub fn remove_connection(&mut self, h: &str) -> (r: Option<usize>)
        requires
            old(self).wf(),
        ensures
            final(self).wf(),
            final(self).issued() == old(self).issued(),
            old(self).connection_at(h@) is None ==> r is None && final(self).connection_slots()
                == old(self).connection_slots() && final(self).table_slots() == old(self).table_slots(),
            old(self).connection_at(h@) is Some ==> r == Some(
                owned_count(old(self).table_slots(), h@) as usize,
            ) && final(self).table_slots() == unowned(old(self).table_slots(), h@) && forall|
                x: Seq<char>,
            | #[trigger] final(self).connection_at(x) == (if x == h@ {
                None
            } else {
                old(self).connection_at(x)
            }),
    {
        let i = match find_slot(&self.connections, h) {
            Some(i) => i,
            None => return None,
        };
        proof {
            lemma_distinct_remove(self.connections@, i as int);
            let r = self.connections@.remove(i as int);
            assert forall|k: int| 0 <= k < r.len() implies self.issued@.contains(#[trigger] r[k].id@) by {
                if k < i {
                    assert(r[k] == self.connections@[k]);
                } else {
                    assert(r[k] == self.connections@[k + 1]);
                }
            }
        }
        self.connections.remove(i);
        let ghost conns = self.connections@;
        let mut rest: Vec<Slot<StoredTable<T>>> = Vec::new();
        std::mem::swap(&mut rest, &mut self.tables);
        let ghost all = rest@;
        let n = rest.len();
        let mut released: usize = 0;
        let mut k: usize = 0;
        proof {
            assert(all.skip(0) =~= all);
            assert(Seq::<Slot<StoredTable<T>>>::empty() + unowned(all, h@) =~= unowned(all, h@));
            lemma_unowned_subset(all, h@);
        }
        while k < n
            invariant
                n == all.len(),
                k <= n,
                rest@ == all.skip(k as int),
                self.tables@ + unowned(all.skip(k as int), h@) == unowned(all, h@),
                released + owned_count(all.skip(k as int), h@) == owned_count(all, h@),
                owned_count(all, h@) <= n,
                self.connections@ == conns,
                self.issued@ == old(self).issued@,
                self.longest == old(self).longest,
                all == old(self).tables@,
            decreases n - k,
        {
            let ghost tail = all.skip(k as int);
            let ghost kept = self.tables@;
            proof {
                assert(tail.skip(1) =~= all.skip(k + 1));
                assert(tail[0] == all[k as int]);
                lemma_unowned_subset(tail.skip(1), h@);
            }
            let slot = rest.remove(0);
            assert(rest@ =~= all.skip(k + 1));
            if same_text(slot.value.owner.as_str(), h) {
                released += 1;
            } else {
                self.tables.push(slot);
                assert(kept + (seq![slot] + unowned(tail.skip(1), h@)) =~= self.tables@ + unowned(
                    tail.skip(1),
                    h@,
                ));
            }
            k += 1;
        }
        proof {
            assert(all.skip(n as int) =~= Seq::<Slot<StoredTable<T>>>::empty());
            assert(self.tables@ + Seq::<Slot<StoredTable<T>>>::empty() =~= self.tables@);
            assert(owned_count(Seq::<Slot<StoredTable<T>>>::empty(), h@) == 0);
            assert(unowned(Seq::<Slot<StoredTable<T>>>::empty(), h@) == Seq::<Slot<StoredTable<T>>>::empty());
            lemma_unowned_subset(all, h@);
            let u = unowned(all, h@);
            assert forall|k: int| 0 <= k < u.len() implies self.issued@.contains(#[trigger] u[k].id@) by {
                assert(all.contains(u[k]));
                let j = choose|j: int| 0 <= j < all.len() && all[j] == u[k];
                assert(old(self).tables@[j] == u[k]);
            }
        }
        Some(released)
    }

    /// Removes a single table, leaving its connection alone. Returns whether
    /// the handle was a live table.
    pub fn remove_table(&mut self, h: &str) -> (r: bool)
        requires
            old(self).wf(),
        ensures
            final(self).wf(),
            final(self).issued() == old(self).issued(),
            r == old(self).table_at(h@) is Some,
            forall|x: Seq<char>| #[trigger] final(self).table_at(x) == (if x == h@ {
                None
            } else {
                old(self).table_at(x)
            }),
            final(self).connection_slots() == old(self).connection_slots(),
    {
        match find_slot(&self.tables, h) {
            Some(i) => {
                proof {
                    lemma_distinct_remove(self.tables@, i as int);
                    let r = self.tables@.remove(i as int);
                    assert forall|k: int| 0 <= k < r.len() implies self.issued@.contains(#[trigger] r[k].id@) by {
                        if k < i {
                            assert(r[k] == self.tables@[k]);
                        } else {
                            assert(r[k] == self.tables@[k + 1]);
                        }
                    }
                }
                self.tables.remove(i);
                true
            },
            None => false,
        }
    }
}

/// Disconnecting cascades: when a live connection `c` is removed and the
/// tables left are those not opened under it, the number released is the
/// number of live tables that were opened under `c`; each of their handles
/// resolves to nothing afterwards, and every other table handle resolves
/// as before.
pub proof fn lemma_disconnect_cascade<T>(
    before: Seq<Slot<StoredTable<T>>>,
    after: Seq<Slot<StoredTable<T>>>,
    c: Seq<char>,
    h: Seq<char>,
)
    requires
        ids_distinct(before),
        after == unowned(before, c),
    ensures
        owned_count(before, c) == before.len() - after.len(),
        lookup(before, h) matches Some(t) && t.owner@ == c ==> lookup(after, h) is None,
        lookup(before, h) matches Some(t) && t.owner@ != c ==> lookup(after, h) == lookup(before, h),
        lookup(before, h) is None ==> lookup(after, h) is None,
{
    lemma_unowned_subset(before, c);
    lemma_lookup_through_unowned(before, c, h);
}

/// What a handle resolves to among the tables not opened under `c`.
proof fn lemma_lookup_through_unowned<T>(s: Seq<Slot<StoredTable<T>>>, c: Seq<char>, h: Seq<char>)
    requires
        ids_distinct(s),
    ensures
        lookup(unowned(s, c), h) == (if lookup(s, h) matches Some(t) && t.owner@ != c {
            lookup(s, h)
        } else {
            None
        }),
    decreases s.len(),
{
    if s.len() > 0 {
        assert(ids_distinct(s.skip(1)));
        lemma_lookup_through_unowned(s.skip(1), c, h);
        if s[0].id@ == h {
            assert forall|j: int| 0 <= j < s.skip(1).len() implies s.skip(1)[j].id@ != h by {
                assert(s.skip(1)[j] == s[j + 1]);
            }
            lemma_lookup_index(s.skip(1), h, s.skip(1).len() as int);
        }
        if s[0].value.owner@ != c {
            let rest = unowned(s.skip(1), c);
            assert((seq![s[0]] + rest)[0] == s[0]);
            assert((seq![s[0]] + rest).skip(1) =~= rest);
        }
    }
}

} // verus!
