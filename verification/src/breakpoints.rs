//! The set of breakpoint addresses that the console keeps and sends to the
//! controller. The set is kept as a list without repetitions, in the order in
//! which the addresses were set. An address is toggled: taken out where it
//! stands in the list, put at the end where it does not.

use vstd::prelude::*;

verus! {

/// The first index from `i` on at which `addr` stands, or the length if none.
pub open spec fn find_from(list: Seq<u16>, addr: u16, i: int) -> int
    decreases list.len() - i,
{
    if i < 0 || i >= list.len() || list[i] == addr {
        i
    } else {
        find_from(list, addr, i + 1)
    }
}

/// The list after `addr` was toggled.
pub open spec fn toggled(list: Seq<u16>, addr: u16) -> Seq<u16> {
    let i = find_from(list, addr, 0);
    if i < list.len() {
        list.remove(i)
    } else {
        list.push(addr)
    }
}

/// What `find_from` finds: the first place of `addr` at or after `i`.
pub proof fn lemma_find_from(list: Seq<u16>, addr: u16, i: int)
    requires
        0 <= i <= list.len(),
    ensures
        i <= find_from(list, addr, i) <= list.len(),
        find_from(list, addr, i) < list.len() ==> list[find_from(list, addr, i)] == addr,
        forall|j: int| i <= j < find_from(list, addr, i) ==> list[j] != addr,
    decreases list.len() - i,
{
    if i < list.len() && list[i] != addr {
        lemma_find_from(list, addr, i + 1);
    }
}

/// Toggling changes whether `addr` is in the list, and nothing else about what
/// the list holds; a list without repetitions stays one.
pub proof fn lemma_toggled_membership(list: Seq<u16>, addr: u16)
    requires
        list.no_duplicates(),
    ensures
        toggled(list, addr).no_duplicates(),
        toggled(list, addr).contains(addr) == !list.contains(addr),
        forall|other: u16|
            other != addr ==> toggled(list, addr).contains(other) == list.contains(other),
{
    lemma_find_from(list, addr, 0);
    let i = find_from(list, addr, 0);
    let after = toggled(list, addr);
    if i < list.len() {
        assert forall|a: int, b: int| 0 <= a < after.len() && 0 <= b < after.len() && a != b implies after[a]
            != after[b] by {
            let a0 = if a < i { a } else { a + 1 };
            let b0 = if b < i { b } else { b + 1 };
            assert(after[a] == list[a0] && after[b] == list[b0]);
        }
        assert(list.contains(addr));
        if after.contains(addr) {
            let k = choose|k: int| 0 <= k < after.len() && after[k] == addr;
            let k0 = if k < i { k } else { k + 1 };
            assert(list[k0] == addr && list[i] == addr && k0 != i);
        }
        assert forall|other: u16| other != addr implies after.contains(other) == list.contains(
            other,
        ) by {
            if list.contains(other) {
                let k = choose|k: int| 0 <= k < list.len() && list[k] == other;
                let k1 = if k < i { k } else { k - 1 };
                assert(after[k1] == other);
            }
            if after.contains(other) {
                let k = choose|k: int| 0 <= k < after.len() && after[k] == other;
                let k0 = if k < i { k } else { k + 1 };
                assert(list[k0] == other);
            }
        }
    } else {
        assert(!list.contains(addr)) by {
            if list.contains(addr) {
                let k = choose|k: int| 0 <= k < list.len() && list[k] == addr;
                assert(list[k] != addr);
            }
        }
        assert(after[list.len() as int] == addr);
        assert forall|a: int, b: int| 0 <= a < after.len() && 0 <= b < after.len() && a != b implies after[a]
            != after[b] by {
            if a < list.len() && b < list.len() {
                assert(after[a] == list[a] && after[b] == list[b]);
            } else if a < list.len() {
                assert(after[a] == list[a]);
                assert(list.contains(list[a]));
            } else {
                assert(after[b] == list[b]);
                assert(list.contains(list[b]));
            }
        }
        assert forall|other: u16| other != addr implies after.contains(other) == list.contains(
            other,
        ) by {
            if list.contains(other) {
                let k = choose|k: int| 0 <= k < list.len() && list[k] == other;
                assert(after[k] == other);
            }
            if after.contains(other) {
                let k = choose|k: int| 0 <= k < after.len() && after[k] == other;
                assert(list[k] == other);
            }
        }
    }
}

/// Toggling the same address twice gives back the set of breakpoints that there
/// was: one that was present is absent in between, one that was absent is
/// present in between.
pub proof fn lemma_toggle_twice(list: Seq<u16>, addr: u16)
    requires
        list.no_duplicates(),
    ensures
        toggled(toggled(list, addr), addr).to_set() == list.to_set(),
        toggled(list, addr).contains(addr) != list.contains(addr),
        toggled(toggled(list, addr), addr).no_duplicates(),
{
    let once = toggled(list, addr);
    let twice = toggled(once, addr);
    lemma_toggled_membership(list, addr);
    lemma_toggled_membership(once, addr);
    assert forall|x: u16| twice.to_set().contains(x) == list.to_set().contains(x) by {
        assert(twice.to_set().contains(x) == twice.contains(x));
        assert(list.to_set().contains(x) == list.contains(x));
    }
    assert(twice.to_set() =~= list.to_set());
}

/// The set after `addr` was toggled: without it where it held it, with it
/// where it did not.
pub open spec fn flipped(set: Set<u16>, addr: u16) -> Set<u16> {
    if set.contains(addr) {
        set.remove(addr)
    } else {
        set.insert(addr)
    }
}

/// Toggling an address in a list without repetitions toggles it in the set of
/// what the list holds.
pub proof fn lemma_toggled_set(list: Seq<u16>, addr: u16)
    requires
        list.no_duplicates(),
    ensures
        toggled(list, addr).to_set() == flipped(list.to_set(), addr),
{
    lemma_toggled_membership(list, addr);
    let after = toggled(list, addr).to_set();
    let goal = flipped(list.to_set(), addr);
    assert forall|x: u16| after.contains(x) == goal.contains(x) by {
        assert(after.contains(x) == toggled(list, addr).contains(x));
        assert(list.to_set().contains(x) == list.contains(x));
    }
    assert(after =~= goal);
}

/// Toggling the same address twice gives back the set.
pub proof fn lemma_flipped_twice(set: Set<u16>, addr: u16)
    ensures
        flipped(flipped(set, addr), addr) == set,
        flipped(set, addr).contains(addr) != set.contains(addr),
{
    assert(flipped(flipped(set, addr), addr) =~= set);
}

/// The list after `addr` was toggled.
fn toggled_list(list: &Vec<u16>, addr: u16) -> (after: Vec<u16>)
    ensures
        after@ == toggled(list@, addr),
{
    let mut at: usize = 0;
    while at < list.len() && list[at] != addr
        invariant
            at <= list.len(),
            find_from(list@, addr, at as int) == find_from(list@, addr, 0),
        decreases list.len() - at,
    {
        at += 1;
    }
    let mut after: Vec<u16> = Vec::new();
    let mut i: usize = 0;
    while i < list.len()
        invariant
            i <= list.len(),
            at <= list.len(),
            after@ == if i <= at {
                list@.take(i as int)
            } else {
                list@.take(at as int) + list@.subrange(at + 1, i as int)
            },
        decreases list.len() - i,
    {
        if i != at {
            after.push(list[i]);
        }
        i += 1;
        assert(after@ =~= if i <= at {
            list@.take(i as int)
        } else {
            list@.take(at as int) + list@.subrange(at + 1, i as int)
        });
    }
    if at == list.len() {
        after.push(addr);
        assert(after@ =~= list@.push(addr));
    } else {
        assert(after@ =~= list@.remove(at as int));
    }
    after
}

/// A set of breakpoint addresses.
#[derive(Debug)]
pub struct BreakpointSet {
    addrs: Vec<u16>,
}

impl View for BreakpointSet {
    type V = Seq<u16>;

    /// The addresses in the order in which they were set.
    closed spec fn view(&self) -> Seq<u16> {
        self.addrs@
    }
}

impl BreakpointSet {
    #[verifier::type_invariant]
    spec fn distinct(&self) -> bool {
        self.addrs@.no_duplicates()
    }

    /// The addresses of the set.
    pub open spec fn members(&self) -> Set<u16> {
        self@.to_set()
    }

    /// The set without addresses.
    pub fn new() -> (set: BreakpointSet)
        ensures
            set@ == Seq::<u16>::empty(),
    {
        BreakpointSet { addrs: Vec::new() }
    }

    /// Toggles an address: takes it out of the set where the set holds it,
    /// puts it in where it does not.
    pub fn toggle(&mut self, addr: u16)
        ensures
            final(self)@ == toggled(old(self)@, addr),
            final(self).members() == flipped(old(self).members(), addr),
            old(self)@.no_duplicates(),
            final(self)@.no_duplicates(),
    {
        proof {
            use_type_invariant(&*self);
            lemma_toggled_membership(self.addrs@, addr);
            lemma_toggled_set(self.addrs@, addr);
        }
        let after = toggled_list(&self.addrs, addr);
        self.addrs = after;
    }

    /// Whether the set holds an address.
    pub fn contains(&self, addr: u16) -> (b: bool)
        ensures
            b == self@.contains(addr),
            b == self.members().contains(addr),
    {
        let mut i: usize = 0;
        while i < self.addrs.len()
            invariant
                i <= self.addrs.len(),
                forall|k: int| 0 <= k < i ==> self.addrs@[k] != addr,
            decreases self.addrs.len() - i,
        {
            if self.addrs[i] == addr {
                return true;
            }
            i += 1;
        }
        false
    }

    /// The addresses in the order in which they were set, none twice.
    pub fn to_vec(&self) -> (list: Vec<u16>)
        ensures
            list@ == self@,
            list@.no_duplicates(),
    {
        proof {
            use_type_invariant(self);
        }
        let list = self.addrs.clone();
        assert(list@ =~= self.addrs@);
        list
    }

    /// A set of the same addresses.
    pub fn copy(&self) -> (set: BreakpointSet)
        ensures
            set@ == self@,
    {
        proof {
            use_type_invariant(self);
        }
        let addrs = self.addrs.clone();
        assert(addrs@ =~= self.addrs@);
        BreakpointSet { addrs }
    }
}

} // verus!
