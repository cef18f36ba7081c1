//! What the controller's steps do to a store of words.
//!
//! The console expects one thing of the engine's memory: a word that is
//! written for a user at an address is the word that is read there for that
//! user until another is written. A store is a memory of which this holds and
//! nothing else; the laws of this file say what the controller's steps write
//! to such a store, and for whom.

use vstd::prelude::*;
use crate::console::address_after;
use crate::controller::{resnapshot, ship_report, ControllerView};
use crate::engine::{own_call, own_emit, EngineReplyView, EngineRequestView, EntryView, StepView};
use crate::protocol::{SimCommandView, SimOutputView};

verus! {

/// A store: the word that was last written for a user at an address.
pub type Store = Map<(u64, u16), u16>;

/// The word that a store holds for a user at an address, if one was written.
pub open spec fn word_of(store: Store, user: u64, addr: u16) -> Option<u16> {
    if store.dom().contains((user, addr)) {
        Some(store[(user, addr)])
    } else {
        None
    }
}

/// The store after a step was taken: a request to write puts its word in; no
/// other step writes.
pub open spec fn after_step(store: Store, entry: EntryView) -> Store {
    match entry.step {
        StepView::Call(EngineRequestView::Write(user, addr, value)) => store.insert(
            (user, addr),
            value,
        ),
        _ => store,
    }
}

/// The store after the steps of a list were taken, first to last.
pub open spec fn after_steps(store: Store, steps: Seq<EntryView>) -> Store
    decreases steps.len(),
{
    if steps.len() == 0 {
        store
    } else {
        after_step(after_steps(store, steps.drop_last()), steps.last())
    }
}

/// Steps that are taken one list after the other are taken as one list.
pub proof fn lemma_after_steps_of_both(store: Store, first: Seq<EntryView>, second: Seq<EntryView>)
    ensures
        after_steps(store, first + second) == after_steps(after_steps(store, first), second),
    decreases second.len(),
{
    if second.len() == 0 {
        assert(first + second =~= first);
    } else {
        lemma_after_steps_of_both(store, first, second.drop_last());
        assert((first + second).drop_last() =~= first + second.drop_last());
        assert((first + second).last() == second.last());
    }
}

/// The steps that write `values` for `user` from `addr` on.
pub open spec fn write_steps(user: u64, addr: u16, values: Seq<u16>) -> Seq<EntryView> {
    Seq::new(
        values.len(),
        |i: int| own_call(EngineRequestView::Write(user, address_after(addr, i), values[i])),
    )
}

/// Steps that write for one user leave what the store holds for every other.
pub proof fn lemma_writes_are_for_their_user(
    store: Store,
    user: u64,
    addr: u16,
    values: Seq<u16>,
    other: u64,
    at: u16,
)
    requires
        other != user,
    ensures
        word_of(after_steps(store, write_steps(user, addr, values)), other, at) == word_of(
            store,
            other,
            at,
        ),
    decreases values.len(),
{
    let steps = write_steps(user, addr, values);
    if values.len() > 0 {
        assert(steps.drop_last() =~= write_steps(user, addr, values.drop_last()));
        lemma_writes_are_for_their_user(store, user, addr, values.drop_last(), other, at);
    }
}

/// After the steps that write `values` from `addr` on, the store holds each
/// of the values at its address, where the values are no more than there are
/// addresses.
pub proof fn lemma_writes_are_stored(store: Store, user: u64, addr: u16, values: Seq<u16>, i: int)
    requires
        0 <= i < values.len() <= 0x10000,
    ensures
        word_of(
            after_steps(store, write_steps(user, addr, values)),
            user,
            address_after(addr, i),
        ) == Some(values[i]),
    decreases values.len(),
{
    let steps = write_steps(user, addr, values);
    let last = values.len() - 1;
    assert(steps.drop_last() =~= write_steps(user, addr, values.drop_last()));
    assert(steps.last() == own_call(
        EngineRequestView::Write(user, address_after(addr, last), values[last]),
    ));
    if i < last {
        lemma_writes_are_stored(store, user, addr, values.drop_last(), i);
        assert(address_after(addr, i) != address_after(addr, last));
    }
}

/// The steps that close a command and a wake write nothing.
pub proof fn lemma_closing_steps_write_nothing(store: Store, user: u64)
    ensures
        after_steps(store, resnapshot(user) + ship_report(user)) == store,
{
    let steps = resnapshot(user) + ship_report(user);
    assert(steps.len() == 3);
    assert(steps.drop_last().drop_last().drop_last() =~= Seq::<EntryView>::empty());
    reveal_with_fuel(after_steps, 4);
}

/// When the snapshot that follows a `WriteAll` is taken, the store holds
/// for the active user each of the words at its address, the word at index
/// `i` at the address `i` behind the first, and holds for every other user
/// what it held before.
pub proof fn lemma_write_all_shows_in_snapshot(
    c: ControllerView,
    store: Store,
    addr: u16,
    values: Seq<u16>,
)
    requires
        values.len() <= 0x10000,
    ensures
        ({
            let command = SimCommandView::WriteAll(addr, values);
            let before_snapshot = after_steps(store, c.own_work(command));
            let after = after_steps(store, c.script(command));
            &&& c.script(command) == c.own_work(command) + (resnapshot(c.active_user)
                + ship_report(c.active_user))
            &&& after == before_snapshot
            &&& forall|i: int|
                0 <= i < values.len() ==> word_of(
                    before_snapshot,
                    c.active_user,
                    #[trigger] address_after(addr, i),
                ) == Some(values[i])
            &&& forall|other: u64, at: u16|
                other != c.active_user ==> #[trigger] word_of(before_snapshot, other, at)
                    == word_of(store, other, at)
        }),
{
    let command = SimCommandView::WriteAll(addr, values);
    let user = c.active_user;
    let own = c.own_work(command);
    assert(own =~= write_steps(user, addr, values));
    assert(c.script(command) =~= own + (resnapshot(user) + ship_report(user)));
    lemma_after_steps_of_both(store, own, resnapshot(user) + ship_report(user));
    lemma_closing_steps_write_nothing(after_steps(store, own), user);
    assert forall|i: int| 0 <= i < values.len() implies word_of(
        after_steps(store, own),
        user,
        #[trigger] address_after(addr, i),
    ) == Some(values[i]) by {
        lemma_writes_are_stored(store, user, addr, values, i);
    }
    assert forall|other: u64, at: u16| other != user implies #[trigger] word_of(
        after_steps(store, own),
        other,
        at,
    ) == word_of(store, other, at) by {
        lemma_writes_are_for_their_user(store, user, addr, values, other, at);
    }
}

/// A word that is written for a user is still in the store for that user
/// after the active user was changed and changed back, and the request to
/// read it then is a request for that user's word at that address. The
/// answer is reported as that user's word.
pub proof fn lemma_written_word_survives_user_switch(
    c: ControllerView,
    store: Store,
    user: u64,
    other: u64,
    addr: u16,
    value: u16,
)
    ensures
        ({
            let commands = seq![
                SimCommandView::SetUser(user),
                SimCommandView::Write(addr, value),
                SimCommandView::SetUser(other),
                SimCommandView::SetUser(user),
            ];
            let back = c.after_commands(commands);
            let after = after_steps(store, c.scripts(commands));
            &&& back.active_user == user
            &&& word_of(after, user, addr) == Some(value)
            &&& back.own_work(SimCommandView::Read(addr)) == seq![
                own_call(EngineRequestView::Read(user, addr)),
            ]
            &&& back.after_reply(
                EngineRequestView::Read(user, addr),
                EngineReplyView::Word(value),
            ).queue[0] == own_emit(SimOutputView::MemoryValue(user, addr, value))
        }),
{
    let c1 = SimCommandView::SetUser(user);
    let c2 = SimCommandView::Write(addr, value);
    let c3 = SimCommandView::SetUser(other);
    let c4 = SimCommandView::SetUser(user);
    let commands = seq![c1, c2, c3, c4];
    let one = seq![c1];
    let two = seq![c1, c2];
    let three = seq![c1, c2, c3];
    assert(commands.drop_last() =~= three);
    assert(three.drop_last() =~= two);
    assert(two.drop_last() =~= one);
    assert(one.drop_last() =~= Seq::<SimCommandView>::empty());
    reveal_with_fuel(ControllerView::after_commands, 5);
    reveal_with_fuel(ControllerView::scripts, 5);
    let s1 = c.after_commands(one);
    let s2 = c.after_commands(two);
    let s3 = c.after_commands(three);
    assert(s1 == c.after_command(c1));
    assert(s2 == s1.after_command(c2));
    assert(s3 == s2.after_command(c3));
    assert(s1.active_user == user && s2.active_user == user && s3.active_user == other);
    let t1 = c.script(c1);
    let t2 = s1.script(c2);
    let t3 = s2.script(c3);
    let t4 = s3.script(c4);
    assert(c.scripts(one) =~= t1);
    assert(c.scripts(two) =~= t1 + t2);
    assert(c.scripts(three) =~= t1 + t2 + t3);
    assert(c.scripts(commands) =~= t1 + t2 + t3 + t4);
    lemma_after_steps_of_both(store, t1 + t2 + t3, t4);
    lemma_after_steps_of_both(store, t1 + t2, t3);
    lemma_after_steps_of_both(store, t1, t2);
    lemma_switch_writes_nothing(store, c, user);
    let m1 = after_steps(store, t1);
    assert(m1 == store);
    lemma_write_is_stored(m1, s1, addr, value);
    let m2 = after_steps(m1, t2);
    lemma_switch_writes_nothing(m2, s2, other);
    let m3 = after_steps(m2, t3);
    lemma_switch_writes_nothing(m3, s3, user);
}

/// The steps of a change of user write nothing.
pub proof fn lemma_switch_writes_nothing(store: Store, c: ControllerView, user: u64)
    ensures
        after_steps(store, c.script(SimCommandView::SetUser(user))) == store,
{
    let steps = c.script(SimCommandView::SetUser(user));
    assert(steps.len() == 4);
    assert(steps.drop_last().drop_last().drop_last().drop_last() =~= Seq::<EntryView>::empty());
    reveal_with_fuel(after_steps, 5);
}

/// The steps of a `Write` put its word into the store for the active user.
pub proof fn lemma_write_is_stored(store: Store, c: ControllerView, addr: u16, value: u16)
    ensures
        after_steps(store, c.script(SimCommandView::Write(addr, value))) == store.insert(
            (c.active_user, addr),
            value,
        ),
{
    let steps = c.script(SimCommandView::Write(addr, value));
    assert(steps.len() == 4);
    assert(steps.drop_last().drop_last().drop_last().drop_last() =~= Seq::<EntryView>::empty());
    reveal_with_fuel(after_steps, 5);
}

} // verus!
