//! The console's mirror of the active user's simulation: the last memory
//! snapshot and run state that the controller reported for that user. Reports
//! for any other user leave the mirror as it is.

use vstd::prelude::*;
use crate::protocol::{SimStateUpdate, SimStateUpdateView};

verus! {

/// The register that holds the program counter.
pub const PC_ADDRESS: usize = 0x3c;

/// The mirrored state of the active user.
#[derive(Debug, Clone, PartialEq, Eq)]
pub struct SimState {
    /// The user's memory, word by word. Its length is fixed when the mirror is made.
    pub memory: Vec<u16>,
    pub running: bool,
    pub sleep: u32,
    pub defer: bool,
    pub debug_mode: bool,
    pub active_user: u64,
}

/// A mirror with its memory as a sequence.
pub struct SimStateView {
    pub memory: Seq<u16>,
    pub running: bool,
    pub sleep: u32,
    pub defer: bool,
    pub debug_mode: bool,
    pub active_user: u64,
}

impl View for SimState {
    type V = SimStateView;

    open spec fn view(&self) -> SimStateView {
        SimStateView {
            memory: self.memory@,
            running: self.running,
            sleep: self.sleep,
            defer: self.defer,
            debug_mode: self.debug_mode,
            active_user: self.active_user,
        }
    }
}

/// The memory after `words` were stored from `addr` on. Words that would fall
/// behind the end of the memory are dropped; the memory keeps its length.
pub open spec fn stored(memory: Seq<u16>, addr: int, words: Seq<u16>) -> Seq<u16> {
    Seq::new(
        memory.len(),
        |k: int|
            if addr <= k < addr + words.len() {
                words[k - addr]
            } else {
                memory[k]
            },
    )
}

/// The word at `addr`, or 0 behind the end of the memory.
pub open spec fn word_at(memory: Seq<u16>, addr: int) -> u16 {
    if 0 <= addr < memory.len() {
        memory[addr]
    } else {
        0
    }
}

/// The low 13 bits of a word.
pub open spec fn instruction_address(word: u16) -> u16 {
    word % 0x2000
}

impl SimStateView {
    /// The mirror after a report of words of `user`'s memory from `addr` on.
    pub open spec fn with_words(self, user: u64, addr: u16, words: Seq<u16>) -> SimStateView {
        if user == self.active_user {
            SimStateView { memory: stored(self.memory, addr as int, words), ..self }
        } else {
            self
        }
    }

    /// The mirror after a report of `user`'s run state.
    pub open spec fn with_update(self, user: u64, update: SimStateUpdateView) -> SimStateView {
        if user == self.active_user {
            SimStateView {
                running: update.running,
                debug_mode: update.debug_mode,
                sleep: update.sleep,
                defer: update.defer,
                ..self
            }
        } else {
            self
        }
    }

    /// The address of the instruction at which the program stands.
    pub open spec fn pc(self) -> u16 {
        instruction_address(word_at(self.memory, PC_ADDRESS as int))
    }

    /// Whether the program is being traced and has just carried out a step.
    pub open spec fn stepping(self) -> bool {
        self.debug_mode && self.sleep == 0 && self.running
    }
}

/// A full snapshot replaces the mirrored memory of its user as a whole.
pub proof fn lemma_snapshot_replaces(state: SimStateView, user: u64, snapshot: Seq<u16>)
    requires
        snapshot.len() == state.memory.len(),
    ensures
        user == state.active_user ==> state.with_words(user, 0, snapshot).memory == snapshot,
        user != state.active_user ==> state.with_words(user, 0, snapshot) == state,
{
    if user == state.active_user {
        assert(state.with_words(user, 0, snapshot).memory =~= snapshot);
    }
}

/// Words that were reported for the active user are in the mirror where they
/// were reported to be, as far as the mirror reaches; all other words of the
/// mirror stay.
pub proof fn lemma_stored_words(memory: Seq<u16>, addr: u16, words: Seq<u16>, i: int)
    requires
        0 <= i < memory.len(),
    ensures
        addr <= i < addr + words.len() ==> stored(memory, addr as int, words)[i] == words[i - addr],
        !(addr <= i < addr + words.len()) ==> stored(memory, addr as int, words)[i] == memory[i],
        stored(memory, addr as int, words).len() == memory.len(),
{
}

/// The mirror of `words` words of memory, all 0, for user 0, halted.
pub open spec fn blank_mirror(words: nat) -> SimStateView {
    SimStateView {
        memory: Seq::new(words, |k: int| 0u16),
        running: false,
        sleep: 0,
        defer: false,
        debug_mode: false,
        active_user: 0,
    }
}

impl SimState {
    /// A mirror of `words` words of memory, all 0, for user 0, halted.
    pub fn new(words: usize) -> (state: SimState)
        ensures
            state@ == blank_mirror(words as nat),
    {
        let memory: Vec<u16> = vec![0u16; words];
        assert(memory@ =~= Seq::new(words as nat, |k: int| 0u16));
        SimState {
            memory,
            running: false,
            sleep: 0,
            defer: false,
            debug_mode: false,
            active_user: 0,
        }
    }

    /// The word at `addr`, or 0 behind the end of the memory.
    pub fn word(&self, addr: usize) -> (w: u16)
        ensures
            w == word_at(self@.memory, addr as int),
    {
        if addr < self.memory.len() {
            self.memory[addr]
        } else {
            0
        }
    }

    /// The address of the instruction at which the program stands.
    pub fn pc(&self) -> (addr: u16)
        ensures
            addr == self@.pc(),
    {
        self.word(PC_ADDRESS) % 0x2000
    }

    /// Takes in a report of words of `user`'s memory from `addr` on.
    pub fn store(&mut self, user: u64, addr: u16, words: &Vec<u16>)
        ensures
            final(self)@ == old(self)@.with_words(user, addr, words@),
    {
        if user != self.active_user {
            return ;
        }
        let n = self.memory.len();
        let base: usize = addr as usize;
        let mut i: usize = 0;
        assert(self.memory@ =~= stored(old(self)@.memory, addr as int, words@.take(0)));
        while i < words.len() && base + i < n
            invariant
                i <= words.len(),
                n == self.memory.len(),
                base == addr,
                base + i <= usize::MAX,
                n <= usize::MAX,
                self.memory@ == stored(old(self)@.memory, addr as int, words@.take(i as int)),
                self.running == old(self).running,
                self.sleep == old(self).sleep,
                self.defer == old(self).defer,
                self.debug_mode == old(self).debug_mode,
                self.active_user == old(self).active_user,
            decreases words.len() - i,
        {
            self.memory[base + i] = words[i];
            assert(self.memory@ =~= stored(old(self)@.memory, addr as int, words@.take(i + 1)));
            i += 1;
        }
        assert(self.memory@ =~= stored(old(self)@.memory, addr as int, words@));
    }

    /// Takes in a report of `user`'s run state.
    pub fn update(&mut self, user: u64, update: &SimStateUpdate)
        ensures
            final(self)@ == old(self)@.with_update(user, update@),
    {
        if user == self.active_user {
            self.running = update.running;
            self.debug_mode = update.debug_mode;
            self.sleep = update.sleep;
            self.defer = update.defer;
        }
    }
}

} // verus!
