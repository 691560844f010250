//! Code pages and the trampolines that are written into them.
use vstd::prelude::*;

verus! {

/// The operations that a trampoline's first word can name.
#[derive(Clone, Copy, Debug, PartialEq, Eq, Structural)]
pub enum Operation {
    /// Invoke a raw native function.
    CallRawFunction,
    /// Invoke the marshalling shim with captured closure state.
    CallRawFunctionEx,
}

/// One machine word of a code page.
#[derive(Clone, Copy, Debug, PartialEq, Eq, Structural)]
pub enum Word {
    /// An operation tag.
    Op(Operation),
    /// The address of a native routine.
    Address(usize),
    /// A closure, by its place in the owning runtime's registry.
    Closure(usize),
}

/// The address of a native function that the engine may call directly.
#[derive(Clone, Copy, Debug, PartialEq, Eq, Structural)]
pub struct RawCall {
    pub address: usize,
}

/// The words of the trampoline that invokes the native function `f`.
pub open spec fn direct_thunk(f: RawCall) -> Seq<Word> {
    seq![Word::Op(Operation::CallRawFunction), Word::Address(f.address)]
}

/// The words of the trampoline that invokes `shim` with the closure at
/// `closure` in the registry.
pub open spec fn closure_thunk(shim: usize, closure: usize) -> Seq<Word> {
    seq![Word::Op(Operation::CallRawFunctionEx), Word::Address(shim), Word::Closure(closure)]
}

/// The word capacity that a direct-call trampoline needs.
pub const DIRECT_THUNK_WORDS: usize = 2;

/// The word capacity that a closure trampoline needs.
pub const CLOSURE_THUNK_WORDS: usize = 3;

/// What a code page is: the runtime that owns it, its capacity, the words
/// emitted so far, and whether it has been released.
pub struct PageView {
    pub owner: u64,
    pub capacity: nat,
    pub words: Seq<Word>,
    pub released: bool,
}

/// A region of executable memory with a capacity in words. Words are appended
/// while the page is open; once released it never changes again.
#[derive(Debug)]
pub struct CodePage {
    owner: u64,
    capacity: usize,
    words: Vec<Word>,
    released: bool,
}

impl View for CodePage {
    type V = PageView;

    closed spec fn view(&self) -> PageView {
        PageView {
            owner: self.owner,
            capacity: self.capacity as nat,
            words: self.words@,
            released: self.released,
        }
    }
}

impl CodePage {
    /// A page never holds more words than its capacity.
    pub open spec fn wf(&self) -> bool {
        self@.words.len() <= self@.capacity
    }

    /// An open, empty page of the given capacity, owned by the runtime `owner`.
    pub fn with_capacity(owner: u64, capacity: usize) -> (page: CodePage)
        ensures
            page@ == (PageView { owner, capacity: capacity as nat, words: Seq::empty(), released: false }),
            page.wf(),
    {
        CodePage { owner, capacity, words: Vec::new(), released: false }
    }

    /// The identity of the runtime that owns the page.
    pub fn owner(&self) -> (id: u64)
        ensures
            id == self@.owner,
    {
        self.owner
    }

    /// Appends one word to an open page that has room for it.
    pub fn emit_word(&mut self, word: Word)
        requires
            old(self).wf(),
            !old(self)@.released,
            old(self)@.words.len() < old(self)@.capacity,
        ensures
            final(self)@ == (PageView { words: old(self)@.words.push(word), ..old(self)@ }),
            final(self).wf(),
    {
        self.words.push(word);
    }

    /// Seals the page: no word can be emitted afterwards.
    pub fn release(&mut self)
        ensures
            final(self)@ == (PageView { released: true, ..old(self)@ }),
    {
        self.released = true;
    }

    /// The capacity in words.
    pub fn capacity(&self) -> (c: usize)
        ensures
            c == self@.capacity,
    {
        self.capacity
    }

    /// The number of words emitted so far.
    pub fn len(&self) -> (n: usize)
        ensures
            n == self@.words.len(),
    {
        self.words.len()
    }

    /// The word at `index`, where one has been emitted there.
    pub fn word(&self, index: usize) -> (w: Option<Word>)
        ensures
            index < self@.words.len() ==> w == Some(self@.words[index as int]),
            index >= self@.words.len() ==> w.is_none(),
    {
        if index < self.words.len() {
            Some(self.words[index])
        } else {
            None
        }
    }

    /// Whether the page has been released.
    pub fn is_released(&self) -> (b: bool)
        ensures
            b == self@.released,
    {
        self.released
    }
}

} // verus!
