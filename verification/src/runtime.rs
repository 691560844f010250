//! The runtime: the loaded modules' function tables, the code pages emitted
//! for them, and the registry that keeps linked closures alive.
use vstd::prelude::*;
use crate::code::{closure_thunk, direct_thunk, CodePage, Operation, PageView, RawCall, Word};
use crate::code::{CLOSURE_THUNK_WORDS, DIRECT_THUNK_WORDS};
use crate::error::Error;
use crate::function::FunctionSlot;
use crate::module::{Module, ParsedModule};

verus! {

/// The environment that modules are parsed in and runtimes are created from.
#[derive(Clone, Copy, Debug, PartialEq, Eq, Structural)]
pub struct Environment {
    pub id: u64,
}

/// What a module is: its name and its function table.
pub struct ModuleView {
    pub name: Seq<char>,
    pub functions: Seq<FunctionSlot>,
}

/// A module's name and function table, as the engine's parser yields them.
#[derive(Debug)]
pub struct ModuleImage {
    pub name: String,
    pub functions: Vec<FunctionSlot>,
}

impl View for ModuleImage {
    type V = ModuleView;

    open spec fn view(&self) -> ModuleView {
        ModuleView { name: self.name@, functions: self.functions@ }
    }
}

/// A released page of the runtime `owner` whose closure words all refer to
/// registered closures.
pub open spec fn page_ok(page: PageView, owner: u64, closures: nat) -> bool {
    &&& page.owner == owner
    &&& page.released
    &&& page.words.len() <= page.capacity
    &&& forall|i: int|
        0 <= i < page.words.len() ==> (#[trigger] page.words[i] matches Word::Closure(k) ==> k < closures)
}

/// A slot whose compiled entry, if set, lies in an existing page, and whose
/// owning module, if set, is a loaded one.
pub open spec fn slot_ok(slot: FunctionSlot, pages: nat, modules: nat) -> bool {
    &&& slot.compiled matches Some(p) ==> p < pages
    &&& slot.module matches Some(m) ==> m < modules
}

/// What a runtime is.
pub struct RuntimeView<C> {
    pub id: u64,
    pub environment: Environment,
    pub stack_slots: u32,
    /// The words that the code-page allocator can still hand out.
    pub free_words: nat,
    /// The released code pages, in the order of their emission.
    pub pages: Seq<PageView>,
    /// The registered closures, in the order of their registration.
    pub closures: Seq<C>,
    /// The loaded modules, in the order of their loading.
    pub modules: Seq<ModuleView>,
}

impl<C> RuntimeView<C> {
    /// Every page is released, owned by this runtime and refers only to
    /// registered closures, and every linked slot points into an existing
    /// page.
    pub open spec fn wf(self) -> bool {
        &&& forall|p: int| 0 <= p < self.pages.len() ==> page_ok(#[trigger] self.pages[p], self.id, self.closures.len())
        &&& forall|m: int, f: int|
            0 <= m < self.modules.len() && 0 <= f < self.modules[m].functions.len() ==> slot_ok(
                #[trigger] self.modules[m].functions[f],
                self.pages.len(),
                self.modules.len(),
            )
    }

    /// The slot `slot` of module `module`, wired to the page that will be
    /// emitted next.
    pub open spec fn wired(self, module: int, slot: int) -> Seq<ModuleView> {
        self.modules.update(
            module,
            ModuleView {
                functions: self.modules[module].functions.update(
                    slot,
                    FunctionSlot {
                        compiled: Some(self.pages.len() as usize),
                        module: Some(module as usize),
                        ..self.modules[module].functions[slot]
                    },
                ),
                ..self.modules[module]
            },
        )
    }

    /// The runtime after a direct-call trampoline for `f` was installed in
    /// slot `slot` of module `module`.
    pub open spec fn linked_function(self, module: int, slot: int, f: RawCall) -> RuntimeView<C> {
        RuntimeView {
            free_words: (self.free_words - DIRECT_THUNK_WORDS) as nat,
            pages: self.pages.push(
                PageView {
                    owner: self.id,
                    capacity: DIRECT_THUNK_WORDS as nat,
                    words: direct_thunk(f),
                    released: true,
                },
            ),
            modules: self.wired(module, slot),
            ..self
        }
    }

    /// The runtime after `closure` was registered and a trampoline that
    /// invokes `shim` with it was installed in slot `slot` of module `module`.
    pub open spec fn linked_closure(self, module: int, slot: int, shim: usize, closure: C) -> RuntimeView<C> {
        RuntimeView {
            free_words: (self.free_words - CLOSURE_THUNK_WORDS) as nat,
            pages: self.pages.push(
                PageView {
                    owner: self.id,
                    capacity: CLOSURE_THUNK_WORDS as nat,
                    words: closure_thunk(shim, self.closures.len() as usize),
                    released: true,
                },
            ),
            closures: self.closures.push(closure),
            modules: self.wired(module, slot),
            ..self
        }
    }
}

/// A running instance of the engine, as far as linking is concerned.
pub struct Runtime<C> {
    id: u64,
    environment: Environment,
    stack_slots: u32,
    free_words: usize,
    pages: Vec<CodePage>,
    closures: Vec<C>,
    modules: Vec<ModuleImage>,
}

impl<C> View for Runtime<C> {
    type V = RuntimeView<C>;

    closed spec fn view(&self) -> RuntimeView<C> {
        RuntimeView {
            id: self.id,
            environment: self.environment,
            stack_slots: self.stack_slots,
            free_words: self.free_words as nat,
            pages: Seq::new(self.pages@.len(), |i: int| self.pages@[i]@),
            closures: self.closures@,
            modules: Seq::new(self.modules@.len(), |i: int| self.modules@[i]@),
        }
    }
}

impl<C> Runtime<C> {
    /// The runtime's invariant.
    pub open spec fn wf(&self) -> bool {
        self@.wf()
    }

    /// A runtime of `environment` with no module, page or closure, whose
    /// allocator can hand out `code_words` words in all.
    pub fn new(environment: &Environment, id: u64, stack_slots: u32, code_words: usize) -> (rt: Runtime<C>)
        ensures
            rt@ == (RuntimeView::<C> {
                id,
                environment: *environment,
                stack_slots,
                free_words: code_words as nat,
                pages: Seq::empty(),
                closures: Seq::empty(),
                modules: Seq::empty(),
            }),
            rt.wf(),
    {
        let rt = Runtime {
            id,
            environment: *environment,
            stack_slots,
            free_words: code_words,
            pages: Vec::new(),
            closures: Vec::new(),
            modules: Vec::new(),
        };
        assert(rt@.pages =~= Seq::empty());
        assert(rt@.modules =~= Seq::empty());
        rt
    }

    /// Asks the allocator for an open page of `capacity` words. Where fewer
    /// words are free it hands out none and nothing changes.
    fn acquire_code_page(&mut self, capacity: usize) -> (page: Option<CodePage>)
        ensures
            if capacity > old(self)@.free_words {
                &&& page.is_none()
                &&& final(self)@ == old(self)@
            } else {
                &&& page matches Some(p)
                &&& p.wf()
                &&& p@ == (PageView {
                    owner: old(self)@.id,
                    capacity: capacity as nat,
                    words: Seq::empty(),
                    released: false,
                })
                &&& final(self)@ == (RuntimeView {
                    free_words: (old(self)@.free_words - capacity) as nat,
                    ..old(self)@
                })
            },
    {
        if capacity > self.free_words {
            return None;
        }
        self.free_words = self.free_words - capacity;
        Some(CodePage::with_capacity(self.id, capacity))
    }

    /// Sets the compiled entry of the slot to the start of the page that will
    /// be released next, and its owning module to `module`.
    fn wire_slot(&mut self, module: usize, slot: usize)
        requires
            module < old(self)@.modules.len(),
            slot < old(self)@.modules[module as int].functions.len(),
        ensures
            final(self)@ == (RuntimeView { modules: old(self)@.wired(module as int, slot as int), ..old(self)@ }),
    {
        let entry = self.pages.len();
        self.modules[module].functions[slot].compiled = Some(entry);
        self.modules[module].functions[slot].module = Some(module);
        proof {
            let after = old(self)@.wired(module as int, slot as int);
            assert(self.modules@.len() == old(self).modules@.len());
            assert(forall|m: int|
                0 <= m < self.modules@.len() && m != module ==> self.modules@[m] == old(self).modules@[m]);
            assert(self.modules@[module as int].name == old(self).modules@[module as int].name);
            assert(self.modules@[module as int].functions@ =~= after[module as int].functions);
            assert(self@.modules[module as int] == after[module as int]);
            assert(self@.modules =~= after);
            assert(self@.pages =~= old(self)@.pages);
        }
    }

    /// Seals a page and files it behind the pages released before.
    fn release_code_page(&mut self, page: CodePage)
        ensures
            final(self)@ == (RuntimeView {
                pages: old(self)@.pages.push(PageView { released: true, ..page@ }),
                ..old(self)@
            }),
    {
        let mut page = page;
        page.release();
        self.pages.push(page);
        proof {
            assert(self@.pages =~= old(self)@.pages.push(PageView { released: true, ..page@ }));
            assert(self@.modules =~= old(self)@.modules);
        }
    }

    /// Installs a direct-call trampoline for `f` in slot `slot` of module
    /// `module`. Fails with `OutOfMemory`, leaving everything as it was, where
    /// the allocator cannot hand out a page of two words.
    pub(crate) fn link_func_impl(&mut self, module: usize, slot: usize, f: RawCall) -> (r: Result<(), Error>)
        requires
            old(self).wf(),
            module < old(self)@.modules.len(),
            slot < old(self)@.modules[module as int].functions.len(),
        ensures
            final(self).wf(),
            if old(self)@.free_words < DIRECT_THUNK_WORDS {
                &&& r == Err::<(), Error>(Error::OutOfMemory)
                &&& final(self)@ == old(self)@
            } else {
                &&& r == Ok::<(), Error>(())
                &&& final(self)@ == old(self)@.linked_function(module as int, slot as int, f)
            },
    {
        let mut page = match self.acquire_code_page(DIRECT_THUNK_WORDS) {
            Some(page) => page,
            None => {
                return Err(Error::OutOfMemory);
            },
        };
        self.wire_slot(module, slot);
        page.emit_word(Word::Op(Operation::CallRawFunction));
        page.emit_word(Word::Address(f.address));
        assert(page@.words =~= direct_thunk(f));
        self.release_code_page(page);
        Ok(())
    }

    /// Registers `closure` and installs, in slot `slot` of module `module`, a
    /// trampoline that invokes `shim` with it. Fails with `OutOfMemory` where
    /// the allocator cannot hand out a page of three words: the closure is
    /// then dropped unregistered and everything is left as it was.
    pub(crate) fn link_closure_impl(&mut self, module: usize, slot: usize, shim: usize, closure: C) -> (r:
        Result<(), Error>)
        requires
            old(self).wf(),
            module < old(self)@.modules.len(),
            slot < old(self)@.modules[module as int].functions.len(),
        ensures
            final(self).wf(),
            if old(self)@.free_words < CLOSURE_THUNK_WORDS {
                &&& r == Err::<(), Error>(Error::OutOfMemory)
                &&& final(self)@ == old(self)@
            } else {
                &&& r == Ok::<(), Error>(())
                &&& final(self)@ == old(self)@.linked_closure(module as int, slot as int, shim, closure)
            },
    {
        let mut page = match self.acquire_code_page(CLOSURE_THUNK_WORDS) {
            Some(page) => page,
            None => {
                return Err(Error::OutOfMemory);
            },
        };
        self.wire_slot(module, slot);
        let place = self.push_closure(closure);
        page.emit_word(Word::Op(Operation::CallRawFunctionEx));
        page.emit_word(Word::Address(shim));
        page.emit_word(Word::Closure(place));
        assert(page@.words =~= closure_thunk(shim, place));
        self.release_code_page(page);
        Ok(())
    }

    /// Appends a closure to the registry and returns its place there. The
    /// registry only grows: the place stays the closure's for good.
    fn push_closure(&mut self, closure: C) -> (place: usize)
        ensures
            place == old(self)@.closures.len(),
            final(self)@ == (RuntimeView { closures: old(self)@.closures.push(closure), ..old(self)@ }),
    {
        let place = self.closures.len();
        self.closures.push(closure);
        proof {
            assert(self@.pages =~= old(self)@.pages);
            assert(self@.modules =~= old(self)@.modules);
        }
        place
    }

    /// Registers a parsed module with this runtime and hands out the token
    /// for it. A module parsed in another environment is refused with
    /// `RuntimeMismatch`, and the runtime is left as it was.
    pub fn load_module(&mut self, module: ParsedModule) -> (r: Result<Module, Error>)
        requires
            old(self).wf(),
        ensures
            final(self).wf(),
            if module.spec_environment() != old(self)@.environment {
                &&& r == Err::<Module, Error>(Error::RuntimeMismatch)
                &&& final(self)@ == old(self)@
            } else {
                &&& r matches Ok(token)
                &&& token.spec_runtime() == old(self)@.id
                &&& token.spec_index() == old(self)@.modules.len()
                &&& token.belongs_to(final(self)@)
                &&& final(self)@ == (RuntimeView { modules: old(self)@.modules.push(module@), ..old(self)@ })
            },
    {
        if module.environment().id != self.environment.id {
            return Err(Error::RuntimeMismatch);
        }
        let index = self.modules.len();
        let image = module.into_image();
        self.modules.push(image);
        proof {
            assert(self@.pages =~= old(self)@.pages);
            assert(self@.modules =~= old(self)@.modules.push(module@));
        }
        Ok(Module::from_raw(self.id, index))
    }

    /// Ends the runtime and hands back every registered closure, each once,
    /// in the order of registration, for the caller to drop.
    pub fn destroy(self) -> (closures: Vec<C>)
        ensures
            closures@ == self@.closures,
    {
        self.closures
    }

    /// The identity of this runtime.
    pub fn id(&self) -> (id: u64)
        ensures
            id == self@.id,
    {
        self.id
    }

    /// The environment that this runtime was created from.
    pub fn environment(&self) -> (e: &Environment)
        ensures
            *e == self@.environment,
    {
        &self.environment
    }

    /// The number of slots of the value stack.
    pub fn stack_slots(&self) -> (n: u32)
        ensures
            n == self@.stack_slots,
    {
        self.stack_slots
    }

    /// The words that the code-page allocator can still hand out.
    pub fn free_code_words(&self) -> (n: usize)
        ensures
            n == self@.free_words,
    {
        self.free_words
    }

    /// The number of code pages emitted so far.
    pub fn page_count(&self) -> (n: usize)
        ensures
            n == self@.pages.len(),
    {
        self.pages.len()
    }

    /// The code page at `index`.
    pub fn page(&self, index: usize) -> (page: &CodePage)
        requires
            index < self@.pages.len(),
        ensures
            page@ == self@.pages[index as int],
    {
        &self.pages[index]
    }

    /// The number of registered closures.
    pub fn closure_count(&self) -> (n: usize)
        ensures
            n == self@.closures.len(),
    {
        self.closures.len()
    }

    /// The closure registered at `place`.
    pub fn closure(&self, place: usize) -> (closure: &C)
        requires
            place < self@.closures.len(),
        ensures
            *closure == self@.closures[place as int],
    {
        &self.closures[place]
    }

    /// The number of loaded modules.
    pub fn module_count(&self) -> (n: usize)
        ensures
            n == self@.modules.len(),
    {
        self.modules.len()
    }

    /// The function table of the module at `module`.
    pub fn functions(&self, module: usize) -> (table: &Vec<FunctionSlot>)
        requires
            module < self@.modules.len(),
        ensures
            table@ == self@.modules[module as int].functions,
    {
        &self.modules[module].functions
    }

    /// The name of the module at `module`.
    pub fn module_name(&self, module: usize) -> (name: &str)
        requires
            module < self@.modules.len(),
        ensures
            name@ == self@.modules[module as int].name,
    {
        self.modules[module].name.as_str()
    }
}

/// Linking keeps the runtime's invariant and the registry: a direct link
/// leaves the registry as it is, and a closure link appends the closure and
/// moves no closure registered before it.
pub proof fn lemma_linking_keeps_registry<C>(
    rt: RuntimeView<C>,
    module: int,
    slot: int,
    f: RawCall,
    shim: usize,
    closure: C,
)
    requires
        rt.wf(),
        0 <= module < rt.modules.len() <= usize::MAX,
        0 <= slot < rt.modules[module].functions.len(),
        rt.pages.len() < usize::MAX,
        rt.closures.len() < usize::MAX,
    ensures
        rt.linked_function(module, slot, f).wf(),
        rt.linked_function(module, slot, f).closures == rt.closures,
        rt.linked_closure(module, slot, shim, closure).wf(),
        rt.linked_closure(module, slot, shim, closure).closures.len() == rt.closures.len() + 1,
        forall|k: int|
            0 <= k < rt.closures.len() ==> rt.linked_closure(module, slot, shim, closure).closures[k]
                == rt.closures[k],
{
}

/// After a link the slot's compiled entry is the page emitted for it: for a
/// native function, the two words that invoke exactly that function; for a
/// closure, the three words that invoke the shim with exactly the closure
/// that was registered by the link.
pub proof fn lemma_linked_slot_enters_thunk<C>(
    rt: RuntimeView<C>,
    module: int,
    slot: int,
    f: RawCall,
    shim: usize,
    closure: C,
)
    requires
        0 <= module < rt.modules.len(),
        0 <= slot < rt.modules[module].functions.len(),
        rt.pages.len() <= usize::MAX,
        rt.closures.len() <= usize::MAX,
    ensures
        ({
            let after = rt.linked_function(module, slot, f);
            &&& after.modules[module].functions[slot].compiled matches Some(entry)
            &&& entry < after.pages.len()
            &&& after.pages[entry as int].words == direct_thunk(f)
        }),
        ({
            let after = rt.linked_closure(module, slot, shim, closure);
            &&& after.modules[module].functions[slot].compiled matches Some(entry)
            &&& entry < after.pages.len()
            &&& after.pages[entry as int].words == closure_thunk(shim, rt.closures.len() as usize)
            &&& after.closures[rt.closures.len() as int] == closure
        }),
{
}

/// A link changes no slot but the one it is made to, and of that slot only
/// the compiled entry and the owning module.
pub proof fn lemma_link_touches_one_slot<C>(rt: RuntimeView<C>, module: int, slot: int, m: int, s: int)
    requires
        0 <= module < rt.modules.len(),
        0 <= slot < rt.modules[module].functions.len(),
        0 <= m < rt.modules.len(),
        0 <= s < rt.modules[m].functions.len(),
    ensures
        rt.wired(module, slot).len() == rt.modules.len(),
        rt.wired(module, slot)[m].name == rt.modules[m].name,
        rt.wired(module, slot)[m].functions.len() == rt.modules[m].functions.len(),
        (m != module || s != slot) ==> rt.wired(module, slot)[m].functions[s] == rt.modules[m].functions[s],
        rt.wired(module, slot)[module].functions[slot].name == rt.modules[module].functions[slot].name,
        rt.wired(module, slot)[module].functions[slot].import == rt.modules[module].functions[slot].import,
        rt.wired(module, slot)[module].functions[slot].signature == rt.modules[module].functions[slot].signature,
{
}

} // verus!
