//! Parsed modules, and the token of a module that was loaded into a runtime:
//! lookup of its functions and linking of host functions to its imports.
use vstd::prelude::*;
use crate::code::{RawCall, CLOSURE_THUNK_WORDS, DIRECT_THUNK_WORDS};
use crate::error::Error;
use crate::function::{find_import_function, find_named_function, function_at};
use crate::function::{first_import, first_named, is_first_import, is_first_named};
use crate::function::{lemma_first_import, lemma_first_named};
use crate::function::{no_import, none_named, FunctionSlot};
use crate::runtime::{Environment, ModuleImage, ModuleView, Runtime, RuntimeView};
use crate::signature::Signature;

verus! {

/// The largest byte length that the engine's parser accepts.
pub const MODULE_SIZE_LIMIT: usize = 0xffff_ffff;

/// No slot of the table has been linked.
pub open spec fn all_unlinked(functions: Seq<FunctionSlot>) -> bool {
    forall|i: int|
        0 <= i < functions.len() ==> (#[trigger] functions[i]).compiled.is_none() && functions[i].module.is_none()
}

/// The slot with its link taken off.
pub open spec fn unlinked_slot(slot: FunctionSlot) -> FunctionSlot {
    FunctionSlot { compiled: None, module: None, ..slot }
}

/// The image with the link taken off every slot.
pub open spec fn unlinked(image: ModuleView) -> ModuleView {
    ModuleView { functions: image.functions.map_values(|slot: FunctionSlot| unlinked_slot(slot)), ..image }
}

/// Takes the link off every slot of the table.
fn unlink_all(functions: &mut Vec<FunctionSlot>)
    ensures
        final(functions)@ == old(functions)@.map_values(|slot: FunctionSlot| unlinked_slot(slot)),
{
    let mut i: usize = 0;
    while i < functions.len()
        invariant
            i <= functions@.len(),
            functions@.len() == old(functions)@.len(),
            forall|j: int| 0 <= j < i ==> functions@[j] == unlinked_slot(old(functions)@[j]),
            forall|j: int| i <= j < functions@.len() ==> functions@[j] == old(functions)@[j],
        decreases functions@.len() - i,
    {
        functions[i].compiled = None;
        functions[i].module = None;
        i += 1;
    }
    assert(functions@ =~= old(functions)@.map_values(|slot: FunctionSlot| unlinked_slot(slot)));
}

/// A parsed module which can be loaded into a runtime.
pub struct ParsedModule {
    env: Environment,
    image: ModuleImage,
}

impl View for ParsedModule {
    type V = ModuleView;

    closed spec fn view(&self) -> ModuleView {
        self.image@
    }
}

impl ParsedModule {
    /// The environment this module was parsed in.
    pub closed spec fn spec_environment(&self) -> Environment {
        self.env
    }

    #[verifier::type_invariant]
    spec fn unlinked_inv(&self) -> bool {
        all_unlinked(self.image@.functions)
    }

    /// Parses a module from raw bytes.
    ///
    /// A module longer than `MODULE_SIZE_LIMIT` bytes is refused with
    /// `ModuleTooLarge`. Otherwise `parser` is called with the byte length,
    /// and what it reports is passed on: its error, or the module it yields,
    /// with every slot unlinked.
    pub fn parse<P: FnOnce(u32) -> Result<ModuleImage, Error>>(env: &Environment, bytes: &[u8], parser: P) -> (r:
        Result<ParsedModule, Error>)
        requires
            bytes@.len() <= MODULE_SIZE_LIMIT ==> parser.requires((bytes@.len() as u32,)),
        ensures
            bytes@.len() > MODULE_SIZE_LIMIT ==> r == Err::<ParsedModule, Error>(Error::ModuleTooLarge),
            bytes@.len() <= MODULE_SIZE_LIMIT ==> exists|parsed: Result<ModuleImage, Error>| #[trigger]
                parser.ensures((bytes@.len() as u32,), parsed) && parse_outcome(*env, parsed, r),
    {
        if bytes.len() > MODULE_SIZE_LIMIT {
            return Err(Error::ModuleTooLarge);
        }
        let parsed = parser(bytes.len() as u32);
        let r = ParsedModule::from_parsed(env, parsed);
        assert(parser.ensures((bytes@.len() as u32,), parsed) && parse_outcome(*env, parsed, r));
        r
    }

    /// Turns what the engine's parser reported into a parsed module of `env`:
    /// its error is passed on, and the module it yields has every slot unlinked.
    pub fn from_parsed(env: &Environment, parsed: Result<ModuleImage, Error>) -> (r: Result<ParsedModule, Error>)
        ensures
            parse_outcome(*env, parsed, r),
    {
        match parsed {
            Ok(image) => {
                let mut image = image;
                unlink_all(&mut image.functions);
                Ok(ParsedModule { env: *env, image })
            },
            Err(e) => Err(e),
        }
    }

    /// The environment this module was parsed in.
    pub fn environment(&self) -> (e: &Environment)
        ensures
            *e == self.spec_environment(),
    {
        &self.env
    }

    /// The module's name and function table.
    pub(crate) fn into_image(self) -> (image: ModuleImage)
        ensures
            image@ == self@,
            all_unlinked(image@.functions),
    {
        proof {
            use_type_invariant(&self);
        }
        self.image
    }
}

/// What parsing in `env` returns once the engine's parser has reported
/// `parsed`.
pub open spec fn parse_outcome(env: Environment, parsed: Result<ModuleImage, Error>, r: Result<ParsedModule, Error>) -> bool {
    match parsed {
        Ok(image) => r.is_ok() && r.unwrap().spec_environment() == env && r.unwrap()@ == unlinked(image@),
        Err(e) => r == Err::<ParsedModule, Error>(e),
    }
}

/// A loaded module belonging to a specific runtime. It is a token: it owns
/// nothing, and the runtime it names holds the module.
#[derive(Copy, Clone, Debug, PartialEq, Eq, Structural)]
pub struct Module {
    index: usize,
    runtime: u64,
}

/// A function of a loaded module that was found and whose declared signature
/// agrees with the contract it was asked for under.
#[derive(Copy, Clone, Debug, PartialEq, Eq, Structural)]
pub struct Function {
    pub module: Module,
    pub index: usize,
}

/// A token is what it names: two tokens of the same module in the same
/// runtime are equal.
pub proof fn lemma_token_identity(a: Module, b: Module)
    requires
        a.spec_index() == b.spec_index(),
        a.spec_runtime() == b.spec_runtime(),
    ensures
        a == b,
{
}

impl Module {
    /// The place of the module among those loaded into its runtime.
    pub closed spec fn spec_index(self) -> usize {
        self.index
    }

    /// The identity of the runtime that the module was loaded into.
    pub closed spec fn spec_runtime(self) -> u64 {
        self.runtime
    }

    /// The token names a module of this runtime.
    pub open spec fn belongs_to<C>(self, rt: RuntimeView<C>) -> bool {
        self.spec_runtime() == rt.id && self.spec_index() < rt.modules.len()
    }

    /// The function table of the token's module.
    pub open spec fn table<C>(self, rt: RuntimeView<C>) -> Seq<FunctionSlot> {
        rt.modules[self.spec_index() as int].functions
    }

    /// What a lookup by name yields: the first function in table order that
    /// bears the name, if its declared signature agrees with the contract.
    pub open spec fn spec_find_function<C>(self, rt: RuntimeView<C>, name: Seq<char>, contract: &Signature) -> Result<
        Function,
        Error,
    > {
        if !self.belongs_to(rt) {
            Err(Error::RuntimeMismatch)
        } else if none_named(self.table(rt), name) {
            Err(Error::FunctionNotFound)
        } else if !contract.agrees(&self.table(rt)[first_named(self.table(rt), name)].signature) {
            Err(Error::SignatureMismatch)
        } else {
            Ok(Function { module: self, index: first_named(self.table(rt), name) as usize })
        }
    }

    /// What a lookup by index yields: the function at the index, if there is
    /// one and its declared signature agrees with the contract.
    pub open spec fn spec_function<C>(self, rt: RuntimeView<C>, index: usize, contract: &Signature) -> Result<
        Function,
        Error,
    > {
        if !self.belongs_to(rt) {
            Err(Error::RuntimeMismatch)
        } else if index >= self.table(rt).len() {
            Err(Error::FunctionNotFound)
        } else if !contract.agrees(&self.table(rt)[index as int].signature) {
            Err(Error::SignatureMismatch)
        } else {
            Ok(Function { module: self, index })
        }
    }

    /// The import slot that a link is made to: the first import in table order
    /// declared under the two names, if its declared signature agrees with the
    /// contract.
    pub open spec fn spec_import_slot<C>(
        self,
        rt: RuntimeView<C>,
        module_name: Seq<char>,
        function_name: Seq<char>,
        contract: &Signature,
    ) -> Result<int, Error> {
        if !self.belongs_to(rt) {
            Err(Error::RuntimeMismatch)
        } else if no_import(self.table(rt), module_name, function_name) {
            Err(Error::FunctionNotFound)
        } else if !contract.agrees(
            &self.table(rt)[first_import(self.table(rt), module_name, function_name)].signature,
        ) {
            Err(Error::SignatureMismatch)
        } else {
            Ok(first_import(self.table(rt), module_name, function_name))
        }
    }

    /// The token of the module at `index` in the runtime `runtime`.
    pub(crate) fn from_raw(runtime: u64, index: usize) -> (m: Module)
        ensures
            m.spec_index() == index,
            m.spec_runtime() == runtime,
    {
        Module { index, runtime }
    }

    /// The place of the module among those loaded into its runtime.
    pub fn index(self) -> (i: usize)
        ensures
            i == self.spec_index(),
    {
        self.index
    }

    /// The identity of the runtime that the module was loaded into.
    pub fn runtime_id(self) -> (id: u64)
        ensures
            id == self.spec_runtime(),
    {
        self.runtime
    }

    /// Whether the token names a module of this runtime.
    pub fn is_loaded_in<C>(self, rt: &Runtime<C>) -> (b: bool)
        ensures
            b == self.belongs_to(rt@),
    {
        self.runtime == rt.id() && self.index < rt.module_count()
    }

    /// Parses a module from raw bytes.
    ///
    /// A module longer than `MODULE_SIZE_LIMIT` bytes is refused with
    /// `ModuleTooLarge`. Otherwise `parser` is called with the byte length,
    /// and what it reports is passed on: its error, or the module it yields,
    /// with every slot unlinked.
    pub fn parse<P: FnOnce(u32) -> Result<ModuleImage, Error>>(
        environment: &Environment,
        bytes: &[u8],
        parser: P,
    ) -> (r: Result<ParsedModule, Error>)
        requires
            bytes@.len() <= MODULE_SIZE_LIMIT ==> parser.requires((bytes@.len() as u32,)),
        ensures
            bytes@.len() > MODULE_SIZE_LIMIT ==> r == Err::<ParsedModule, Error>(Error::ModuleTooLarge),
            bytes@.len() <= MODULE_SIZE_LIMIT ==> exists|parsed: Result<ModuleImage, Error>| #[trigger]
                parser.ensures((bytes@.len() as u32,), parsed) && parse_outcome(*environment, parsed, r),
    {
        ParsedModule::parse(environment, bytes, parser)
    }

    /// Finds the import slot that a link under these names and this contract
    /// is made to, and changes nothing: the token must belong to `rt`
    /// (`RuntimeMismatch`), the import must exist (`FunctionNotFound`), and its
    /// declared signature must agree with `contract` (`SignatureMismatch`).
    pub fn import_slot<C>(self, rt: &Runtime<C>, module_name: &str, function_name: &str, contract: &Signature) -> (r:
        Result<usize, Error>)
        ensures
            match self.spec_import_slot(rt@, module_name@, function_name@, contract) {
                Ok(slot) => r.is_ok() && r.unwrap() as int == slot && slot < self.table(rt@).len(),
                Err(e) => r == Err::<usize, Error>(e),
            },
    {
        if !self.is_loaded_in(rt) {
            return Err(Error::RuntimeMismatch);
        }
        let table = rt.functions(self.index);
        let slot = match find_import_function(table, module_name, function_name) {
            Ok(slot) => slot,
            Err(e) => {
                return Err(e);
            },
        };
        proof {
            lemma_first_import(table@, module_name@, function_name@, slot as int);
        }
        match contract.validate_sig(&table[slot].signature) {
            Ok(()) => Ok(slot),
            Err(e) => Err(e),
        }
    }

    /// Links the native function `f` to the import declared under
    /// `module_name` and `function_name`, whose declared signature must agree
    /// with `contract`.
    ///
    /// The checks come in this order: the token must belong to `rt`
    /// (`RuntimeMismatch`), the import must exist (`FunctionNotFound`), its
    /// signature must agree (`SignatureMismatch`), and the allocator must hand
    /// out a page of two words (`OutOfMemory`). On every error the runtime is
    /// left exactly as it was.
    pub fn link_function<C>(
        self,
        rt: &mut Runtime<C>,
        module_name: &str,
        function_name: &str,
        contract: &Signature,
        f: RawCall,
    ) -> (r: Result<(), Error>)
        requires
            old(rt).wf(),
        ensures
            final(rt).wf(),
            r.is_err() ==> final(rt)@ == old(rt)@,
            match self.spec_import_slot(old(rt)@, module_name@, function_name@, contract) {
                Err(e) => r == Err::<(), Error>(e),
                Ok(slot) => if old(rt)@.free_words < DIRECT_THUNK_WORDS {
                    r == Err::<(), Error>(Error::OutOfMemory)
                } else {
                    r == Ok::<(), Error>(()) && final(rt)@ == old(rt)@.linked_function(
                        self.spec_index() as int,
                        slot,
                        f,
                    )
                },
            },
    {
        match self.import_slot(rt, module_name, function_name, contract) {
            Ok(slot) => rt.link_func_impl(self.index, slot, f),
            Err(e) => Err(e),
        }
    }

    /// Links `closure` to the import declared under `module_name` and
    /// `function_name`, whose declared signature must agree with `contract`.
    /// The closure is moved into the runtime's registry, which keeps it until
    /// the runtime is destroyed, and the trampoline invokes `shim` with it.
    ///
    /// The checks come in the order of `link_function`, with a page of three
    /// words. On every error the closure is dropped and the runtime is left
    /// exactly as it was: no page is allocated and nothing is registered.
    pub fn link_closure<C>(
        self,
        rt: &mut Runtime<C>,
        module_name: &str,
        function_name: &str,
        contract: &Signature,
        shim: usize,
        closure: C,
    ) -> (r: Result<(), Error>)
        requires
            old(rt).wf(),
        ensures
            final(rt).wf(),
            r.is_err() ==> final(rt)@ == old(rt)@,
            match self.spec_import_slot(old(rt)@, module_name@, function_name@, contract) {
                Err(e) => r == Err::<(), Error>(e),
                Ok(slot) => if old(rt)@.free_words < CLOSURE_THUNK_WORDS {
                    r == Err::<(), Error>(Error::OutOfMemory)
                } else {
                    r == Ok::<(), Error>(()) && final(rt)@ == old(rt)@.linked_closure(
                        self.spec_index() as int,
                        slot,
                        shim,
                        closure,
                    )
                },
            },
    {
        match self.import_slot(rt, module_name, function_name, contract) {
            Ok(slot) => rt.link_closure_impl(self.index, slot, shim, closure),
            Err(e) => Err(e),
        }
    }

    /// Links wasi to this module: a request that is passed to the engine,
    /// which `linker` stands for, once the token is known to belong to `rt`.
    /// What the engine reports is passed on. The engine wires the imports that
    /// it provides itself: no page is emitted and no closure registered here.
    pub fn link_wasi<C, L: FnOnce() -> Result<(), Error>>(self, rt: &mut Runtime<C>, linker: L) -> (r: Result<
        (),
        Error,
    >)
        requires
            self.belongs_to(old(rt)@) ==> linker.requires(()),
        ensures
            final(rt)@ == old(rt)@,
            !self.belongs_to(old(rt)@) ==> r == Err::<(), Error>(Error::RuntimeMismatch),
            self.belongs_to(old(rt)@) ==> linker.ensures((), r),
    {
        if !self.is_loaded_in(rt) {
            return Err(Error::RuntimeMismatch);
        }
        linker()
    }

    /// Links libc to this module: a request that is passed to the engine,
    /// which `linker` stands for, once the token is known to belong to `rt`.
    /// What the engine reports is passed on. The engine wires the imports that
    /// it provides itself: no page is emitted and no closure registered here.
    pub fn link_libc<C, L: FnOnce() -> Result<(), Error>>(self, rt: &mut Runtime<C>, linker: L) -> (r: Result<
        (),
        Error,
    >)
        requires
            self.belongs_to(old(rt)@) ==> linker.requires(()),
        ensures
            final(rt)@ == old(rt)@,
            !self.belongs_to(old(rt)@) ==> r == Err::<(), Error>(Error::RuntimeMismatch),
            self.belongs_to(old(rt)@) ==> linker.ensures((), r),
    {
        if !self.is_loaded_in(rt) {
            return Err(Error::RuntimeMismatch);
        }
        linker()
    }

    /// Looks up a function by the given name in this module: the first in
    /// table order that bears it, checked against `contract`.
    pub fn find_function<C>(self, rt: &Runtime<C>, function_name: &str, contract: &Signature) -> (r: Result<
        Function,
        Error,
    >)
        ensures
            r == self.spec_find_function(rt@, function_name@, contract),
    {
        if !self.is_loaded_in(rt) {
            return Err(Error::RuntimeMismatch);
        }
        let table = rt.functions(self.index);
        let index = match find_named_function(table, function_name) {
            Ok(index) => index,
            Err(e) => {
                return Err(e);
            },
        };
        proof {
            lemma_first_named(table@, function_name@, index as int);
        }
        match contract.validate_sig(&table[index].signature) {
            Ok(()) => Ok(Function { module: self, index }),
            Err(e) => Err(e),
        }
    }

    /// Looks up a function by its index in this module, checked against
    /// `contract`.
    pub fn function<C>(self, rt: &Runtime<C>, function_index: usize, contract: &Signature) -> (r: Result<
        Function,
        Error,
    >)
        ensures
            r == self.spec_function(rt@, function_index, contract),
    {
        if !self.is_loaded_in(rt) {
            return Err(Error::RuntimeMismatch);
        }
        let table = rt.functions(self.index);
        let index = match function_at(table, function_index) {
            Ok(index) => index,
            Err(e) => {
                return Err(e);
            },
        };
        match contract.validate_sig(&table[index].signature) {
            Ok(()) => Ok(Function { module: self, index }),
            Err(e) => Err(e),
        }
    }

    /// The name of this module.
    pub fn name<C>(self, rt: &Runtime<C>) -> (name: &str)
        requires
            self.belongs_to(rt@),
        ensures
            name@ == rt@.modules[self.spec_index() as int].name,
    {
        rt.module_name(self.index)
    }
}

/// A link under names that no import of the module bears is refused with
/// `FunctionNotFound`, whatever the contract.
pub proof fn lemma_missing_import_is_not_found<C>(
    token: Module,
    rt: RuntimeView<C>,
    module_name: Seq<char>,
    function_name: Seq<char>,
    contract: &Signature,
)
    requires
        token.belongs_to(rt),
        no_import(token.table(rt), module_name, function_name),
    ensures
        token.spec_import_slot(rt, module_name, function_name, contract) == Err::<int, Error>(
            Error::FunctionNotFound,
        ),
{
}

/// A link is decided by the first import in table order that bears the names:
/// it is made to that slot where the declared signature agrees with the
/// contract, and refused with `SignatureMismatch` where it does not, whatever
/// later slots declare.
pub proof fn lemma_first_import_decides<C>(
    token: Module,
    rt: RuntimeView<C>,
    module_name: Seq<char>,
    function_name: Seq<char>,
    contract: &Signature,
    slot: int,
)
    requires
        token.belongs_to(rt),
        is_first_import(token.table(rt), module_name, function_name, slot),
    ensures
        contract.agrees(&token.table(rt)[slot].signature) ==> token.spec_import_slot(
            rt,
            module_name,
            function_name,
            contract,
        ) == Ok::<int, Error>(slot),
        !contract.agrees(&token.table(rt)[slot].signature) ==> token.spec_import_slot(
            rt,
            module_name,
            function_name,
            contract,
        ) == Err::<int, Error>(Error::SignatureMismatch),
{
    lemma_first_import(token.table(rt), module_name, function_name, slot);
}

/// A lookup by name is decided by the first function in table order that
/// bears the name.
pub proof fn lemma_first_named_decides<C>(
    token: Module,
    rt: RuntimeView<C>,
    name: Seq<char>,
    contract: &Signature,
    index: int,
)
    requires
        token.belongs_to(rt),
        is_first_named(token.table(rt), name, index),
    ensures
        contract.agrees(&token.table(rt)[index].signature) ==> token.spec_find_function(rt, name, contract) == Ok::<
            Function,
            Error,
        >(Function { module: token, index: index as usize }),
        !contract.agrees(&token.table(rt)[index].signature) ==> token.spec_find_function(rt, name, contract)
            == Err::<Function, Error>(Error::SignatureMismatch),
{
    lemma_first_named(token.table(rt), name, index);
}

} // verus!
