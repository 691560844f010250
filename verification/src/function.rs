//! Function tables and the import resolver.
//!
//! A module's functions stand in a table, addressed by ordinal index. Lookups
//! scan the table front to back, so the first entry that matches wins.
use vstd::prelude::*;
use crate::error::Error;
use crate::signature::Signature;

verus! {

/// The module and field under which a function is imported.
#[derive(Clone, Debug)]
pub struct ImportInfo {
    pub module: String,
    pub field: String,
}

/// One entry of a module's function table.
#[derive(Clone, Debug)]
pub struct FunctionSlot {
    /// The function's declared name; empty where it has none.
    pub name: String,
    /// Where the function is imported from, if it is an import.
    pub import: Option<ImportInfo>,
    /// The declared argument and return types.
    pub signature: Signature,
    /// The code page at whose start the compiled entry lies, once linked.
    pub compiled: Option<usize>,
    /// The index, in its runtime, of the module that the slot was linked for.
    pub module: Option<usize>,
}

impl FunctionSlot {
    /// An unlinked slot.
    pub fn new(name: String, import: Option<ImportInfo>, signature: Signature) -> (s: FunctionSlot)
        ensures
            s.name == name,
            s.import == import,
            s.signature == signature,
            s.compiled.is_none(),
            s.module.is_none(),
    {
        FunctionSlot { name, import, signature, compiled: None, module: None }
    }

    /// The slot is an import declared under exactly this module and field name.
    pub open spec fn imports(&self, module: Seq<char>, field: Seq<char>) -> bool {
        match self.import {
            Some(info) => info.module@ == module && info.field@ == field,
            None => false,
        }
    }

    /// The slot's declared name is exactly this one.
    pub open spec fn is_named(&self, name: Seq<char>) -> bool {
        self.name@ == name
    }

    /// Whether the slot is an import declared under this module and field name.
    pub fn is_import_of(&self, module: &String, field: &String) -> (b: bool)
        ensures
            b == self.imports(module@, field@),
    {
        match &self.import {
            Some(info) => info.module == *module && info.field == *field,
            None => false,
        }
    }
}

/// `i` is the first index in `table` whose slot is such an import.
pub open spec fn is_first_import(table: Seq<FunctionSlot>, module: Seq<char>, field: Seq<char>, i: int) -> bool {
    &&& 0 <= i < table.len()
    &&& table[i].imports(module, field)
    &&& forall|j: int| 0 <= j < i ==> !(#[trigger] table[j]).imports(module, field)
}

/// No slot of `table` is such an import.
pub open spec fn no_import(table: Seq<FunctionSlot>, module: Seq<char>, field: Seq<char>) -> bool {
    forall|j: int| 0 <= j < table.len() ==> !(#[trigger] table[j]).imports(module, field)
}

/// `i` is the first index in `table` whose slot bears `name`.
pub open spec fn is_first_named(table: Seq<FunctionSlot>, name: Seq<char>, i: int) -> bool {
    &&& 0 <= i < table.len()
    &&& table[i].is_named(name)
    &&& forall|j: int| 0 <= j < i ==> !(#[trigger] table[j]).is_named(name)
}

/// No slot of `table` bears `name`.
pub open spec fn none_named(table: Seq<FunctionSlot>, name: Seq<char>) -> bool {
    forall|j: int| 0 <= j < table.len() ==> !(#[trigger] table[j]).is_named(name)
}

/// Finds the import declared under `module_name` and `function_name`: the
/// first in table order, `FunctionNotFound` where the table holds none.
/// Entries that are not imports never match.
pub fn find_import_function(table: &Vec<FunctionSlot>, module_name: &str, function_name: &str) -> (r: Result<usize, Error>)
    ensures
        match r {
            Ok(i) => is_first_import(table@, module_name@, function_name@, i as int),
            Err(e) => e == Error::FunctionNotFound && no_import(table@, module_name@, function_name@),
        },
{
    let module = module_name.to_owned();
    let field = function_name.to_owned();
    let mut i: usize = 0;
    while i < table.len()
        invariant
            i <= table@.len(),
            module@ == module_name@,
            field@ == function_name@,
            forall|j: int| 0 <= j < i ==> !(#[trigger] table@[j]).imports(module_name@, function_name@),
        decreases table@.len() - i,
    {
        if table[i].is_import_of(&module, &field) {
            return Ok(i);
        }
        i += 1;
    }
    Err(Error::FunctionNotFound)
}

/// Finds the function that bears `function_name`: the first in table order,
/// `FunctionNotFound` where the table holds none.
pub fn find_named_function(table: &Vec<FunctionSlot>, function_name: &str) -> (r: Result<usize, Error>)
    ensures
        match r {
            Ok(i) => is_first_named(table@, function_name@, i as int),
            Err(e) => e == Error::FunctionNotFound && none_named(table@, function_name@),
        },
{
    let name = function_name.to_owned();
    let mut i: usize = 0;
    while i < table.len()
        invariant
            i <= table@.len(),
            name@ == function_name@,
            forall|j: int| 0 <= j < i ==> !(#[trigger] table@[j]).is_named(function_name@),
        decreases table@.len() - i,
    {
        if table[i].name == name {
            return Ok(i);
        }
        i += 1;
    }
    Err(Error::FunctionNotFound)
}

/// Finds the function at `index`: `FunctionNotFound` where the index lies
/// beyond the table.
pub fn function_at(table: &Vec<FunctionSlot>, index: usize) -> (r: Result<usize, Error>)
    ensures
        index < table@.len() ==> r == Ok::<usize, Error>(index),
        index >= table@.len() ==> r == Err::<usize, Error>(Error::FunctionNotFound),
{
    if index < table.len() {
        Ok(index)
    } else {
        Err(Error::FunctionNotFound)
    }
}

/// The index of the first slot of `table` that bears `name`.
pub open spec fn first_named(table: Seq<FunctionSlot>, name: Seq<char>) -> int {
    choose|i: int| is_first_named(table, name, i)
}

/// The index of the first slot of `table` that is an import declared under
/// `module` and `field`.
pub open spec fn first_import(table: Seq<FunctionSlot>, module: Seq<char>, field: Seq<char>) -> int {
    choose|i: int| is_first_import(table, module, field, i)
}

/// The first slot that bears a name is the only index that is first.
pub proof fn lemma_first_named(table: Seq<FunctionSlot>, name: Seq<char>, i: int)
    requires
        is_first_named(table, name, i),
    ensures
        first_named(table, name) == i,
        !none_named(table, name),
{
    let k = first_named(table, name);
    if k < i {
        assert(!table[k].is_named(name));
    } else if i < k {
        assert(!table[i].is_named(name));
    }
}

/// The first import of a pair of names is the only index that is first.
pub proof fn lemma_first_import(table: Seq<FunctionSlot>, module: Seq<char>, field: Seq<char>, i: int)
    requires
        is_first_import(table, module, field, i),
    ensures
        first_import(table, module, field) == i,
        !no_import(table, module, field),
{
    let k = first_import(table, module, field);
    if k < i {
        assert(!table[k].imports(module, field));
    } else if i < k {
        assert(!table[i].imports(module, field));
    }
}

} // verus!
