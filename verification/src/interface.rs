//! The definition of an interface: its name and its operations, each found
//! by its name.

use vstd::prelude::*;
use vstd::hash_map::StringHashMap;
use crate::handlers::Handler;
use crate::value::ArgType;

verus! {

/// A named, typed procedure of an interface. The declared types are those
/// of the handler.
pub struct Operation {
    name: String,
    inputs: Vec<ArgType>,
    outputs: Vec<ArgType>,
    handler: Handler,
}

/// What an `Operation` is, over views.
pub ghost struct OperationView {
    pub name: Seq<char>,
    pub inputs: Seq<ArgType>,
    pub outputs: Seq<ArgType>,
    pub handler: Handler,
}

impl OperationView {
    /// Whether the declared types are those that the handler takes and
    /// returns.
    pub open spec fn well_typed(self) -> bool {
        &&& self.inputs == self.handler.input_types()
        &&& self.outputs == self.handler.output_types()
    }
}

impl View for Operation {
    type V = OperationView;

    closed spec fn view(&self) -> OperationView {
        OperationView {
            name: self.name@,
            inputs: self.inputs@,
            outputs: self.outputs@,
            handler: self.handler,
        }
    }
}

impl Operation {
    #[verifier::type_invariant]
    spec fn declared_as_handled(&self) -> bool {
        self@.well_typed()
    }

    pub fn name(&self) -> (name: &str)
        ensures
            name@ == self@.name,
    {
        self.name.as_str()
    }

    /// The declared types of the arguments, in order: those of the handler.
    pub fn inputs(&self) -> (types: &Vec<ArgType>)
        ensures
            types@ == self@.inputs,
            types@ == self@.handler.input_types(),
    {
        proof {
            use_type_invariant(self);
        }
        &self.inputs
    }

    /// The declared types of the returned values, in order: those of the
    /// handler.
    pub fn outputs(&self) -> (types: &Vec<ArgType>)
        ensures
            types@ == self@.outputs,
            types@ == self@.handler.output_types(),
    {
        proof {
            use_type_invariant(self);
        }
        &self.outputs
    }

    pub fn handler(&self) -> (handler: Handler)
        ensures
            handler == self@.handler,
    {
        self.handler
    }
}

/// Why an interface could not be extended.
#[derive(Clone, Copy, Debug, PartialEq, Eq, Structural)]
pub enum InterfaceError {
    /// The interface already has an operation of that name.
    DuplicateOperation,
}

/// What an `Interface`, or one under construction, is: its name, and its
/// operations by their names.
pub ghost struct InterfaceView {
    pub name: Seq<char>,
    pub operations: Map<Seq<char>, OperationView>,
}

impl InterfaceView {
    /// Whether every operation is filed under its own name and declares the
    /// types of its handler.
    pub open spec fn well_formed(self) -> bool {
        forall|n: Seq<char>| #[trigger]
            self.operations.contains_key(n) ==> self.operations[n].name == n
                && self.operations[n].well_typed()
    }
}

/// An interface under construction.
pub struct InterfaceBuilder {
    name: String,
    operations: StringHashMap<Operation>,
}

impl View for InterfaceBuilder {
    type V = InterfaceView;

    closed spec fn view(&self) -> InterfaceView {
        InterfaceView {
            name: self.name@,
            operations: self.operations@.map_values(|o: Operation| o@),
        }
    }
}

/// Whether two sequences of types are the same, decided item by item.
pub fn same_types(left: &Vec<ArgType>, right: &Vec<ArgType>) -> (same: bool)
    ensures
        same == (left@ == right@),
{
    if left.len() != right.len() {
        return false;
    }
    let mut i: usize = 0;
    while i < left.len()
        invariant
            i <= left.len(),
            left.len() == right.len(),
            forall|j: int| 0 <= j < i ==> left@[j] == right@[j],
        decreases left.len() - i,
    {
        if left[i] != right[i] {
            return false;
        }
        i += 1;
    }
    assert(left@ =~= right@);
    true
}

/// Whether `inputs` and `outputs` are the types that `handler` takes and
/// returns: what `InterfaceBuilder::add_operation` asks of its arguments.
pub fn declares(handler: Handler, inputs: &Vec<ArgType>, outputs: &Vec<ArgType>) -> (ok: bool)
    ensures
        ok == (inputs@ == handler.input_types() && outputs@ == handler.output_types()),
{
    let taken = handler.inputs();
    let returned = handler.outputs();
    same_types(inputs, &taken) && same_types(outputs, &returned)
}

/// Begins the definition of the interface `name`, without operations.
pub fn define_interface(name: String) -> (builder: InterfaceBuilder)
    ensures
        builder@.name == name@,
        builder@.operations == Map::<Seq<char>, OperationView>::empty(),
        builder@.well_formed(),
{
    InterfaceBuilder { name, operations: StringHashMap::new() }
}

impl InterfaceBuilder {
    #[verifier::type_invariant]
    spec fn filed_by_name(&self) -> bool {
        forall|n: Seq<char>| #[trigger]
            self.operations@.contains_key(n) ==> self.operations@[n]@.name == n
                && self.operations@[n]@.well_typed()
    }

    /// Adds the operation `name` with its declared types and its handler.
    /// Fails, with the interface lost, if there is an operation of that name
    /// already.
    pub fn add_operation(
        self,
        name: String,
        inputs: Vec<ArgType>,
        outputs: Vec<ArgType>,
        handler: Handler,
    ) -> (result: Result<InterfaceBuilder, InterfaceError>)
        requires
            inputs@ == handler.input_types(),
            outputs@ == handler.output_types(),
        ensures
            result is Err <==> self@.operations.contains_key(name@),
            result is Err ==> result->Err_0 == InterfaceError::DuplicateOperation,
            result is Ok ==> result->Ok_0@ == (InterfaceView {
                name: self@.name,
                operations: self@.operations.insert(
                    name@,
                    OperationView { name: name@, inputs: inputs@, outputs: outputs@, handler },
                ),
            }),
            result is Ok ==> result->Ok_0@.well_formed(),
    {
        proof {
            use_type_invariant(&self);
        }
        if self.operations.contains_key(name.as_str()) {
            return Err(InterfaceError::DuplicateOperation);
        }
        let ghost before = self@;
        let key = String::from_str(name.as_str());
        let operation = Operation { name, inputs, outputs, handler };
        let mut operations = self.operations;
        operations.insert(key, operation);
        let builder = InterfaceBuilder { name: self.name, operations };
        assert(builder@.operations =~= before.operations.insert(operation@.name, operation@));
        Ok(builder)
    }

    /// The interface as defined so far; it changes no more.
    pub fn build(self) -> (interface: Interface)
        ensures
            interface@ == self@,
            interface@.well_formed(),
    {
        proof {
            use_type_invariant(&self);
        }
        Interface { name: self.name, operations: self.operations }
    }
}

/// A named set of operations.
pub struct Interface {
    name: String,
    operations: StringHashMap<Operation>,
}

impl View for Interface {
    type V = InterfaceView;

    closed spec fn view(&self) -> InterfaceView {
        InterfaceView {
            name: self.name@,
            operations: self.operations@.map_values(|o: Operation| o@),
        }
    }
}

impl Interface {
    #[verifier::type_invariant]
    spec fn filed_by_name(&self) -> bool {
        forall|n: Seq<char>| #[trigger]
            self.operations@.contains_key(n) ==> self.operations@[n]@.name == n
                && self.operations@[n]@.well_typed()
    }

    pub fn name(&self) -> (name: &str)
        ensures
            name@ == self@.name,
    {
        self.name.as_str()
    }

    /// The operation `name`, or `None` where the interface has none of that
    /// name: a caller may well ask for one that does not exist.
    pub fn lookup(&self, name: &str) -> (found: Option<&Operation>)
        ensures
            found is Some <==> self@.operations.contains_key(name@),
            found is Some ==> found->Some_0@ == self@.operations[name@],
            self@.well_formed(),
    {
        proof {
            use_type_invariant(self);
        }
        self.operations.get(name)
    }
}

} // verus!
