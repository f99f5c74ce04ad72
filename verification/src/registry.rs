//! The class and function descriptor registry.
//!
//! Descriptors are built once during module initialization and handed to the
//! host frozen: registration order is insertion order, and every name must be
//! unique within its declaring scope. A duplicate name is detected eagerly, at
//! build time, before any descriptor reaches the host — a host-side failure at
//! that stage would be an unrecoverable startup failure.

use crate::state::StateTypeId;
use crate::values::Value;
use vstd::prelude::*;

verus! {

/// Visibility of a property or method in the host's object model.
#[derive(PartialEq, Eq, Structural, Clone, Copy, Debug)]
pub enum Visibility {
    Public,
    Protected,
    Private,
}

/// A declared property: copied into each new instance at construction.
#[derive(Debug)]
pub struct PropertyDescriptor {
    pub name: String,
    pub visibility: Visibility,
    pub default: Value,
}

/// A declared argument of a callable: passed by value or by reference, and
/// possibly optional (a trailing optional argument may be absent at the call).
#[derive(Debug)]
pub struct ArgumentDescriptor {
    pub name: String,
    pub by_ref: bool,
    pub optional: bool,
}

/// A declared method of a class. The native handler is paired with the
/// descriptor by the host glue at call time.
#[derive(Debug)]
pub struct MethodDescriptor {
    pub name: String,
    pub visibility: Visibility,
    pub arguments: Vec<ArgumentDescriptor>,
}

/// A declared module-scope function.
#[derive(Debug)]
pub struct FunctionDescriptor {
    pub name: String,
    pub arguments: Vec<ArgumentDescriptor>,
}

/// An immutable class descriptor: name, ordered properties and methods, and
/// the optional native state type bound to each instance.
#[derive(Debug)]
pub struct ClassDescriptor {
    pub name: String,
    pub state_type: Option<StateTypeId>,
    pub properties: Vec<PropertyDescriptor>,
    pub methods: Vec<MethodDescriptor>,
}

/// A registration-time failure: a name already taken in its declaring scope.
/// Not part of the runtime error taxonomy — it aborts module load.
#[derive(Debug)]
pub struct DuplicateNameError {
    pub name: String,
}

/// Whether `name` occurs among the first `n` property names.
pub open spec fn spec_property_name_taken(
    props: Seq<PropertyDescriptor>,
    name: Seq<char>,
) -> bool {
    exists|i: int| 0 <= i < props.len() && props[i].name@ == name
}

/// Whether `name` occurs among the method names.
pub open spec fn spec_method_name_taken(methods: Seq<MethodDescriptor>, name: Seq<char>) -> bool {
    exists|i: int| 0 <= i < methods.len() && methods[i].name@ == name
}

/// Whether the argument names of a callable are pairwise distinct.
pub open spec fn spec_argument_names_unique(args: Seq<ArgumentDescriptor>) -> bool {
    forall|i: int, j: int| 0 <= i < j < args.len() ==> args[i].name@ != args[j].name@
}

/// The declared minimum argument count of a callable: the number of
/// non-optional arguments.
pub open spec fn spec_required_count(args: Seq<ArgumentDescriptor>) -> nat
    decreases args.len(),
{
    if args.len() == 0 {
        0
    } else {
        spec_required_count(args.drop_last()) + if args.last().optional {
            0nat
        } else {
            1nat
        }
    }
}

/// Counts the non-optional arguments: the declared minimum for a call.
pub fn required_count(args: &Vec<ArgumentDescriptor>) -> (n: usize)
    ensures
        n == spec_required_count(args@),
        n <= args@.len(),
{
    let mut n: usize = 0;
    let mut i: usize = 0;
    while i < args.len()
        invariant
            i <= args@.len(),
            n <= i,
            n == spec_required_count(args@.subrange(0, i as int)),
        decreases args@.len() - i,
    {
        if !args[i].optional {
            n = n + 1;
        }
        i = i + 1;
        proof {
            assert(args@.subrange(0, i as int).drop_last() =~= args@.subrange(0, i - 1));
        }
    }
    proof {
        assert(args@.subrange(0, args@.len() as int) =~= args@);
    }
    n
}

fn property_name_taken(props: &Vec<PropertyDescriptor>, name: &String) -> (r: bool)
    ensures
        r == spec_property_name_taken(props@, name@),
{
    let mut i: usize = 0;
    while i < props.len()
        invariant
            i <= props@.len(),
            forall|k: int| 0 <= k < i ==> props@[k].name@ != name@,
        decreases props@.len() - i,
    {
        if props[i].name.eq(name) {
            return true;
        }
        i = i + 1;
    }
    false
}

fn method_name_taken(methods: &Vec<MethodDescriptor>, name: &String) -> (r: bool)
    ensures
        r == spec_method_name_taken(methods@, name@),
{
    let mut i: usize = 0;
    while i < methods.len()
        invariant
            i <= methods@.len(),
            forall|k: int| 0 <= k < i ==> methods@[k].name@ != name@,
        decreases methods@.len() - i,
    {
        if methods[i].name.eq(name) {
            return true;
        }
        i = i + 1;
    }
    false
}

fn argument_names_unique(args: &Vec<ArgumentDescriptor>) -> (r: bool)
    ensures
        r == spec_argument_names_unique(args@),
{
    let mut i: usize = 0;
    while i < args.len()
        invariant
            i <= args@.len(),
            forall|p: int, q: int| 0 <= p < q < args@.len() && q < i ==> args@[p].name@
                != args@[q].name@,
        decreases args@.len() - i,
    {
        let mut j: usize = 0;
        while j < i
            invariant
                j <= i < args@.len(),
                forall|p: int| 0 <= p < j ==> args@[p].name@ != args@[i as int].name@,
            decreases i - j,
        {
            if args[j].name.eq(&args[i].name) {
                return false;
            }
            j = j + 1;
        }
        i = i + 1;
    }
    true
}

/// Builds one class descriptor, validating names eagerly as they are added.
#[derive(Debug)]
pub struct ClassBuilder {
    pub name: String,
    pub state_type: Option<StateTypeId>,
    pub properties: Vec<PropertyDescriptor>,
    pub methods: Vec<MethodDescriptor>,
}

impl ClassBuilder {
    /// An empty builder for a class of the given (namespaced) name.
    pub fn new(name: String) -> (b: Self)
        ensures
            b.name == name,
            b.state_type is None,
            b.properties@.len() == 0,
            b.methods@.len() == 0,
    {
        ClassBuilder { name, state_type: None, properties: Vec::new(), methods: Vec::new() }
    }

    /// Declares the native state type bound to each instance of the class.
    pub fn with_state_type(&mut self, tag: StateTypeId)
        ensures
            final (self).name == old(self).name,
            final (self).state_type == Some(tag),
            final (self).properties == old(self).properties,
            final (self).methods == old(self).methods,
    {
        self.state_type = Some(tag);
    }

    /// Declares a property. Fails, leaving the builder unchanged, exactly when
    /// a property of that name was already declared on this class.
    pub fn add_property(&mut self, name: String, visibility: Visibility, default: Value) -> (r:
        Result<(), DuplicateNameError>)
        ensures
            spec_property_name_taken(old(self).properties@, name@) ==> (r matches Err(e) && e.name
                == name && *final (self) == *old(self)),
            !spec_property_name_taken(old(self).properties@, name@) ==> (r == Ok::<
                (),
                DuplicateNameError,
            >(()) && final (self).properties@ == old(self).properties@.push(
                PropertyDescriptor { name, visibility, default },
            ) && final (self).name == old(self).name && final (self).state_type == old(
                self,
            ).state_type && final (self).methods == old(self).methods),
    {
        if property_name_taken(&self.properties, &name) {
            Err(DuplicateNameError { name })
        } else {
            self.properties.push(PropertyDescriptor { name, visibility, default });
            Ok(())
        }
    }

    /// Declares a method. Fails, leaving the builder unchanged, exactly when a
    /// method of that name was already declared on this class or the argument
    /// names are not pairwise distinct.
    pub fn add_method(
        &mut self,
        name: String,
        visibility: Visibility,
        arguments: Vec<ArgumentDescriptor>,
    ) -> (r: Result<(), DuplicateNameError>)
        ensures
            (spec_method_name_taken(old(self).methods@, name@) || !spec_argument_names_unique(
                arguments@,
            )) ==> (r matches Err(e) && e.name == name && *final (self) == *old(self)),
            (!spec_method_name_taken(old(self).methods@, name@) && spec_argument_names_unique(
                arguments@,
            )) ==> (r == Ok::<(), DuplicateNameError>(()) && final (self).methods@ == old(
                self,
            ).methods@.push(MethodDescriptor { name, visibility, arguments }) && final (self).name
                == old(self).name && final (self).state_type == old(self).state_type && final (
            self).properties == old(self).properties),
    {
        if method_name_taken(&self.methods, &name) {
            Err(DuplicateNameError { name })
        } else if !argument_names_unique(&arguments) {
            Err(DuplicateNameError { name })
        } else {
            self.methods.push(MethodDescriptor { name, visibility, arguments });
            Ok(())
        }
    }

    /// Freezes the builder into an immutable class descriptor.
    pub fn build(self) -> (c: ClassDescriptor)
        ensures
            c.name == self.name,
            c.state_type == self.state_type,
            c.properties == self.properties,
            c.methods == self.methods,
    {
        ClassDescriptor {
            name: self.name,
            state_type: self.state_type,
            properties: self.properties,
            methods: self.methods,
        }
    }
}

/// Whether `name` occurs among the registered class names.
pub open spec fn spec_class_name_taken(classes: Seq<ClassDescriptor>, name: Seq<char>) -> bool {
    exists|i: int| 0 <= i < classes.len() && classes[i].name@ == name
}

/// Whether `name` occurs among the registered function names.
pub open spec fn spec_function_name_taken(
    functions: Seq<FunctionDescriptor>,
    name: Seq<char>,
) -> bool {
    exists|i: int| 0 <= i < functions.len() && functions[i].name@ == name
}

/// The module's descriptor registry: append-only while the module registers
/// its classes and functions, frozen once handed to the host.
#[derive(Debug)]
pub struct Registry {
    pub classes: Vec<ClassDescriptor>,
    pub functions: Vec<FunctionDescriptor>,
    pub frozen: bool,
}

impl Registry {
    /// An empty, unfrozen registry.
    pub fn new() -> (r: Self)
        ensures
            r.classes@.len() == 0,
            r.functions@.len() == 0,
            !r.frozen,
    {
        Registry { classes: Vec::new(), functions: Vec::new(), frozen: false }
    }

    /// Registers a built class descriptor, in insertion order. Fails, leaving
    /// the registry unchanged, exactly when the class name is already taken.
    /// Registration happens only before the handoff, so the registry must not
    /// be frozen.
    pub fn add_class(&mut self, class: ClassDescriptor) -> (r: Result<(), DuplicateNameError>)
        requires
            !old(self).frozen,
        ensures
            spec_class_name_taken(old(self).classes@, class.name@) ==> (r matches Err(e) && e.name
                == class.name && *final (self) == *old(self)),
            !spec_class_name_taken(old(self).classes@, class.name@) ==> (r == Ok::<
                (),
                DuplicateNameError,
            >(()) && final (self).classes@ == old(self).classes@.push(class) && final (
            self).functions == old(self).functions && !final (self).frozen),
    {
        let mut taken = false;
        let mut i: usize = 0;
        while i < self.classes.len()
            invariant
                i <= self.classes@.len(),
                taken == exists|k: int| 0 <= k < i && self.classes@[k].name@ == class.name@,
            decreases self.classes@.len() - i,
        {
            if self.classes[i].name.eq(&class.name) {
                taken = true;
            }
            i = i + 1;
        }
        if taken {
            Err(DuplicateNameError { name: class.name })
        } else {
            self.classes.push(class);
            Ok(())
        }
    }

    /// Registers a module-scope function, in insertion order. Fails, leaving
    /// the registry unchanged, exactly when the function name is already taken
    /// or the argument names are not pairwise distinct.
    pub fn add_function(&mut self, function: FunctionDescriptor) -> (r: Result<
        (),
        DuplicateNameError,
    >)
        requires
            !old(self).frozen,
        ensures
            (spec_function_name_taken(old(self).functions@, function.name@)
                || !spec_argument_names_unique(function.arguments@)) ==> (r matches Err(e) && e.name
                == function.name && *final (self) == *old(self)),
            (!spec_function_name_taken(old(self).functions@, function.name@)
                && spec_argument_names_unique(function.arguments@)) ==> (r == Ok::<
                (),
                DuplicateNameError,
            >(()) && final (self).functions@ == old(self).functions@.push(function) && final (
            self).classes == old(self).classes && !final (self).frozen),
    {
        let mut taken = false;
        let mut i: usize = 0;
        while i < self.functions.len()
            invariant
                i <= self.functions@.len(),
                taken == exists|k: int| 0 <= k < i && self.functions@[k].name@ == function.name@,
            decreases self.functions@.len() - i,
        {
            if self.functions[i].name.eq(&function.name) {
                taken = true;
            }
            i = i + 1;
        }
        if taken {
            Err(DuplicateNameError { name: function.name })
        } else if !argument_names_unique(&function.arguments) {
            Err(DuplicateNameError { name: function.name })
        } else {
            self.functions.push(function);
            Ok(())
        }
    }

    /// Freezes the registry for the handoff to the host: no registration may
    /// follow.
    pub fn freeze(&mut self)
        ensures
            final (self).frozen,
            final (self).classes == old(self).classes,
            final (self).functions == old(self).functions,
    {
        self.frozen = true;
    }

    /// Looks a class up by name, returning its registration index.
    pub fn find_class(&self, name: &String) -> (r: Option<usize>)
        ensures
            r matches Some(i) ==> i < self.classes@.len() && self.classes@[i as int].name@
                == name@,
            r is None ==> !spec_class_name_taken(self.classes@, name@),
    {
        let mut i: usize = 0;
        while i < self.classes.len()
            invariant
                i <= self.classes@.len(),
                forall|k: int| 0 <= k < i ==> self.classes@[k].name@ != name@,
            decreases self.classes@.len() - i,
        {
            if self.classes[i].name.eq(name) {
                return Some(i);
            }
            i = i + 1;
        }
        None
    }
}

/// Registering two properties of the same name on one class fails at build
/// time: as soon as a property is declared (`add_property` pushes it on
/// success), its name is taken, so by `add_property`'s contract a second
/// declaration under that name is refused and the builder keeps its shape —
/// all before any instance is constructed.
pub proof fn lemma_second_property_declaration_refused(
    props: Seq<PropertyDescriptor>,
    p: PropertyDescriptor,
)
    ensures
        spec_property_name_taken(props.push(p), p.name@),
{
    assert(props.push(p)[props.len() as int] == p);
}

} // verus!
