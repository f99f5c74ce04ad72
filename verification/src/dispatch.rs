//! The call-time dispatcher and the error-to-exception translation.
//!
//! Per call, the dispatcher validates the actual argument count against the
//! declared minimum, runs the registered native handler, and hands the result
//! back: a value on success, a translated exception on failure. Dispatch state
//! is per call, so a handler may itself dispatch again. By-reference argument
//! slots are written back explicitly after the handler returns; by-value slots
//! keep the caller's original values.

use crate::errors::{ArgumentCountError, ClassNotFoundError, Error, Throwable};
use crate::registry::{
    required_count, spec_required_count, ArgumentDescriptor, FunctionDescriptor, MethodDescriptor,
};
use crate::state::StateBox;
use crate::values::Value;
use vstd::prelude::*;

verus! {

/// Validates the actual argument count of a call against the declared
/// minimum: a shortfall is an argument-count error carrying the callable's
/// name, the declared minimum and the actual count.
pub fn validate_argument_count(name: &String, declared: &Vec<ArgumentDescriptor>, given: usize) -> (
    r: Result<(), Error>)
    ensures
        given >= spec_required_count(declared@) ==> r == Ok::<(), Error>(()),
        given < spec_required_count(declared@) ==> (r matches Err(Error::ArgumentCount(e))
            && e.function_name@ == name@ && e.expect_count == spec_required_count(declared@)
            && e.given_count == given),
{
    let min = required_count(declared);
    if given < min {
        Err(Error::ArgumentCount(ArgumentCountError::new(name.clone(), min, given)))
    } else {
        Ok(())
    }
}

/// Dispatches a call to a module-scope function: validates the argument count,
/// then runs the handler on the marshalled arguments. A shortfall raises the
/// argument-count error and the handler never runs; otherwise the call returns
/// exactly what the handler returned.
pub fn call_function<F: FnOnce(Vec<Value>) -> Result<Value, Error>>(
    func: &FunctionDescriptor,
    handler: F,
    args: Vec<Value>,
) -> (r: Result<Value, Error>)
    requires
        args@.len() >= spec_required_count(func.arguments@) ==> call_requires(handler, (args,)),
    ensures
        args@.len() < spec_required_count(func.arguments@) ==> (r matches Err(
            Error::ArgumentCount(e),
        ) && e.function_name@ == func.name@ && e.expect_count == spec_required_count(
            func.arguments@,
        ) && e.given_count == args@.len()),
        args@.len() >= spec_required_count(func.arguments@) ==> call_ensures(
            handler,
            (args,),
            r,
        ),
{
    let given = args.len();
    match validate_argument_count(&func.name, &func.arguments, given) {
        Err(e) => Err(e),
        Ok(_) => handler(args),
    }
}

/// Dispatches a call to a method: like [`call_function`], with the receiver's
/// state box handed through the handler. On a shortfall the receiver comes
/// back untouched; otherwise receiver and result are exactly what the handler
/// left.
pub fn call_method<T, F: FnOnce(StateBox<T>, Vec<Value>) -> (StateBox<T>, Result<Value, Error>)>(
    method: &MethodDescriptor,
    handler: F,
    receiver: StateBox<T>,
    args: Vec<Value>,
) -> (out: (StateBox<T>, Result<Value, Error>))
    requires
        args@.len() >= spec_required_count(method.arguments@) ==> call_requires(
            handler,
            (receiver, args),
        ),
    ensures
        args@.len() < spec_required_count(method.arguments@) ==> (out.0 == receiver && (out.1
            matches Err(Error::ArgumentCount(e)) && e.function_name@ == method.name@
            && e.expect_count == spec_required_count(method.arguments@) && e.given_count
            == args@.len())),
        args@.len() >= spec_required_count(method.arguments@) ==> call_ensures(
            handler,
            (receiver, args),
            out,
        ),
{
    let given = args.len();
    match validate_argument_count(&method.name, &method.arguments, given) {
        Err(e) => (receiver, Err(e)),
        Ok(_) => handler(receiver, args),
    }
}

/// Applies the by-reference write-back after a handler returns: for each
/// argument slot, a by-reference slot takes the value the handler left there,
/// a by-value slot keeps the caller's original value. Trailing declared
/// arguments beyond the actual count have no slot to write back.
pub fn write_back(
    declared: &Vec<ArgumentDescriptor>,
    before: Vec<Value>,
    after: Vec<Value>,
) -> (r: Vec<Value>)
    requires
        before@.len() == after@.len(),
        before@.len() <= declared@.len(),
    ensures
        r@.len() == before@.len(),
        forall|i: int|
            0 <= i < r@.len() ==> r@[i] == if declared@[i].by_ref {
                after@[i]
            } else {
                before@[i]
            },
{
    let ghost before0 = before@;
    let ghost after0 = after@;
    let mut before = before;
    let mut after = after;
    let mut r: Vec<Value> = Vec::new();
    let mut i: usize = 0;
    let n = before.len();
    while i < n
        invariant
            i <= n,
            n == before0.len(),
            before0.len() == after0.len(),
            before0.len() <= declared@.len(),
            before@ =~= before0.subrange(i as int, n as int),
            after@ =~= after0.subrange(i as int, n as int),
            r@.len() == i,
            forall|k: int|
                0 <= k < i ==> r@[k] == if declared@[k].by_ref {
                    after0[k]
                } else {
                    before0[k]
                },
        decreases n - i,
    {
        let b = before.remove(0);
        let a = after.remove(0);
        if declared[i].by_ref {
            r.push(a);
        } else {
            r.push(b);
        }
        i = i + 1;
        proof {
            assert(before@ =~= before0.subrange(i as int, n as int));
            assert(after@ =~= after0.subrange(i as int, n as int));
        }
    }
    r
}

/// The triple that drives host exception construction: the class to allocate,
/// and the code and message to set on the instance.
#[derive(Debug)]
pub struct Exception {
    pub class_name: String,
    pub code: u64,
    pub message: String,
}

/// Translates a native error into the exception triple the host needs:
/// exactly the error's throwable class, code and message.
pub fn translate_to_exception(e: &Error) -> (x: Exception)
    ensures
        x.class_name@ == e.spec_class_entry(),
        x.code == e.spec_code(),
        x.message@ == e.spec_message(),
{
    Exception { class_name: e.class_entry(), code: e.code(), message: e.message() }
}

/// Builds the host exception for a native error: the triple to set on the
/// instance, plus the index of the target class in the host's class table.
/// An error whose class is missing from the table is a fatal configuration
/// failure, reported as class-not-found carrying the missing name.
pub fn prepare_exception(e: &Error, table: &Vec<String>) -> (r: Result<(usize, Exception), Error>)
    ensures
        r matches Ok((i, x)) ==> i < table@.len() && table@[i as int]@ == e.spec_class_entry()
            && x.class_name@ == e.spec_class_entry() && x.code == e.spec_code() && x.message@
            == e.spec_message(),
        (exists|k: int| 0 <= k < table@.len() && table@[k]@ == e.spec_class_entry()) ==> r is Ok,
        r is Err ==> forall|k: int| 0 <= k < table@.len() ==> table@[k]@ != e.spec_class_entry(),
        r matches Err(Error::ClassNotFound(c)) ==> c.class_name@ == e.spec_class_entry(),
        r is Err ==> r matches Err(Error::ClassNotFound(_)),
{
    let x = translate_to_exception(e);
    match resolve_exception_class(table, &x.class_name) {
        Ok(i) => Ok((i, x)),
        Err(err) => Err(err),
    }
}

/// Resolves an exception class by name in the host's class table. Succeeds
/// exactly when the name is present; a missing class is a class-not-found
/// failure carrying the name.
pub fn resolve_exception_class(table: &Vec<String>, name: &String) -> (r: Result<usize, Error>)
    ensures
        r matches Ok(i) ==> i < table@.len() && table@[i as int]@ == name@,
        r is Err ==> forall|k: int| 0 <= k < table@.len() ==> table@[k]@ != name@,
        (exists|k: int| 0 <= k < table@.len() && table@[k]@ == name@) ==> r is Ok,
        r matches Err(Error::ClassNotFound(c)) ==> c.class_name@ == name@,
        r is Err ==> r matches Err(Error::ClassNotFound(_)),
{
    let mut i: usize = 0;
    while i < table.len()
        invariant
            i <= table@.len(),
            forall|k: int| 0 <= k < i ==> table@[k]@ != name@,
        decreases table@.len() - i,
    {
        if table[i].eq(name) {
            return Ok(i);
        }
        i = i + 1;
    }
    Err(Error::ClassNotFound(ClassNotFoundError::new(name.clone())))
}

} // verus!
