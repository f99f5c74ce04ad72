//! The native error taxonomy and its translation into host exceptions.
//!
//! Every error kind exposes the triple the host needs to build an exception
//! object: a target exception class name, a numeric code (default 0) and a
//! rendered message (default: the kind's own description). The crate-level
//! [`Error`] enum delegates transparently to the wrapped cause for the kinds
//! that carry one of the crate's own error structs, and falls back to the
//! generic `ErrorException` class for the kinds that wrap an outside failure
//! description.

use vstd::prelude::*;
use vstd::string::StringExecFns;

verus! {

broadcast use vstd::string::group_string_axioms;

/// A throwable error kind: carries enough metadata to construct a host
/// exception. `class_entry` names the host exception class, `code` and
/// `message` fill its fields.
pub trait Throwable {
    /// The name of the host exception class this kind maps to.
    spec fn spec_class_entry(&self) -> Seq<char>;

    /// The numeric exception code.
    spec fn spec_code(&self) -> u64;

    /// The rendered exception message.
    spec fn spec_message(&self) -> Seq<char>;

    /// The name of the host exception class this kind maps to.
    fn class_entry(&self) -> (r: String)
        ensures
            r@ == self.spec_class_entry(),
    ;

    /// The numeric exception code.
    fn code(&self) -> (r: u64)
        ensures
            r == self.spec_code(),
    ;

    /// The rendered exception message.
    fn message(&self) -> (r: String)
        ensures
            r@ == self.spec_message(),
    ;
}

/// The decimal digit character for a single digit value.
pub open spec fn dec_digit(d: nat) -> char
    recommends
        d < 10,
{
    if d == 0 {
        '0'
    } else if d == 1 {
        '1'
    } else if d == 2 {
        '2'
    } else if d == 3 {
        '3'
    } else if d == 4 {
        '4'
    } else if d == 5 {
        '5'
    } else if d == 6 {
        '6'
    } else if d == 7 {
        '7'
    } else if d == 8 {
        '8'
    } else {
        '9'
    }
}

/// The decimal rendering of a natural number, most significant digit first,
/// without leading zeros (except for zero itself).
pub open spec fn dec_str(n: nat) -> Seq<char>
    decreases n,
{
    if n < 10 {
        seq![dec_digit(n)]
    } else {
        dec_str(n / 10).push(dec_digit(n % 10))
    }
}

fn dec_digit_string(d: usize) -> (s: String)
    requires
        d < 10,
    ensures
        s@ == seq![dec_digit(d as nat)],
{
    let s: &str = if d == 0 {
        "0"
    } else if d == 1 {
        "1"
    } else if d == 2 {
        "2"
    } else if d == 3 {
        "3"
    } else if d == 4 {
        "4"
    } else if d == 5 {
        "5"
    } else if d == 6 {
        "6"
    } else if d == 7 {
        "7"
    } else if d == 8 {
        "8"
    } else {
        "9"
    };
    proof {
        reveal_strlit("0");
        reveal_strlit("1");
        reveal_strlit("2");
        reveal_strlit("3");
        reveal_strlit("4");
        reveal_strlit("5");
        reveal_strlit("6");
        reveal_strlit("7");
        reveal_strlit("8");
        reveal_strlit("9");
        assert(s@ =~= seq![dec_digit(d as nat)]);
    }
    s.to_owned()
}

/// Renders a count in decimal, exactly as [`dec_str`] describes.
pub fn usize_to_dec_string(n: usize) -> (s: String)
    ensures
        s@ == dec_str(n as nat),
    decreases n,
{
    if n < 10 {
        dec_digit_string(n)
    } else {
        let q = n / 10;
        let r = n % 10;
        let mut s = usize_to_dec_string(q);
        let rs = dec_digit_string(r);
        s.append(rs.as_str());
        proof {
            assert(s@ =~= dec_str(n as nat));
        }
        s
    }
}

/// A value had the wrong tag for a requested native conversion.
#[derive(Debug)]
pub struct TypeError {
    pub message: String,
}

/// The message of a [`TypeError`] built from its payload.
pub open spec fn spec_type_error_message(payload: Seq<char>) -> Seq<char> {
    "type error: "@ + payload
}

impl TypeError {
    /// Wraps a description of the mismatch.
    pub fn new(message: String) -> (r: Self)
        ensures
            r.message == message,
    {
        TypeError { message }
    }
}

impl Throwable for TypeError {
    open spec fn spec_class_entry(&self) -> Seq<char> {
        "TypeError"@
    }

    open spec fn spec_code(&self) -> u64 {
        0
    }

    open spec fn spec_message(&self) -> Seq<char> {
        spec_type_error_message(self.message@)
    }

    fn class_entry(&self) -> (r: String) {
        "TypeError".to_owned()
    }

    fn code(&self) -> (r: u64) {
        0
    }

    fn message(&self) -> (r: String) {
        "type error: ".to_owned().concat(self.message.as_str())
    }
}

/// A host exception class name could not be resolved in the host's class
/// table.
#[derive(Debug)]
pub struct ClassNotFoundError {
    pub class_name: String,
}

/// The message of a [`ClassNotFoundError`] built from the class name.
pub open spec fn spec_class_not_found_message(class_name: Seq<char>) -> Seq<char> {
    "Class '"@ + class_name + "' not found"@
}

impl ClassNotFoundError {
    /// Wraps the unresolved class name.
    pub fn new(class_name: String) -> (r: Self)
        ensures
            r.class_name == class_name,
    {
        ClassNotFoundError { class_name }
    }
}

impl Throwable for ClassNotFoundError {
    open spec fn spec_class_entry(&self) -> Seq<char> {
        "Error"@
    }

    open spec fn spec_code(&self) -> u64 {
        0
    }

    open spec fn spec_message(&self) -> Seq<char> {
        spec_class_not_found_message(self.class_name@)
    }

    fn class_entry(&self) -> (r: String) {
        "Error".to_owned()
    }

    fn code(&self) -> (r: u64) {
        0
    }

    fn message(&self) -> (r: String) {
        let mut s = "Class '".to_owned();
        s.append(self.class_name.as_str());
        s.append("' not found");
        s
    }
}

/// A state-box downcast was requested under a type tag other than the one the
/// class declared.
#[derive(Debug)]
pub struct StateTypeError;

impl Throwable for StateTypeError {
    open spec fn spec_class_entry(&self) -> Seq<char> {
        "Error"@
    }

    open spec fn spec_code(&self) -> u64 {
        0
    }

    open spec fn spec_message(&self) -> Seq<char> {
        "Actual State type in generic type parameter isn't the state type registered in the class, please confirm the real state type, or use StatelessClassEntry"@
    }

    fn class_entry(&self) -> (r: String) {
        "Error".to_owned()
    }

    fn code(&self) -> (r: u64) {
        0
    }

    fn message(&self) -> (r: String) {
        "Actual State type in generic type parameter isn't the state type registered in the class, please confirm the real state type, or use StatelessClassEntry".to_owned()
    }
}

/// A callable was invoked with fewer arguments than its declared minimum.
#[derive(Debug)]
pub struct ArgumentCountError {
    pub function_name: String,
    pub expect_count: usize,
    pub given_count: usize,
}

/// The message of an [`ArgumentCountError`] built from its fields.
pub open spec fn spec_argument_count_message(
    function_name: Seq<char>,
    expect_count: nat,
    given_count: nat,
) -> Seq<char> {
    function_name + "(): expects at least "@ + dec_str(expect_count) + " parameter(s), "@
        + dec_str(given_count) + " given"@
}

impl ArgumentCountError {
    /// Records the callable's name, its declared minimum and the actual count.
    pub fn new(function_name: String, expect_count: usize, given_count: usize) -> (r: Self)
        ensures
            r.function_name == function_name,
            r.expect_count == expect_count,
            r.given_count == given_count,
    {
        ArgumentCountError { function_name, expect_count, given_count }
    }
}

impl Throwable for ArgumentCountError {
    open spec fn spec_class_entry(&self) -> Seq<char> {
        "ArgumentCountError"@
    }

    open spec fn spec_code(&self) -> u64 {
        0
    }

    open spec fn spec_message(&self) -> Seq<char> {
        spec_argument_count_message(
            self.function_name@,
            self.expect_count as nat,
            self.given_count as nat,
        )
    }

    fn class_entry(&self) -> (r: String) {
        "ArgumentCountError".to_owned()
    }

    fn code(&self) -> (r: u64) {
        0
    }

    fn message(&self) -> (r: String) {
        let mut s = self.function_name.clone();
        s.append("(): expects at least ");
        let e = usize_to_dec_string(self.expect_count);
        s.append(e.as_str());
        s.append(" parameter(s), ");
        let g = usize_to_dec_string(self.given_count);
        s.append(g.as_str());
        s.append(" given");
        s
    }
}

/// The host exception class for an argument-count shortfall. Modern hosts have
/// a dedicated class; hosts older than version id 70100 lack it and fall back
/// to the generic type error class. This is the single version-conditional
/// behavior of the bridge.
pub fn argument_count_error_class(host_version_id: u64) -> (r: String)
    ensures
        host_version_id >= 70100 ==> r@ == "ArgumentCountError"@,
        host_version_id < 70100 ==> r@ == "TypeError"@,
{
    if host_version_id >= 70100 {
        "ArgumentCountError".to_owned()
    } else {
        "TypeError".to_owned()
    }
}

/// A free-function call could not be performed.
#[derive(Debug)]
pub struct CallFunctionError {
    pub fn_name: String,
}

/// The message of a [`CallFunctionError`] built from the function name.
pub open spec fn spec_call_function_message(fn_name: Seq<char>) -> Seq<char> {
    "Invalid call to "@ + fn_name
}

impl CallFunctionError {
    /// Records the name of the callable that could not be invoked.
    pub fn new(fn_name: String) -> (r: Self)
        ensures
            r.fn_name == fn_name,
    {
        CallFunctionError { fn_name }
    }
}

impl Throwable for CallFunctionError {
    open spec fn spec_class_entry(&self) -> Seq<char> {
        "BadFunctionCallException"@
    }

    open spec fn spec_code(&self) -> u64 {
        0
    }

    open spec fn spec_message(&self) -> Seq<char> {
        spec_call_function_message(self.fn_name@)
    }

    fn class_entry(&self) -> (r: String) {
        "BadFunctionCallException".to_owned()
    }

    fn code(&self) -> (r: u64) {
        0
    }

    fn message(&self) -> (r: String) {
        "Invalid call to ".to_owned().concat(self.fn_name.as_str())
    }
}

/// A method call could not be performed.
#[derive(Debug)]
pub struct CallMethodError {
    pub class_name: String,
    pub method_name: String,
}

/// The message of a [`CallMethodError`] built from class and method name.
pub open spec fn spec_call_method_message(class_name: Seq<char>, method_name: Seq<char>) -> Seq<
    char,
> {
    "Invalid call to "@ + class_name + "::"@ + method_name
}

impl CallMethodError {
    /// Records the class and method that could not be invoked.
    pub fn new(class_name: String, method_name: String) -> (r: Self)
        ensures
            r.class_name == class_name,
            r.method_name == method_name,
    {
        CallMethodError { class_name, method_name }
    }
}

impl Throwable for CallMethodError {
    open spec fn spec_class_entry(&self) -> Seq<char> {
        "BadMethodCallException"@
    }

    open spec fn spec_code(&self) -> u64 {
        0
    }

    open spec fn spec_message(&self) -> Seq<char> {
        spec_call_method_message(self.class_name@, self.method_name@)
    }

    fn class_entry(&self) -> (r: String) {
        "BadMethodCallException".to_owned()
    }

    fn code(&self) -> (r: u64) {
        0
    }

    fn message(&self) -> (r: String) {
        let mut s = "Invalid call to ".to_owned();
        s.append(self.class_name.as_str());
        s.append("::");
        s.append(self.method_name.as_str());
        s
    }
}

/// An instance of a registered class could not be constructed.
#[derive(Debug)]
pub struct InitializeObjectError {
    pub class_name: String,
}

/// The message of an [`InitializeObjectError`] built from the class name.
pub open spec fn spec_initialize_object_message(class_name: Seq<char>) -> Seq<char> {
    "Cannot instantiate class "@ + class_name
}

impl InitializeObjectError {
    /// Records the class whose instance could not be constructed.
    pub fn new(class_name: String) -> (r: Self)
        ensures
            r.class_name == class_name,
    {
        InitializeObjectError { class_name }
    }
}

impl Throwable for InitializeObjectError {
    open spec fn spec_class_entry(&self) -> Seq<char> {
        "Error"@
    }

    open spec fn spec_code(&self) -> u64 {
        0
    }

    open spec fn spec_message(&self) -> Seq<char> {
        spec_initialize_object_message(self.class_name@)
    }

    fn class_entry(&self) -> (r: String) {
        "Error".to_owned()
    }

    fn code(&self) -> (r: u64) {
        0
    }

    fn message(&self) -> (r: String) {
        "Cannot instantiate class ".to_owned().concat(self.class_name.as_str())
    }
}

/// A value of a non-refcounted tag was used where a refcounted one is needed.
#[derive(Debug)]
pub struct NotRefCountedTypeError;

impl Throwable for NotRefCountedTypeError {
    open spec fn spec_class_entry(&self) -> Seq<char> {
        "TypeError"@
    }

    open spec fn spec_code(&self) -> u64 {
        0
    }

    open spec fn spec_message(&self) -> Seq<char> {
        "the type is not refcounted"@
    }

    fn class_entry(&self) -> (r: String) {
        "TypeError".to_owned()
    }

    fn code(&self) -> (r: u64) {
        0
    }

    fn message(&self) -> (r: String) {
        "the type is not refcounted".to_owned()
    }
}

/// The crate-level error: every native failure the bridge surfaces to the
/// host. The kinds that wrap one of the crate's own error structs are
/// throwable-transparent: class, code and message come from the wrapped cause.
/// The remaining kinds wrap a failure description from outside the bridge
/// (an I/O failure, a decoding failure, an arbitrary caller-supplied one) and
/// map to the generic `ErrorException` class with that description as message.
#[derive(Debug)]
pub enum Error {
    Io(String),
    Utf8(String),
    FromBytesWithNul(String),
    Other(String),
    Type(TypeError),
    ClassNotFound(ClassNotFoundError),
    ArgumentCount(ArgumentCountError),
    StateType(StateTypeError),
    CallFunction(CallFunctionError),
    CallMethod(CallMethodError),
    InitializeObject(InitializeObjectError),
    NotRefCountedType(NotRefCountedTypeError),
}

impl Error {
    /// Wraps an arbitrary caller-supplied failure description.
    pub fn other(message: String) -> (r: Self)
        ensures
            r == Error::Other(message),
    {
        Error::Other(message)
    }
}

impl Throwable for Error {
    open spec fn spec_class_entry(&self) -> Seq<char> {
        match self {
            Error::Io(_) => "ErrorException"@,
            Error::Utf8(_) => "ErrorException"@,
            Error::FromBytesWithNul(_) => "ErrorException"@,
            Error::Other(_) => "ErrorException"@,
            Error::Type(e) => e.spec_class_entry(),
            Error::ClassNotFound(e) => e.spec_class_entry(),
            Error::ArgumentCount(e) => e.spec_class_entry(),
            Error::StateType(e) => e.spec_class_entry(),
            Error::CallFunction(e) => e.spec_class_entry(),
            Error::CallMethod(e) => e.spec_class_entry(),
            Error::InitializeObject(e) => e.spec_class_entry(),
            Error::NotRefCountedType(e) => e.spec_class_entry(),
        }
    }

    open spec fn spec_code(&self) -> u64 {
        match self {
            Error::Io(_) => 0,
            Error::Utf8(_) => 0,
            Error::FromBytesWithNul(_) => 0,
            Error::Other(_) => 0,
            Error::Type(e) => e.spec_code(),
            Error::ClassNotFound(e) => e.spec_code(),
            Error::ArgumentCount(e) => e.spec_code(),
            Error::StateType(e) => e.spec_code(),
            Error::CallFunction(e) => e.spec_code(),
            Error::CallMethod(e) => e.spec_code(),
            Error::InitializeObject(e) => e.spec_code(),
            Error::NotRefCountedType(e) => e.spec_code(),
        }
    }

    open spec fn spec_message(&self) -> Seq<char> {
        match self {
            Error::Io(m) => m@,
            Error::Utf8(m) => m@,
            Error::FromBytesWithNul(m) => m@,
            Error::Other(m) => m@,
            Error::Type(e) => e.spec_message(),
            Error::ClassNotFound(e) => e.spec_message(),
            Error::ArgumentCount(e) => e.spec_message(),
            Error::StateType(e) => e.spec_message(),
            Error::CallFunction(e) => e.spec_message(),
            Error::CallMethod(e) => e.spec_message(),
            Error::InitializeObject(e) => e.spec_message(),
            Error::NotRefCountedType(e) => e.spec_message(),
        }
    }

    fn class_entry(&self) -> (r: String) {
        match self {
            Error::Io(_) => "ErrorException".to_owned(),
            Error::Utf8(_) => "ErrorException".to_owned(),
            Error::FromBytesWithNul(_) => "ErrorException".to_owned(),
            Error::Other(_) => "ErrorException".to_owned(),
            Error::Type(e) => e.class_entry(),
            Error::ClassNotFound(e) => e.class_entry(),
            Error::ArgumentCount(e) => e.class_entry(),
            Error::StateType(e) => e.class_entry(),
            Error::CallFunction(e) => e.class_entry(),
            Error::CallMethod(e) => e.class_entry(),
            Error::InitializeObject(e) => e.class_entry(),
            Error::NotRefCountedType(e) => e.class_entry(),
        }
    }

    fn code(&self) -> (r: u64) {
        match self {
            Error::Io(_) => 0,
            Error::Utf8(_) => 0,
            Error::FromBytesWithNul(_) => 0,
            Error::Other(_) => 0,
            Error::Type(e) => e.code(),
            Error::ClassNotFound(e) => e.code(),
            Error::ArgumentCount(e) => e.code(),
            Error::StateType(e) => e.code(),
            Error::CallFunction(e) => e.code(),
            Error::CallMethod(e) => e.code(),
            Error::InitializeObject(e) => e.code(),
            Error::NotRefCountedType(e) => e.code(),
        }
    }

    fn message(&self) -> (r: String) {
        match self {
            Error::Io(m) => m.clone(),
            Error::Utf8(m) => m.clone(),
            Error::FromBytesWithNul(m) => m.clone(),
            Error::Other(m) => m.clone(),
            Error::Type(e) => e.message(),
            Error::ClassNotFound(e) => e.message(),
            Error::ArgumentCount(e) => e.message(),
            Error::StateType(e) => e.message(),
            Error::CallFunction(e) => e.message(),
            Error::CallMethod(e) => e.message(),
            Error::InitializeObject(e) => e.message(),
            Error::NotRefCountedType(e) => e.message(),
        }
    }
}

/// A transparent error variant wrapping a cause throws exactly the cause's
/// class, code and message: wrapping a class-not-found failure in the
/// crate-level error changes nothing the host can observe.
pub proof fn lemma_transparent_class_not_found(c: ClassNotFoundError)
    ensures
        Error::ClassNotFound(c).spec_class_entry() == c.spec_class_entry(),
        Error::ClassNotFound(c).spec_code() == c.spec_code(),
        Error::ClassNotFound(c).spec_message() == c.spec_message(),
{
}

/// The same transparency holds for every variant that wraps one of the
/// crate's own error structs: here, a wrapped type error.
pub proof fn lemma_transparent_type_error(c: TypeError)
    ensures
        Error::Type(c).spec_class_entry() == c.spec_class_entry(),
        Error::Type(c).spec_code() == c.spec_code(),
        Error::Type(c).spec_message() == c.spec_message(),
{
}

} // verus!
