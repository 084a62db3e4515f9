use vstd::prelude::*;

verus! {

/// Takes the value out of a container that must hold one.
pub trait EnhancedUnwrap<T>: Sized {
    /// Whether the container holds a value.
    spec fn holds_value(&self) -> bool;

    /// The value held.
    spec fn held_value(&self) -> T;

    fn unwp(self) -> (r: T)
        requires
            self.holds_value(),
        ensures
            r == self.held_value(),
    ;
}

/// Takes the value out of a container that must hold one; `msg` tells where.
pub trait EnhancedExpect<T, E>: Sized {
    /// Whether the container holds a value.
    spec fn expects_value(&self) -> bool;

    /// The value held.
    spec fn expected_value(&self) -> T;

    fn ex(self, msg: &str) -> (r: T)
        requires
            self.expects_value(),
        ensures
            r == self.expected_value(),
    ;
}

impl<T, E> EnhancedUnwrap<T> for Result<T, E> {
    open spec fn holds_value(&self) -> bool {
        self is Ok
    }

    open spec fn held_value(&self) -> T {
        self->Ok_0
    }

    fn unwp(self) -> (r: T) {
        ok(self)
    }
}

impl<T, E> EnhancedExpect<T, E> for Result<T, E> {
    open spec fn expects_value(&self) -> bool {
        self is Ok
    }

    open spec fn expected_value(&self) -> T {
        self->Ok_0
    }

    fn ex(self, msg: &str) -> (r: T) {
        ok_ctx(self, msg)
    }
}

impl<T> EnhancedUnwrap<T> for Option<T> {
    open spec fn holds_value(&self) -> bool {
        self is Some
    }

    open spec fn held_value(&self) -> T {
        self->Some_0
    }

    fn unwp(self) -> (r: T) {
        some(self)
    }
}

impl<T> EnhancedExpect<T, String> for Option<T> {
    open spec fn expects_value(&self) -> bool {
        self is Some
    }

    open spec fn expected_value(&self) -> T {
        self->Some_0
    }

    fn ex(self, msg: &str) -> (r: T) {
        some_ctx(self, msg)
    }
}

/// The value of a result that must be `Ok`.
pub fn ok<T, E>(result: Result<T, E>) -> (r: T)
    requires
        result is Ok,
    ensures
        r == result->Ok_0,
{
    ok_ctx(result, "")
}

/// The value of an option that must be `Some`.
pub fn some<T>(option: Option<T>) -> (r: T)
    requires
        option is Some,
    ensures
        r == option->Some_0,
{
    some_ctx(option, "")
}

/// The value of a result that must be `Ok`; `msg` tells where.
pub fn ok_ctx<T, E>(result: Result<T, E>, msg: &str) -> (r: T)
    requires
        result is Ok,
    ensures
        r == result->Ok_0,
{
    result.ok().expect(msg)
}

/// The value of an option that must be `Some`; `msg` tells where.
pub fn some_ctx<T>(option: Option<T>, msg: &str) -> (r: T)
    requires
        option is Some,
    ensures
        r == option->Some_0,
{
    option.expect(msg)
}

/// Relies on `String::push_str`: the characters of `string` are appended.
pub assume_specification[ String::push_str ](s: &mut String, string: &str)
    ensures
        final(s)@ == old(s)@ + string@,
;

/// The message logged before a helper gives up: the error's rendering, the
/// caller's context and the trimmed backtrace.
pub fn panic_info(err_msg: &str, msg: &str, back_trace: &str) -> (r: String)
    ensures
        r@ == "this should never happen: "@ + err_msg@ + ", context: "@ + msg@ + ", back_trace: "@
            + back_trace@,
{
    let mut info = String::new();
    info.push_str("this should never happen: ");
    info.push_str(err_msg);
    info.push_str(", context: ");
    info.push_str(msg);
    info.push_str(", back_trace: ");
    info.push_str(back_trace);
    info
}

} // verus!
