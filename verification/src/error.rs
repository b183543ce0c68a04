use vstd::prelude::*;

verus! {

/// The single failure kind of this library: the operating system rejected a
/// CPU-time clock query. The value carries the platform's last-error code
/// and a human-readable description of it.
#[derive(Clone, Copy, PartialEq, Eq, Hash, Debug)]
pub struct TimeError {
    code: i32,
    msg: &'static str,
}

impl TimeError {
    #[verifier::type_invariant]
    spec fn wf(self) -> bool {
        self.msg@.len() > 0
    }

    /// The last-error code the spec view exposes.
    pub closed spec fn spec_code(&self) -> int {
        self.code as int
    }

    /// The diagnostic message the spec view exposes.
    pub closed spec fn spec_message(&self) -> Seq<char> {
        self.msg@
    }

    /// An error from a raw OS error code and its description.
    pub fn new(code: i32, msg: &'static str) -> (r: Self)
        requires
            msg@.len() > 0,
        ensures
            r.spec_code() == code,
            r.spec_message() == msg@,
    {
        TimeError { code, msg }
    }

    /// The raw last-error code reported by the OS.
    pub fn raw_os_error(&self) -> (r: i32)
        ensures
            r == self.spec_code(),
    {
        self.code
    }

    /// A non-empty diagnostic describing the failed clock query.
    pub fn message(&self) -> (r: &'static str)
        ensures
            r@ == self.spec_message(),
            r@.len() > 0,
    {
        proof {
            use_type_invariant(*self);
        }
        self.msg
    }
}

} // verus!
