//! Utilities
use vstd::prelude::*;

verus! {

/// Converts a value returned by a libc function to a rust result.
pub trait FromLibcResult: Sized {
    type Target;

    /// Whether the value is the function's failure indication.
    spec fn is_failure(&self) -> bool;

    /// The value carried on success.
    spec fn target(&self) -> Self::Target;

    /// The intented use is for the user to call map_err() after this function.
    fn to_result(self) -> (r: Result<Self::Target, ()>)
        ensures
            self.is_failure() ==> r == Err::<Self::Target, ()>(()),
            !self.is_failure() ==> r == Ok::<Self::Target, ()>(self.target()),
    ;
}

impl FromLibcResult for libc::c_int {
    type Target = libc::c_int;

    /// libc functions that return an `int` report failure as `-1`.
    open spec fn is_failure(&self) -> bool {
        *self == -1
    }

    open spec fn target(&self) -> libc::c_int {
        *self
    }

    fn to_result(self) -> (r: Result<libc::c_int, ()>) {
        match self {
            -1 => Err(()),
            res => Ok(res),
        }
    }
}

/// The shell used when neither the environment nor the user database names
/// one.
pub const FALLBACK_SHELL: &'static str = "/bin/sh";

/// Picks the shell to run: the one the environment names, else the one the
/// user database registers for the user, else `/bin/sh`.
pub fn resolve_shell(env_shell: Option<String>, passwd_shell: Option<String>) -> (r: String)
    ensures
        r@ == match env_shell {
            Some(s) => s@,
            None => match passwd_shell {
                Some(s) => s@,
                None => FALLBACK_SHELL@,
            },
        },
{
    match env_shell {
        Some(s) => s,
        None => match passwd_shell {
            Some(s) => s,
            None => FALLBACK_SHELL.to_owned(),
        },
    }
}

/// The first `n` bytes of `buf`, copied.
pub(crate) fn copy_prefix(buf: &[u8], n: usize) -> (r: Vec<u8>)
    requires
        n <= buf@.len(),
    ensures
        r@ == buf@.subrange(0, n as int),
{
    let mut r: Vec<u8> = Vec::new();
    let mut i: usize = 0;
    while i < n
        invariant
            i <= n <= buf@.len(),
            r@ == buf@.subrange(0, i as int),
        decreases n - i,
    {
        r.push(buf[i]);
        i = i + 1;
        assert(r@ =~= buf@.subrange(0, i as int));
    }
    r
}

} // verus!
