//! Error taxonomy and native return-code checking.

use vstd::prelude::*;

verus! {

/// Return code of a successful native call.
pub const SQL_SUCCESS: i16 = 0;

/// Return code of a successful native call that carries extra information.
pub const SQL_SUCCESS_WITH_INFO: i16 = 1;

/// Return code reporting that a fetch sequence is exhausted.
pub const SQL_NO_DATA: i16 = 100;

/// Generic native failure code.
pub const SQL_ERROR: i16 = -1;

/// The errors the binding engine reports.
#[derive(PartialEq, Eq, Structural)]
#[derive(Clone, Copy, Debug)]
pub enum Error {
    /// A native call returned a non-success code; carries that code.
    Odbc(i16),
    /// A record shape is outside what the traversal protocol supports.
    StructuralError,
}

/// A native return code counts as success when it is plain success, success
/// with extra information, or the end-of-data report.
pub open spec fn rc_ok(rc: i16) -> bool {
    rc == SQL_SUCCESS || rc == SQL_SUCCESS_WITH_INFO || rc == SQL_NO_DATA
}

/// Turns a native return code into the engine's result type.
pub trait OdbcResult: Sized {
    spec fn rc_spec(&self) -> i16;

    fn check(self) -> (r: Result<(), Error>)
        ensures
            rc_ok(self.rc_spec()) ==> r == Result::<(), Error>::Ok(()),
            !rc_ok(self.rc_spec()) ==> r == Result::<(), Error>::Err(Error::Odbc(self.rc_spec())),
    ;
}

impl OdbcResult for i16 {
    open spec fn rc_spec(&self) -> i16 {
        *self
    }

    fn check(self) -> (r: Result<(), Error>) {
        if self == SQL_SUCCESS || self == SQL_SUCCESS_WITH_INFO || self == SQL_NO_DATA {
            Ok(())
        } else {
            Err(Error::Odbc(self))
        }
    }
}

} // verus!
