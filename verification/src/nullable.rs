//! Nullable wrapper: a value paired with a native length/NULL indicator.

use vstd::prelude::*;
use crate::bind_types::spec_kind_size;
use crate::value::{Scalar, Value};

verus! {

/// The native sentinel indicator meaning "absent/NULL".
pub const SQL_NULL_DATA: i64 = -1;

/// A value paired with a native indicator: the sentinel means the value is
/// absent; any other indicator is the byte length of the present payload.
#[derive(Debug, PartialEq, Eq)]
pub struct Nullable {
    /// The native indicator.
    pub indicator: i64,
    /// The wrapped value; meaningful only while the indicator is not the
    /// NULL sentinel.
    pub value: Box<Value>,
}

impl Nullable {
    /// True when the indicator is not the NULL sentinel.
    pub open spec fn spec_present(&self) -> bool {
        self.indicator != SQL_NULL_DATA
    }

    /// An absent value; the placeholder only reserves storage.
    pub fn null(placeholder: Scalar) -> (r: Nullable)
        ensures
            r.indicator == SQL_NULL_DATA,
            !r.spec_present(),
            *r.value == Value::Scalar(placeholder),
    {
        Nullable { indicator: SQL_NULL_DATA, value: Box::new(Value::Scalar(placeholder)) }
    }

    /// A present value; the indicator is the payload's byte size.
    pub fn present(value: Scalar) -> (r: Nullable)
        ensures
            r.indicator == spec_kind_size(value.spec_kind()),
            r.spec_present(),
            *r.value == Value::Scalar(value),
    {
        let size = value.kind().size();
        Nullable { indicator: size as i64, value: Box::new(Value::Scalar(value)) }
    }

    /// Wraps an optional scalar: an absent one gets the NULL sentinel, a
    /// present one an indicator equal to its byte size.
    pub fn from_option(value: Option<Scalar>, placeholder: Scalar) -> (r: Nullable)
        ensures
            value is None ==> r.indicator == SQL_NULL_DATA && *r.value == Value::Scalar(
                placeholder,
            ),
            value is Some ==> r.indicator == spec_kind_size(value->0.spec_kind()) && *r.value
                == Value::Scalar(value->0),
    {
        match value {
            None => Self::null(placeholder),
            Some(s) => Self::present(s),
        }
    }

    /// The wrapped value, or nothing while the indicator is the sentinel.
    pub fn as_ref(&self) -> (r: Option<&Value>)
        ensures
            self.spec_present() ==> r == Some(&*self.value),
            !self.spec_present() ==> r is None,
    {
        if self.indicator == SQL_NULL_DATA {
            None
        } else {
            Some(&*self.value)
        }
    }

    /// Unwraps into an optional value: absent becomes nothing.
    pub fn into_option(self) -> (r: Option<Value>)
        ensures
            self.spec_present() ==> r == Some(*self.value),
            !self.spec_present() ==> r is None,
    {
        if self.indicator == SQL_NULL_DATA {
            None
        } else {
            Some(*self.value)
        }
    }

    /// Stores a present scalar; the indicator becomes its byte size.
    pub fn set_present(&mut self, value: Scalar)
        ensures
            final(self).indicator == spec_kind_size(value.spec_kind()),
            final(self).spec_present(),
            *final(self).value == Value::Scalar(value),
    {
        let size = value.kind().size();
        self.indicator = size as i64;
        self.value = Box::new(Value::Scalar(value));
    }

    /// Marks the value absent; the stored payload stays as reserved storage.
    pub fn set_null(&mut self)
        ensures
            final(self).indicator == SQL_NULL_DATA,
            !final(self).spec_present(),
            final(self).value == old(self).value,
    {
        self.indicator = SQL_NULL_DATA;
    }
}

} // verus!
