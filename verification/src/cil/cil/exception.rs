//! Exception handlers of a method body.
use vstd::prelude::*;
use super::enums::ExceptionHandlerType;
use crate::cil::clr::token::Token;

verus! {

/// The size of a handler record in a tiny section.
pub const TINY_SIZE: usize = 12;

/// The size of a handler record in a fat section.
pub const FAT_SIZE: usize = 24;

/// The offset of a handler that has none set.
pub const UNSET: i64 = -1;

/// A protected region and its handler. Offsets count from the start of the
/// code, ends are offsets too, and `-1` stands for an offset that is not set.
#[derive(Debug, Clone, Copy, PartialEq, Eq, Structural)]
pub struct ExceptionHandler {
    pub exception_type: usize,
    pub try_start: i64,
    pub try_end: i64,
    pub filter_start: i64,
    pub handler_start: i64,
    pub handler_end: i64,
    pub catch_type: Option<Token>,
}

impl ExceptionHandler {
    /// A handler of the given flags with no offset set.
    pub open spec fn spec_new(exception_type: usize) -> ExceptionHandler {
        ExceptionHandler {
            exception_type,
            try_start: UNSET,
            try_end: UNSET,
            filter_start: UNSET,
            handler_start: UNSET,
            handler_end: UNSET,
            catch_type: None,
        }
    }

    pub open spec fn spec_is_catch(&self) -> bool {
        self.exception_type & 7 == ExceptionHandlerType::CATCH
    }

    pub open spec fn spec_is_filter(&self) -> bool {
        self.exception_type & ExceptionHandlerType::FILTER != 0
    }

    pub open spec fn spec_is_finally(&self) -> bool {
        self.exception_type & ExceptionHandlerType::FINALLY != 0
    }

    pub open spec fn spec_is_fault(&self) -> bool {
        self.exception_type & ExceptionHandlerType::FAULT != 0
    }

    /// A handler of the given flags with no offset set.
    pub fn new(exception_type: usize) -> (r: Self)
        ensures
            r == ExceptionHandler::spec_new(exception_type),
    {
        Self {
            exception_type,
            try_start: UNSET,
            try_end: UNSET,
            filter_start: UNSET,
            handler_start: UNSET,
            handler_end: UNSET,
            catch_type: None,
        }
    }

    /// Whether the handler catches a type: the low three bits are clear.
    #[verifier::when_used_as_spec(spec_is_catch)]
    pub fn is_catch(&self) -> (r: bool)
        ensures
            r == self.spec_is_catch(),
    {
        self.exception_type & 7 == ExceptionHandlerType::CATCH
    }

    /// Whether the handler has a filter.
    #[verifier::when_used_as_spec(spec_is_filter)]
    pub fn is_filter(&self) -> (r: bool)
        ensures
            r == self.spec_is_filter(),
    {
        self.exception_type & ExceptionHandlerType::FILTER != 0
    }

    /// Whether the handler is a finally block.
    #[verifier::when_used_as_spec(spec_is_finally)]
    pub fn is_finally(&self) -> (r: bool)
        ensures
            r == self.spec_is_finally(),
    {
        self.exception_type & ExceptionHandlerType::FINALLY != 0
    }

    /// Whether the handler is a fault block.
    #[verifier::when_used_as_spec(spec_is_fault)]
    pub fn is_fault(&self) -> (r: bool)
        ensures
            r == self.spec_is_fault(),
    {
        self.exception_type & ExceptionHandlerType::FAULT != 0
    }
}

} // verus!
