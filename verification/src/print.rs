//! Formatted output through the one writer that all callers share.
//!
//! The writer sits behind a spin lock, which waits by spinning and needs
//! neither a heap nor a scheduler. A caller that holds the lock and prints
//! again never gets it: printing from inside a formatted value is not
//! supported.

use vstd::prelude::*;
use core::fmt::Write;
use core::ops::DerefMut;
use spin::mutex::{SpinMutex, SpinMutexGuard};
use crate::writer::Writer;

verus! {

/// `spin::relax::Spin`, the strategy of waiting by spinning.
#[verifier::external_type_specification]
#[verifier::external_body]
pub struct ExSpin(spin::relax::Spin);

/// `spin::mutex::SpinMutex`, a lock that waits by spinning.
#[verifier::external_type_specification]
#[verifier::external_body]
#[verifier::reject_recursive_types(T)]
#[verifier::reject_recursive_types(R)]
pub struct ExSpinMutex<T: ?Sized, R>(SpinMutex<T, R>);

/// `spin::mutex::SpinMutexGuard`, the exclusive access to what a
/// `SpinMutex` holds. Dropping it releases the lock.
#[verifier::external_type_specification]
#[verifier::external_body]
#[verifier::reject_recursive_types(T)]
pub struct ExSpinMutexGuard<'a, T: ?Sized>(SpinMutexGuard<'a, T>);

/// Why a message was not printed in full.
#[derive(Debug, Clone, Copy, PartialEq, Eq, Structural)]
pub enum PrintError {
    /// A value of the message failed to format itself.
    Format,
}

/// `SpinMutex::lock`: waits until the lock is free, takes it and returns
/// the guard. Nothing is claimed of the writer behind it: it is in the state
/// that the last holder left.
#[verifier::external_body]
fn acquire<'a>(writer: &'a SpinMutex<Writer>) -> (guard: SpinMutexGuard<'a, Writer>) {
    writer.lock()
}

/// `DerefMut::deref_mut` of `SpinMutexGuard`: the writer that the lock
/// holds. Nothing is claimed of its state.
#[verifier::external_body]
fn held<'a, 'b>(guard: &'a mut SpinMutexGuard<'b, Writer>) -> (writer: &'a mut Writer) {
    guard.deref_mut()
}

/// `core::fmt::Write::write_fmt`, through `write!`: formats the message and
/// hands each piece of text to `write_str`. It fails when a value of the
/// message fails to format itself, and then stops where it is. Nothing is
/// claimed of the result or of the writer, since both depend on how the
/// message formats itself.
#[verifier::external_body]
fn format_into<T: core::fmt::Display + ?Sized>(writer: &mut Writer, message: &T) -> (result: Result<
    (),
    core::fmt::Error,
>) {
    write!(writer, "{}", message)
}

/// The outcome of printing, from the outcome of formatting.
pub fn print_result(formatted: Result<(), core::fmt::Error>) -> (result: Result<(), PrintError>)
    ensures
        formatted is Ok ==> result == Ok::<(), PrintError>(()),
        formatted is Err ==> result == Err::<(), PrintError>(PrintError::Format),
{
    match formatted {
        Ok(()) => Ok(()),
        Err(_) => Err(PrintError::Format),
    }
}

/// Prints a message through the shared writer: takes the lock, formats the
/// message, writes it piece by piece as [`Writer::write_string`] does and
/// releases the lock. A message made by `format_args!` is printed as the
/// template and its values say.
///
/// The result is an error if a value of the message failed to format
/// itself; the pieces before it are on the screen then.
pub fn _print<T: core::fmt::Display + ?Sized>(writer: &SpinMutex<Writer>, message: &T) -> (result:
    Result<(), PrintError>) {
    let mut guard = acquire(writer);
    let locked = held(&mut guard);
    print_result(format_into(locked, message))
}

} // verus!
