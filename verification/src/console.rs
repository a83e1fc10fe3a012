//! Output through a writer that several flows of control share: the writer
//! sits behind a spin lock, and each print holds the lock for its whole text.

use vstd::prelude::*;
use core::ops::DerefMut;
use spin::{Mutex, MutexGuard};
use crate::writer::Writer;

verus! {

/// `spin::Mutex`, a lock that busy-waits. Opaque to the verifier.
#[verifier::external_type_specification]
#[verifier::external_body]
#[verifier::reject_recursive_types(T)]
pub struct ExMutex<T: ?Sized>(Mutex<T>);

/// `spin::MutexGuard`, which gives access to the locked value and releases
/// the lock when it is dropped. Opaque to the verifier.
#[verifier::external_type_specification]
#[verifier::external_body]
#[verifier::reject_recursive_types(T)]
pub struct ExMutexGuard<'a, T: ?Sized + 'a>(MutexGuard<'a, T>);

/// `spin::Mutex::lock`: spins until the lock is free, takes it and returns
/// the guard. Nothing is claimed of the state in which the writer is found.
/// It does not return while the lock is held, so a flow that already holds
/// the guard must not call it again.
#[verifier::external_body]
fn acquire<'a>(shared: &'a Mutex<Writer>) -> (guard: MutexGuard<'a, Writer>) {
    shared.lock()
}

/// `DerefMut::deref_mut` of `spin::MutexGuard`: the locked writer itself,
/// borrowed for as long as the guard is.
#[verifier::external_body]
fn locked_writer<'a, 'b>(guard: &'a mut MutexGuard<'b, Writer>) -> (writer: &'a mut Writer) {
    guard.deref_mut()
}

/// Prints `text` on the shared writer: takes the lock, writes the text as
/// `Writer::write_str` does, and releases the lock. The text comes out in
/// one piece, after whatever the lock's earlier holders wrote.
pub fn _print(shared: &Mutex<Writer>, text: &str) {
    let mut guard = acquire(shared);
    let writer = locked_writer(&mut guard);
    let written = writer.write_str(text);
    assert(written is Ok);
}

} // verus!
