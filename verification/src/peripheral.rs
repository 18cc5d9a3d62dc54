//! The shared peripheral holder: the port and timer register models,
//! handed out through a set-once cell so that a second initialization is
//! refused, as the interrupt-shared holder of the firmware demands.

use vstd::prelude::*;
use crate::driver::Port;

verus! {

/// Model of the one-shot timer: the compare register that starts the
/// count when written and stops it when zeroed.
#[derive(Clone, Copy, PartialEq, Eq, Structural)]
pub struct Timer {
    pub taccr0: u16,
}

/// The register blocks the translator owns.
pub struct At2XtPeripherals {
    pub port: Port,
    pub timer: Timer,
}

impl At2XtPeripherals {
    /// Store the peripherals into the shared cell. The cell is
    /// set-once: a second initialization is refused and changes nothing.
    pub fn init(self, cell: &mut Option<At2XtPeripherals>) -> (r: Result<(), ()>)
        ensures
            (*old(cell)) is None ==> r is Ok && *final(cell) == Some(self),
            (*old(cell)) is Some ==> r is Err && *final(cell) == *old(cell),
    {
        if cell.is_none() {
            *cell = Some(self);
            Ok(())
        } else {
            Err(())
        }
    }

    /// Borrow the peripherals from the shared cell, if it was initialized.
    pub fn periph_ref(cell: &Option<At2XtPeripherals>) -> (r: Option<&At2XtPeripherals>)
        ensures
            match r {
                Some(p) => cell is Some && *p == cell->Some_0,
                None => cell is None,
            },
    {
        cell.as_ref()
    }
}

} // verus!
