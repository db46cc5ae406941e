use vstd::prelude::*;

use crate::error::Error;

verus! {

/// The machine software interrupt pending registers of the CLINT, one per hart; writing 1
/// raises a machine software interrupt on that hart.
#[derive(Debug)]
pub struct Clint {
    pub msip: Vec<u32>,
}

impl Clint {
    /// A CLINT for `nb_harts` harts with no interrupt pending.
    pub fn new(nb_harts: usize) -> (r: Self)
        ensures
            r.msip@.len() == nb_harts,
            forall|i: int| 0 <= i < nb_harts ==> #[trigger] r.msip@[i] == 0,
    {
        let mut msip: Vec<u32> = Vec::new();
        let mut i: usize = 0;
        while i < nb_harts
            invariant
                i <= nb_harts,
                msip@.len() == i,
                forall|j: int| 0 <= j < i ==> #[trigger] msip@[j] == 0,
            decreases nb_harts - i,
        {
            msip.push(0);
            i = i + 1;
        }
        Clint { msip }
    }
}

/// Error code reported when the CLINT has no register for the target hart.
pub const IPI_NO_SUCH_HART: usize = 1;

/// Sends inter-processor interrupts from the hart it runs on.
#[derive(Clone, Copy, Debug, PartialEq, Eq, Structural)]
pub struct InterruptController {
    /// The hart this controller runs on.
    pub hart_id: usize,
}

impl InterruptController {
    pub fn new(hart_id: usize) -> (r: Self)
        ensures
            r.hart_id == hart_id,
    {
        InterruptController { hart_id }
    }

    /// Raises a machine software interrupt on `target_hart_id`; nothing is sent to the hart
    /// itself. Fails when the CLINT has no register for the target.
    pub fn send_ipi(&self, clint: &mut Clint, target_hart_id: usize) -> (r: Result<(), Error>)
        ensures
            target_hart_id == self.hart_id ==> r is Ok && final(clint).msip@ == old(clint).msip@,
            target_hart_id != self.hart_id && target_hart_id < old(clint).msip@.len() ==> r is Ok
                && final(clint).msip@ == old(clint).msip@.update(target_hart_id as int, 1),
            target_hart_id != self.hart_id && target_hart_id >= old(clint).msip@.len() ==> r
                == Err::<(), Error>(Error::InterruptSendingError(IPI_NO_SUCH_HART))
                && final(clint).msip@ == old(clint).msip@,
    {
        if target_hart_id == self.hart_id {
            return Ok(());
        }
        if target_hart_id < clint.msip.len() {
            clint.msip.set(target_hart_id, 1);
            Ok(())
        } else {
            Err(Error::InterruptSendingError(IPI_NO_SUCH_HART))
        }
    }
}

} // verus!
