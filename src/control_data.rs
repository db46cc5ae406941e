use vstd::prelude::*;

use crate::error::Error;
use crate::hart::{ConfidentialHart, HartLifecycle};
use crate::shared_page::MemoryProtector;

verus! {

/// Identifier of a confidential VM.
#[derive(Clone, Copy, Debug, PartialEq, Eq, Structural)]
pub struct ConfidentialVmId {
    pub id: usize,
}

impl ConfidentialVmId {
    pub fn new(id: usize) -> (r: Self)
        ensures
            r.id == id,
    {
        ConfidentialVmId { id }
    }

    pub fn usize(&self) -> (r: usize)
        ensures
            r == self.id,
    {
        self.id
    }
}

/// A range `[start, end)` of guest-physical addresses where the VM expects MMIO devices.
#[derive(Clone, Copy, Debug, PartialEq, Eq, Structural)]
pub struct MmioRegion {
    pub start: usize,
    pub end: usize,
}

/// The harts an inter-processor request is for, in the SBI encoding: bit `i` of `hart_mask`
/// selects hart `hart_mask_base + i`, and a base of `usize::MAX` selects every hart.
#[derive(Clone, Copy, Debug, PartialEq, Eq, Structural)]
pub struct Ipi {
    pub hart_mask: usize,
    pub hart_mask_base: usize,
}

impl Ipi {
    pub open spec fn selects(self, hart_id: usize) -> bool {
        self.hart_mask_base == usize::MAX || (self.hart_mask_base <= hart_id && hart_id
            - self.hart_mask_base < 64 && ((self.hart_mask as u64) >> ((hart_id
            - self.hart_mask_base) as u64)) & 1 == 1)
    }

    pub fn is_hart_selected(&self, hart_id: usize) -> (r: bool)
        ensures
            r == self.selects(hart_id),
    {
        if self.hart_mask_base == usize::MAX {
            return true;
        }
        if hart_id < self.hart_mask_base || hart_id - self.hart_mask_base >= 64 {
            return false;
        }
        let shift = (hart_id - self.hart_mask_base) as u64;
        ((self.hart_mask as u64) >> shift) & 1 == 1
    }
}

/// A request that one confidential hart posts to its peers.
#[derive(Clone, Copy, Debug, PartialEq, Eq, Structural)]
pub enum ConfidentialHartRemoteCommand {
    /// Execute `fence.i` on the selected harts.
    RemoteFenceI(Ipi),
    /// Flush the guest-stage translations of `[address, address + size)` on every hart.
    RemoteHfenceGvmaVmid { address: usize, size: usize, vm_id: ConfidentialVmId },
    /// Raise a supervisor software interrupt on the selected harts.
    Ipi(Ipi),
}

impl ConfidentialHartRemoteCommand {
    pub open spec fn selects(self, hart_id: usize) -> bool {
        match self {
            ConfidentialHartRemoteCommand::RemoteFenceI(ipi) => ipi.selects(hart_id),
            ConfidentialHartRemoteCommand::RemoteHfenceGvmaVmid { .. } => true,
            ConfidentialHartRemoteCommand::Ipi(ipi) => ipi.selects(hart_id),
        }
    }

    pub fn is_hart_selected(&self, hart_id: usize) -> (r: bool)
        ensures
            r == self.selects(hart_id),
    {
        match self {
            ConfidentialHartRemoteCommand::RemoteFenceI(ipi) => ipi.is_hart_selected(hart_id),
            ConfidentialHartRemoteCommand::RemoteHfenceGvmaVmid { .. } => true,
            ConfidentialHartRemoteCommand::Ipi(ipi) => ipi.is_hart_selected(hart_id),
        }
    }
}

/// Every hart of the VM is back in its slot and shut down.
pub open spec fn all_harts_shutdown(harts: Seq<Option<ConfidentialHart>>) -> bool {
    forall|i: int|
        0 <= i < harts.len() ==> (#[trigger] harts[i]) is Some && harts[i]->Some_0.lifecycle
            == HartLifecycle::Shutdown
}

/// A confidential VM: its harts (a slot is empty while its hart runs on a physical hart, which
/// `running_on` records), an inbox of remote commands per hart, its second-stage page table and
/// its MMIO regions.
#[derive(Debug)]
pub struct ConfidentialVm {
    pub id: ConfidentialVmId,
    pub harts: Vec<Option<ConfidentialHart>>,
    pub inboxes: Vec<Vec<ConfidentialHartRemoteCommand>>,
    pub memory_protector: MemoryProtector,
    pub mmio_regions: Vec<MmioRegion>,
    /// The physical hart that runs each hart while it is out of its slot.
    pub running_on: Vec<Option<usize>>,
}

impl ConfidentialVm {
    pub open spec fn wf(&self) -> bool {
        &&& self.inboxes@.len() == self.harts@.len()
        &&& self.running_on@.len() == self.harts@.len()
        &&& self.memory_protector.wf()
        &&& forall|i: int|
            0 <= i < self.harts@.len() && (#[trigger] self.harts@[i]) is Some ==> self.harts@[i]->Some_0.id
                == i && self.harts@[i]->Some_0.wf()
    }

    /// A VM with `nb_harts` harts that start at `entry_point`; hart 0 is started, the others
    /// are stopped.
    pub fn new(
        id: ConfidentialVmId,
        nb_harts: usize,
        entry_point: usize,
        mmio_regions: Vec<MmioRegion>,
    ) -> (r: Self)
        ensures
            r.wf(),
            r.id == id,
            r.harts@.len() == nb_harts,
            r.mmio_regions@ == mmio_regions@,
            r.memory_protector.shared_pages@.len() == 0,
            forall|i: int|
                0 <= i < nb_harts ==> (#[trigger] r.harts@[i]) is Some && r.harts@[i]->Some_0.lifecycle
                    == if i == 0 {
                    HartLifecycle::Started
                } else {
                    HartLifecycle::Stopped
                } && r.harts@[i]->Some_0.csrs.mepc == entry_point,
            forall|i: int| 0 <= i < nb_harts ==> (#[trigger] r.inboxes@[i])@.len() == 0,
    {
        let mut harts: Vec<Option<ConfidentialHart>> = Vec::new();
        let mut inboxes: Vec<Vec<ConfidentialHartRemoteCommand>> = Vec::new();
        let mut running_on: Vec<Option<usize>> = Vec::new();
        let mut i: usize = 0;
        while i < nb_harts
            invariant
                i <= nb_harts,
                harts@.len() == i,
                inboxes@.len() == i,
                running_on@.len() == i,
                forall|j: int|
                    0 <= j < i ==> (#[trigger] harts@[j]) is Some && harts@[j]->Some_0.id == j
                        && harts@[j]->Some_0.wf() && harts@[j]->Some_0.lifecycle == if j == 0 {
                        HartLifecycle::Started
                    } else {
                        HartLifecycle::Stopped
                    } && harts@[j]->Some_0.csrs.mepc == entry_point,
                forall|j: int| 0 <= j < i ==> (#[trigger] inboxes@[j])@.len() == 0,
            decreases nb_harts - i,
        {
            let mut hart = ConfidentialHart::new(i, entry_point);
            if i == 0 {
                hart.start();
            }
            harts.push(Some(hart));
            inboxes.push(Vec::new());
            running_on.push(None);
            i = i + 1;
        }
        ConfidentialVm {
            id,
            harts,
            inboxes,
            memory_protector: MemoryProtector::new(),
            mmio_regions,
            running_on,
        }
    }

    /// `address` falls in one of the VM's MMIO regions.
    pub open spec fn in_mmio_region(&self, address: usize) -> bool {
        exists|i: int|
            0 <= i < self.mmio_regions@.len() && (#[trigger] self.mmio_regions@[i]).start <= address
                && address < self.mmio_regions@[i].end
    }

    pub fn is_mmio_address(&self, address: usize) -> (r: bool)
        ensures
            r == self.in_mmio_region(address),
    {
        let mut i: usize = 0;
        while i < self.mmio_regions.len()
            invariant
                i <= self.mmio_regions@.len(),
                forall|j: int|
                    0 <= j < i ==> !((#[trigger] self.mmio_regions@[j]).start <= address && address
                        < self.mmio_regions@[j].end),
            decreases self.mmio_regions@.len() - i,
        {
            if self.mmio_regions[i].start <= address && address < self.mmio_regions[i].end {
                return true;
            }
            i = i + 1;
        }
        false
    }

    /// Every hart is in its slot and shut down.
    pub fn are_all_harts_shutdown(&self) -> (r: bool)
        ensures
            r == all_harts_shutdown(self.harts@),
    {
        let mut i: usize = 0;
        while i < self.harts.len()
            invariant
                i <= self.harts@.len(),
                forall|j: int|
                    0 <= j < i ==> (#[trigger] self.harts@[j]) is Some && self.harts@[j]->Some_0.lifecycle
                        == HartLifecycle::Shutdown,
            decreases self.harts@.len() - i,
        {
            match &self.harts[i] {
                Some(h) => {
                    if h.lifecycle != HartLifecycle::Shutdown {
                        return false;
                    }
                },
                None => {
                    return false;
                },
            }
            i = i + 1;
        }
        true
    }

    /// Posts `command` on the inbox of every hart it selects, except the sender's own, and
    /// returns the physical harts that run those of them that are out of their slots.
    pub fn broadcast_remote_command(
        &mut self,
        sender_hart_id: usize,
        command: ConfidentialHartRemoteCommand,
    ) -> (r: Vec<usize>)
        requires
            old(self).wf(),
        ensures
            final(self).wf(),
            final(self).id == old(self).id,
            final(self).harts@ == old(self).harts@,
            final(self).running_on@ == old(self).running_on@,
            final(self).memory_protector.shared_pages@ == old(self).memory_protector.shared_pages@,
            final(self).mmio_regions@ == old(self).mmio_regions@,
            final(self).inboxes@.len() == old(self).inboxes@.len(),
            forall|i: int|
                0 <= i < old(self).inboxes@.len() ==> (#[trigger] final(self).inboxes@[i])@ == if i
                    != sender_hart_id && command.selects(i as usize) {
                    old(self).inboxes@[i]@.push(command)
                } else {
                    old(self).inboxes@[i]@
                },
            forall|p: usize|
                r@.contains(p) <==> old(self).peer_physical_harts(sender_hart_id, command).contains(p),
    {
        let ghost before = self.inboxes@;
        let n = self.inboxes.len();
        let mut targets: Vec<usize> = Vec::new();
        let mut i: usize = 0;
        while i < n
            invariant
                i <= n,
                n == before.len(),
                self.inboxes@.len() == n,
                self.harts@ == old(self).harts@,
                self.running_on@ == old(self).running_on@,
                self.running_on@.len() == n,
                self.id == old(self).id,
                self.memory_protector.shared_pages@ == old(self).memory_protector.shared_pages@,
                self.memory_protector.wf(),
                self.mmio_regions@ == old(self).mmio_regions@,
                before == old(self).inboxes@,
                forall|j: int|
                    0 <= j < n ==> (#[trigger] self.inboxes@[j])@ == if j < i && j
                        != sender_hart_id && command.selects(j as usize) {
                        before[j]@.push(command)
                    } else {
                        before[j]@
                    },
                forall|k: int|
                    0 <= k < targets@.len() ==> exists|j: int|
                        0 <= j < i && j != sender_hart_id && command.selects(j as usize)
                            && #[trigger] old(self).running_on@[j] == Some(#[trigger] targets@[k]),
                forall|j: int|
                    0 <= j < i && j != sender_hart_id && command.selects(j as usize)
                        && #[trigger] old(self).running_on@[j] is Some ==> targets@.contains(
                        old(self).running_on@[j]->Some_0,
                    ),
            decreases n - i,
        {
            if i != sender_hart_id && command.is_hart_selected(i) {
                let mut inbox: Vec<ConfidentialHartRemoteCommand> = Vec::new();
                self.inboxes.set_and_swap(i, &mut inbox);
                inbox.push(command);
                self.inboxes.set_and_swap(i, &mut inbox);
                match self.running_on[i] {
                    Some(physical_hart) => {
                        let ghost previous = targets@;
                        targets.push(physical_hart);
                        assert forall|j: int|
                            0 <= j < i + 1 && j != sender_hart_id && command.selects(j as usize)
                                && #[trigger] old(self).running_on@[j] is Some implies targets@.contains(
                            old(self).running_on@[j]->Some_0,
                        ) by {
                            if j < i {
                                let k = choose|k: int|
                                    0 <= k < previous.len() && previous[k] == old(self).running_on@[j]->Some_0;
                                assert(targets@[k] == previous[k]);
                            } else {
                                assert(targets@[previous.len() as int] == physical_hart);
                            }
                        }
                        assert forall|k: int| 0 <= k < targets@.len() implies exists|j: int|
                            0 <= j < i + 1 && j != sender_hart_id && command.selects(j as usize)
                                && #[trigger] old(self).running_on@[j] == Some(#[trigger] targets@[k]) by {
                            if k < previous.len() {
                                assert(targets@[k] == previous[k]);
                            } else {
                                assert(old(self).running_on@[i as int] == Some(targets@[k]));
                            }
                        }
                    },
                    None => {},
                }
            }
            i = i + 1;
        }
        proof {
            let peers = old(self).peer_physical_harts(sender_hart_id, command);
            assert forall|p: usize| targets@.contains(p) <==> peers.contains(p) by {
                if targets@.contains(p) {
                    let k = choose|k: int| 0 <= k < targets@.len() && targets@[k] == p;
                    assert(targets@[k] == p);
                }
                if peers.contains(p) {
                    let j = choose|j: int|
                        0 <= j < old(self).running_on@.len() && j != sender_hart_id && command.selects(
                            j as usize,
                        ) && #[trigger] old(self).running_on@[j] == Some(p);
                    assert(old(self).running_on@[j] is Some);
                }
            }
        }
        targets
    }

    /// The physical harts that run the harts, other than the sender, that `command` selects.
    pub open spec fn peer_physical_harts(
        &self,
        sender_hart_id: usize,
        command: ConfidentialHartRemoteCommand,
    ) -> Set<usize> {
        Set::new(
            |p: usize|
                exists|j: int|
                    0 <= j < self.running_on@.len() && j != sender_hart_id && command.selects(
                        j as usize,
                    ) && #[trigger] self.running_on@[j] == Some(p),
        )
    }

    /// Hart `hart_id` is in its slot and started.
    pub fn can_take_hart(&self, hart_id: usize) -> (r: bool)
        ensures
            r == (hart_id < self.harts@.len() && self.harts@[hart_id as int] is Some
                && self.harts@[hart_id as int]->Some_0.lifecycle == HartLifecycle::Started),
    {
        if hart_id >= self.harts.len() {
            return false;
        }
        match &self.harts[hart_id] {
            Some(h) => h.lifecycle == HartLifecycle::Started,
            None => false,
        }
    }

    /// Takes a started hart out of its slot to run it, together with the commands waiting in
    /// its inbox, oldest first, which leaves the inbox empty.
    pub fn take_hart(&mut self, hart_id: usize, physical_hart_id: usize) -> (r: Result<
        (ConfidentialHart, Vec<ConfidentialHartRemoteCommand>),
        Error,
    >)
        requires
            old(self).wf(),
        ensures
            final(self).wf(),
            final(self).id == old(self).id,
            final(self).memory_protector.shared_pages@ == old(self).memory_protector.shared_pages@,
            final(self).mmio_regions@ == old(self).mmio_regions@,
            r is Ok <==> (hart_id < old(self).harts@.len() && old(self).harts@[hart_id as int] is Some
                && old(self).harts@[hart_id as int]->Some_0.lifecycle == HartLifecycle::Started),
            r is Err ==> r->Err_0 == Error::InvalidParameter() && final(self).harts@ == old(
                self,
            ).harts@ && final(self).inboxes@ == old(self).inboxes@ && final(self).running_on@ == old(
                self,
            ).running_on@,
            r matches Ok((hart, commands)) ==> {
                &&& final(self).running_on@ == old(self).running_on@.update(
                    hart_id as int,
                    Some(physical_hart_id),
                )
                &&& hart == old(self).harts@[hart_id as int]->Some_0
                &&& commands@ == old(self).inboxes@[hart_id as int]@
                &&& final(self).harts@ == old(self).harts@.update(hart_id as int, None)
                &&& final(self).inboxes@.len() == old(self).inboxes@.len()
                &&& final(self).inboxes@[hart_id as int]@.len() == 0
                &&& forall|i: int|
                    0 <= i < old(self).inboxes@.len() && i != hart_id ==> #[trigger] final(self).inboxes@[i]
                        == old(self).inboxes@[i]
            },
    {
        if hart_id >= self.harts.len() {
            return Err(Error::InvalidParameter());
        }
        let started = match &self.harts[hart_id] {
            Some(h) => h.lifecycle == HartLifecycle::Started,
            None => false,
        };
        if !started {
            return Err(Error::InvalidParameter());
        }
        let mut slot: Option<ConfidentialHart> = None;
        self.harts.set_and_swap(hart_id, &mut slot);
        let mut commands: Vec<ConfidentialHartRemoteCommand> = Vec::new();
        self.inboxes.set_and_swap(hart_id, &mut commands);
        self.running_on.set(hart_id, Some(physical_hart_id));
        match slot {
            Some(hart) => Ok((hart, commands)),
            None => Err(Error::InvalidParameter()),
        }
    }

    /// Puts a hart that ran back into its empty slot.
    pub fn return_hart(&mut self, hart: ConfidentialHart)
        requires
            old(self).wf(),
            hart.wf(),
            hart.id < old(self).harts@.len(),
            old(self).harts@[hart.id as int] is None,
        ensures
            final(self).wf(),
            final(self).id == old(self).id,
            final(self).memory_protector.shared_pages@ == old(self).memory_protector.shared_pages@,
            final(self).mmio_regions@ == old(self).mmio_regions@,
            final(self).inboxes@ == old(self).inboxes@,
            final(self).harts@ == old(self).harts@.update(hart.id as int, Some(hart)),
            final(self).running_on@ == old(self).running_on@.update(hart.id as int, None),
    {
        let id = hart.id;
        self.harts.set(id, Some(hart));
        self.running_on.set(id, None);
    }
}

/// All confidential VMs, keyed by their unique identifier.
#[derive(Debug)]
pub struct ControlDataStorage {
    pub vms: Vec<ConfidentialVm>,
}

/// Some VM of `vms` has identifier `id`.
pub open spec fn has_vm(vms: Seq<ConfidentialVm>, id: ConfidentialVmId) -> bool {
    exists|i: int| 0 <= i < vms.len() && (#[trigger] vms[i]).id == id
}

impl ControlDataStorage {
    pub open spec fn wf(&self) -> bool {
        &&& forall|i: int| 0 <= i < self.vms@.len() ==> (#[trigger] self.vms@[i]).wf()
        &&& forall|i: int, j: int|
            0 <= i < self.vms@.len() && 0 <= j < self.vms@.len() && i != j ==> (#[trigger] self.vms@[i]).id
                != (#[trigger] self.vms@[j]).id
    }

    pub fn new() -> (r: Self)
        ensures
            r.wf(),
            r.vms@.len() == 0,
    {
        ControlDataStorage { vms: Vec::new() }
    }

    /// Index of the VM with identifier `id`, if any.
    pub fn find(&self, id: ConfidentialVmId) -> (r: Option<usize>)
        ensures
            r is None <==> !has_vm(self.vms@, id),
            r matches Some(i) ==> i < self.vms@.len() && self.vms@[i as int].id == id,
    {
        let mut i: usize = 0;
        while i < self.vms.len()
            invariant
                i <= self.vms@.len(),
                forall|j: int| 0 <= j < i ==> (#[trigger] self.vms@[j]).id != id,
            decreases self.vms@.len() - i,
        {
            if self.vms[i].id.id == id.id {
                return Some(i);
            }
            i = i + 1;
        }
        None
    }

    /// Adds a VM whose identifier is not in use yet.
    pub fn insert_confidential_vm(&mut self, vm: ConfidentialVm) -> (r: Result<(), Error>)
        requires
            old(self).wf(),
            vm.wf(),
        ensures
            final(self).wf(),
            r is Ok <==> !has_vm(old(self).vms@, vm.id),
            r is Ok ==> final(self).vms@ == old(self).vms@.push(vm),
            r is Err ==> r->Err_0 == Error::InvalidParameter() && final(self).vms@ == old(
                self,
            ).vms@,
    {
        match self.find(vm.id) {
            Some(_) => Err(Error::InvalidParameter()),
            None => {
                self.vms.push(vm);
                Ok(())
            },
        }
    }

    /// Removes the VM with identifier `id`. This succeeds exactly when the VM exists and every
    /// one of its harts is back in its slot and shut down; otherwise nothing changes.
    pub fn remove_confidential_vm(&mut self, id: ConfidentialVmId) -> (r: Result<(), Error>)
        requires
            old(self).wf(),
        ensures
            final(self).wf(),
            r is Ok <==> exists|i: int|
                0 <= i < old(self).vms@.len() && (#[trigger] old(self).vms@[i]).id == id
                    && all_harts_shutdown(old(self).vms@[i].harts@),
            r is Ok ==> exists|i: int|
                0 <= i < old(self).vms@.len() && (#[trigger] old(self).vms@[i]).id == id
                    && final(self).vms@ == old(self).vms@.remove(i),
            r is Err ==> r->Err_0 == Error::InvalidParameter() && final(self).vms@ == old(
                self,
            ).vms@,
    {
        match self.find(id) {
            None => Err(Error::InvalidParameter()),
            Some(i) => {
                if self.vms[i].are_all_harts_shutdown() {
                    let ghost before = self.vms@;
                    let _removed = self.vms.remove(i);
                    assert forall|a: int, b: int|
                        0 <= a < self.vms@.len() && 0 <= b < self.vms@.len() && a != b implies (
                        #[trigger] self.vms@[a]).id != (#[trigger] self.vms@[b]).id by {
                        let a2 = if a < i { a } else { a + 1 };
                        let b2 = if b < i { b } else { b + 1 };
                        assert(self.vms@[a] == before[a2]);
                        assert(self.vms@[b] == before[b2]);
                    }
                    assert forall|a: int| 0 <= a < self.vms@.len() implies (
                    #[trigger] self.vms@[a]).wf() by {
                        let a2 = if a < i { a } else { a + 1 };
                        assert(self.vms@[a] == before[a2]);
                    }
                    Ok(())
                } else {
                    Err(Error::InvalidParameter())
                }
            },
        }
    }
}

/// Removing a confidential VM succeeds exactly when every hart of that VM is shut down: for a
/// VM of the storage, success is owed iff its harts are all in their slots and `Shutdown`.
pub proof fn lemma_removal_iff_all_harts_shutdown(
    storage: ControlDataStorage,
    i: int,
    result: Result<(), Error>,
)
    requires
        storage.wf(),
        0 <= i < storage.vms@.len(),
        result is Ok <==> exists|j: int|
            0 <= j < storage.vms@.len() && (#[trigger] storage.vms@[j]).id == storage.vms@[i].id
                && all_harts_shutdown(storage.vms@[j].harts@),
    ensures
        result is Ok <==> all_harts_shutdown(storage.vms@[i].harts@),
{
    if result is Ok {
        let j = choose|j: int|
            0 <= j < storage.vms@.len() && (#[trigger] storage.vms@[j]).id == storage.vms@[i].id
                && all_harts_shutdown(storage.vms@[j].harts@);
        if j != i {
            assert(storage.vms@[i].id != storage.vms@[j].id);
        }
    }
}

} // verus!
