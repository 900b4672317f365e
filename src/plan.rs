//! The shape of the compute pass: buffer size, bind slot and workgroup count.

use vstd::prelude::*;

verus! {

/// Size in bytes of the storage buffer that the shader fills, and of the
/// staging buffer it is copied into.
pub const BUFFER_SIZE: u64 = 1000;

/// Number of buffer bytes that one dispatched workgroup stands for.
pub const WORKGROUP_SIZE: u64 = 64;

/// Index of the bind group that holds the output buffer.
pub const BIND_GROUP: u32 = 0;

/// Binding slot of the output buffer inside its bind group.
pub const OUTPUT_BINDING: u32 = 1;

/// The number of workgroups that covers `buffer_size` bytes, rounding down.
pub open spec fn workgroups_for(buffer_size: nat) -> nat {
    buffer_size / (WORKGROUP_SIZE as nat)
}

/// Number of workgroups to dispatch along x for a buffer of `buffer_size`
/// bytes, or `None` when that number does not fit the `u32` that a dispatch
/// takes.
pub fn dispatch_count(buffer_size: u64) -> (r: Option<u32>)
    ensures
        r is Some <==> workgroups_for(buffer_size as nat) <= u32::MAX,
        r matches Some(n) ==> n as nat == workgroups_for(buffer_size as nat),
        r matches Some(n) ==> n as nat * WORKGROUP_SIZE <= buffer_size
            < (n as nat + 1) * WORKGROUP_SIZE,
{
    let n: u64 = buffer_size / WORKGROUP_SIZE;
    if n <= u32::MAX as u64 {
        Some(n as u32)
    } else {
        None
    }
}

/// The numbers one compute pass is made of: the size of the output buffer
/// and the workgroups dispatched over it.
pub struct ComputePlan {
    buffer_size: u64,
    workgroups: u32,
}

impl ComputePlan {
    /// The workgroup count is the one that `buffer_size` calls for.
    pub open spec fn wf(&self) -> bool {
        self.spec_workgroups() as nat == workgroups_for(self.spec_buffer_size() as nat)
    }

    pub closed spec fn spec_buffer_size(&self) -> u64 {
        self.buffer_size
    }

    pub closed spec fn spec_workgroups(&self) -> u32 {
        self.workgroups
    }

    /// The plan for a buffer of `buffer_size` bytes, or `None` when its
    /// workgroup count does not fit a dispatch.
    pub fn new(buffer_size: u64) -> (r: Option<ComputePlan>)
        ensures
            r is Some <==> workgroups_for(buffer_size as nat) <= u32::MAX,
            r matches Some(p) ==> p.spec_buffer_size() == buffer_size && p.wf(),
    {
        match dispatch_count(buffer_size) {
            Some(n) => Some(ComputePlan { buffer_size, workgroups: n }),
            None => None,
        }
    }

    /// The plan for the fixed buffer of `BUFFER_SIZE` bytes.
    pub fn standard() -> (r: ComputePlan)
        ensures
            r.spec_buffer_size() == BUFFER_SIZE,
            r.spec_workgroups() == 15,
            r.wf(),
    {
        ComputePlan { buffer_size: BUFFER_SIZE, workgroups: 15 }
    }

    /// Size in bytes of the output buffer, of the staging buffer, and of the
    /// copy between them.
    pub fn buffer_size(&self) -> (r: u64)
        ensures
            r == self.spec_buffer_size(),
    {
        self.buffer_size
    }

    /// Number of workgroups to dispatch along x.
    pub fn workgroups(&self) -> (r: u32)
        ensures
            r == self.spec_workgroups(),
    {
        self.workgroups
    }
}

} // verus!
