//! Priority-ceiling resource arbitration.
//!
//! Tasks run at fixed priorities and never suspend; preemption is the only
//! concurrency. A resource shared across priorities carries a ceiling: the
//! highest priority of any task that touches it. A task entering a critical
//! section on a resource runs at that ceiling, and the dispatcher admits a
//! newly pending task only above the current running level — so no task that
//! could touch the resource ever runs during the critical section, which is
//! mutual exclusion without blocking and without priority inversion.

use vstd::prelude::*;

verus! {

/// The three tasks, by what dispatches them.
#[derive(Clone, Copy, PartialEq, Eq, Structural, Debug)]
pub enum Task {
    /// The idle loop: runs when nothing else is pending.
    Idle,
    /// The serial receive interrupt.
    UartRx,
    /// The sensor-ready interrupt: the control cycle.
    MpuInt,
}

/// The resources shared across priority levels.
#[derive(Clone, Copy, PartialEq, Eq, Structural, Debug)]
pub enum Resource {
    /// The tunable parameter block: written by the idle task's parser, read
    /// by the control cycle.
    ControlBlock,
    /// The transmit channel slot: taken by the idle task for coefficient
    /// frames and by the control cycle for state frames.
    ChannelSlot,
    /// The log sink: written by both interrupt handlers.
    LogSink,
}

/// The fixed hardware priority of each task; higher runs first.
pub open spec fn spec_priority(t: Task) -> u8 {
    match t {
        Task::Idle => 0,
        Task::UartRx => 1,
        Task::MpuInt => 2,
    }
}

/// Which task touches which shared resource.
pub open spec fn spec_uses(t: Task, r: Resource) -> bool {
    match r {
        Resource::ControlBlock => t == Task::Idle || t == Task::MpuInt,
        Resource::ChannelSlot => t == Task::Idle || t == Task::MpuInt,
        Resource::LogSink => t == Task::UartRx || t == Task::MpuInt,
    }
}

/// The ceiling of a resource: the highest priority among its users.
pub open spec fn spec_ceiling(r: Resource) -> u8 {
    match r {
        Resource::ControlBlock => 2,
        Resource::ChannelSlot => 2,
        Resource::LogSink => 2,
    }
}

/// The fixed priority of a task.
pub fn priority(t: Task) -> (p: u8)
    ensures
        p == spec_priority(t),
{
    match t {
        Task::Idle => 0,
        Task::UartRx => 1,
        Task::MpuInt => 2,
    }
}

/// The level a task raises itself to for a critical section on `r`.
pub fn ceiling(r: Resource) -> (c: u8)
    ensures
        c == spec_ceiling(r),
        forall|t: Task| spec_uses(t, r) ==> spec_priority(t) <= c,
{
    match r {
        Resource::ControlBlock => 2,
        Resource::ChannelSlot => 2,
        Resource::LogSink => 2,
    }
}

/// May a newly pending task preempt code running at `level`? Only strictly
/// above it.
pub fn may_preempt(incoming: u8, level: u8) -> (b: bool)
    ensures
        b == (incoming > level),
{
    incoming > level
}

/// Which pending task the dispatcher runs next: strict priority order, the
/// idle loop only when no interrupt is pending.
pub fn next_task(mpu_pending: bool, rx_pending: bool) -> (t: Task)
    ensures
        t == (if mpu_pending {
            Task::MpuInt
        } else if rx_pending {
            Task::UartRx
        } else {
            Task::Idle
        }),
        mpu_pending ==> spec_priority(t) == 2,
        !mpu_pending && rx_pending ==> spec_priority(t) == 1,
{
    if mpu_pending {
        Task::MpuInt
    } else if rx_pending {
        Task::UartRx
    } else {
        Task::Idle
    }
}

/// Enter a critical section on `r` from a task running at `level`: the
/// running level rises to the resource's ceiling (never downward), and the
/// previous level comes back so the section can be left again. No waiting
/// is involved at any point.
pub fn enter_section(level: &mut u8, r: Resource) -> (prev: u8)
    ensures
        prev == *old(level),
        *final(level) == if spec_ceiling(r) > *old(level) {
            spec_ceiling(r)
        } else {
            *old(level)
        },
        *final(level) >= spec_ceiling(r) || *final(level) == *old(level),
{
    let prev = *level;
    let c = ceiling(r);
    if c > *level {
        *level = c;
    }
    prev
}

/// Leave a critical section: restore the level saved on entry.
pub fn leave_section(level: &mut u8, prev: u8)
    ensures
        *final(level) == prev,
{
    *level = prev;
}

/// The ceiling discipline gives mutual exclusion: while any task holds a
/// critical section on a resource (running at its ceiling), no other task
/// that uses the same resource can be admitted by the dispatcher, since its
/// priority cannot exceed the ceiling.
pub proof fn lemma_ceiling_excludes(holder: Task, other: Task, r: Resource)
    requires
        spec_uses(holder, r),
        spec_uses(other, r),
    ensures
        !(spec_priority(other) > spec_ceiling(r)),
{
}

/// The ceiling protocol never blocks: the level a task assumes for a
/// critical section is at least its own priority, so taking the resource is
/// a priority raise, not a wait.
pub proof fn lemma_ceiling_no_blocking(t: Task, r: Resource)
    requires
        spec_uses(t, r),
    ensures
        spec_priority(t) <= spec_ceiling(r),
{
}

/// Inside a critical section of any task that uses `r`, the running level is
/// at least the ceiling, so no user of `r` is admitted until the section is
/// left: accesses to a shared resource are serialized by construction.
pub proof fn lemma_section_serializes(holder: Task, other: Task, r: Resource, level: u8)
    requires
        spec_uses(holder, r),
        spec_uses(other, r),
        level >= spec_ceiling(r),
    ensures
        !(spec_priority(other) > level),
{
}

} // verus!
