//! Task handles, the commands sent to them, and the builder that spawns them.
use crate::base::{FreeRtosError, FreeRtosTickType, FreeRtosUBaseType};
use crate::units::Duration;
use vstd::prelude::*;
use vstd::string::*;
use vstd::utf8::*;

verus! {

/// Stack size, in words, of a task that was given none.
pub const DEFAULT_STACK_SIZE: u16 = 1024;

/// A task's execution priority, lowest first.
#[derive(Debug, Copy, Clone, PartialEq, Eq, Structural)]
pub enum TaskPriority {
    BelowNormal,
    Normal,
    AboveNormal,
    High,
}

/// A command that changes a task's notification value and wakes the task.
#[derive(Debug, Copy, Clone, PartialEq, Eq, Structural)]
pub enum TaskNotification {
    /// Wake the task and leave its notification value as it is.
    NoAction,
    /// Merge these bits into the notification value with a bitwise or.
    SetBits(u32),
    /// Add one to the notification value.
    Increment,
    /// Set the notification value, whatever it holds.
    OverwriteValue(u32),
    /// Set the notification value unless a notification is already pending;
    /// in that case the kernel refuses the command.
    SetValue(u32),
}

impl TaskNotification {
    /// The value that travels to the kernel with this command.
    pub open spec fn wire_value(self) -> u32 {
        match self {
            TaskNotification::NoAction => 0,
            TaskNotification::SetBits(v) => v,
            TaskNotification::Increment => 0,
            TaskNotification::OverwriteValue(v) => v,
            TaskNotification::SetValue(v) => v,
        }
    }

    /// The kernel's action code for this command.
    pub open spec fn action_code(self) -> u8 {
        match self {
            TaskNotification::NoAction => 0,
            TaskNotification::SetBits(_) => 1,
            TaskNotification::Increment => 2,
            TaskNotification::OverwriteValue(_) => 3,
            TaskNotification::SetValue(_) => 4,
        }
    }

    /// The pair of value and action code that the kernel takes.
    pub fn to_freertos(&self) -> (wire: (u32, u8))
        ensures
            wire.0 == self.wire_value(),
            wire.1 == self.action_code(),
    {
        match *self {
            TaskNotification::NoAction => (0, 0),
            TaskNotification::SetBits(v) => (v, 1),
            TaskNotification::Increment => (0, 2),
            TaskNotification::OverwriteValue(v) => (v, 3),
            TaskNotification::SetValue(v) => (v, 4),
        }
    }
}

/// The wire form loses nothing: two commands with the same value and action
/// code are the same command, up to the value that a command without one
/// carries.
pub proof fn lemma_wire_form_faithful(a: TaskNotification, b: TaskNotification)
    requires
        a.wire_value() == b.wire_value(),
        a.action_code() == b.action_code(),
    ensures
        a == b,
{
}

impl TaskPriority {
    /// The position of this level among the four, from 0 for the lowest.
    pub open spec fn rank(self) -> int {
        match self {
            TaskPriority::BelowNormal => 0,
            TaskPriority::Normal => 1,
            TaskPriority::AboveNormal => 2,
            TaskPriority::High => 3,
        }
    }

    /// The kernel's number for this level: the higher the level, the
    /// smaller the number.
    pub open spec fn native(self) -> FreeRtosUBaseType {
        (6 - self.rank()) as FreeRtosUBaseType
    }

    /// The kernel's number for this level.
    pub fn to_freertos(&self) -> (native: FreeRtosUBaseType)
        ensures
            native == self.native(),
            3 <= native <= 6,
    {
        match *self {
            TaskPriority::BelowNormal => 6,
            TaskPriority::Normal => 5,
            TaskPriority::AboveNormal => 4,
            TaskPriority::High => 3,
        }
    }
}

/// A higher level has the smaller native number, and different levels have
/// different numbers.
pub proof fn lemma_priority_order(a: TaskPriority, b: TaskPriority)
    ensures
        a.rank() < b.rank() <==> a.native() > b.native(),
        a == b <==> a.native() == b.native(),
{
}

/// One call of a kernel primitive, with the arguments to hand to it.
#[derive(Debug, Copy, Clone, PartialEq, Eq, Structural)]
pub enum KernelCall {
    /// Send a command to a task's notification value.
    Notify { task: usize, value: u32, action: u8 },
    /// Send a command to a task's notification value from an interrupt. The
    /// kernel may set the flag and hands it back with its status.
    NotifyFromIsr {
        task: usize,
        value: u32,
        action: u8,
        higher_priority_task_woken: FreeRtosUBaseType,
    },
    /// Block the calling task until its notification value is not zero or
    /// the ticks have passed, then clear the value (1) or count it down (0).
    NotifyTake { clear: FreeRtosUBaseType, ticks: FreeRtosTickType },
    /// Block the calling task until it is notified or the ticks have passed,
    /// clearing one mask before the wait and the other after a wake.
    NotifyWait { clear_bits_enter: u32, clear_bits_exit: u32, ticks: FreeRtosTickType },
    /// Block the calling task for a number of ticks.
    Delay { ticks: FreeRtosTickType },
}

/// The arguments of the kernel's task creation, beside the entry point and
/// its context.
#[derive(Debug, PartialEq, Eq)]
pub struct SpawnRequest {
    /// The bytes of the name that the kernel reads.
    pub name: Vec<u8>,
    /// How many bytes the name has.
    pub name_len: u8,
    /// Stack size in words.
    pub stack_size: u16,
    /// Native priority.
    pub priority: FreeRtosUBaseType,
}

/// Who is to free the boxed closure after the kernel's answer to a spawn.
#[derive(Debug, Copy, Clone, PartialEq, Eq, Structural)]
pub enum ClosureOwner {
    /// The kernel's execution unit: the caller lets go of the box without
    /// dropping it, and the entry point frees it after the one run.
    Kernel,
    /// The caller: nothing will ever run the closure, so it is dropped.
    Caller,
}

/// What a spawn came to.
#[derive(Debug)]
pub struct SpawnOutcome {
    /// The new task, or the reason why there is none.
    pub task: Result<Task, FreeRtosError>,
    /// Who owns the closure from here on.
    pub closure: ClosureOwner,
}

/// The bytes of a task name that reach the kernel: the name's UTF-8 bytes,
/// cut to the length that one byte can hold, which is the byte count modulo
/// 256.
pub open spec fn bounded_name(name: Seq<char>) -> Seq<u8> {
    let bytes = encode_utf8(name);
    bytes.subrange(0, (bytes.len() % 256) as int)
}

/// The console byte for a character: ASCII as it is, `?` for all others.
pub open spec fn console_byte(c: char) -> u8 {
    if c > '\x7f' {
        0x3fu8
    } else {
        c as u8
    }
}

/// The bytes to write to the diagnostic console for `msg`, one for each
/// character.
pub fn message(msg: &str) -> (bytes: Vec<u8>)
    ensures
        bytes@.len() == msg@.len(),
        forall|i: int| 0 <= i < msg@.len() ==> bytes@[i] == console_byte(#[trigger] msg@[i]),
{
    let n: usize = msg.unicode_len();
    let mut bytes: Vec<u8> = Vec::new();
    let mut i: usize = 0;
    while i < n
        invariant
            i <= n,
            n == msg@.len(),
            bytes@.len() == i,
            forall|j: int| 0 <= j < i ==> bytes@[j] == console_byte(#[trigger] msg@[j]),
        decreases n - i,
    {
        let c = msg.get_char(i);
        let b: u8 = if c > '\x7f' {
            0x3fu8
        } else {
            c as u8
        };
        bytes.push(b);
        i += 1;
    }
    bytes
}

/// The interrupt's record of whether a notification woke a task that should
/// run before the interrupted one.
#[derive(Debug)]
pub struct InterruptContext {
    x_higher_priority_task_woken: FreeRtosUBaseType,
}

impl InterruptContext {
    /// The kernel's flag as it was last recorded.
    pub closed spec fn woken(&self) -> FreeRtosUBaseType {
        self.x_higher_priority_task_woken
    }

    /// Whether the interrupt's epilogue has to ask for a context switch.
    pub open spec fn spec_yield_requested(&self) -> bool {
        self.woken() == 1
    }

    /// The record at the start of an interrupt: nothing woken.
    pub fn new() -> (context: InterruptContext)
        ensures
            context.woken() == 0,
            !context.spec_yield_requested(),
    {
        InterruptContext { x_higher_priority_task_woken: 0 }
    }

    /// The flag to hand to the kernel, which may set it.
    pub fn get_task_field(&self) -> (flag: FreeRtosUBaseType)
        ensures
            flag == self.woken(),
    {
        self.x_higher_priority_task_woken
    }

    /// Whether the interrupt's epilogue has to ask for a context switch.
    #[verifier::when_used_as_spec(spec_yield_requested)]
    pub fn yield_requested(&self) -> (b: bool)
        ensures
            b == self.spec_yield_requested(),
    {
        self.x_higher_priority_task_woken == 1
    }
}

/// Handle of a kernel task. The kernel owns the task; the handle only names
/// it.
#[derive(Debug)]
pub struct Task {
    task_handle: usize,
}

/// `String::from_utf8`: succeeds exactly on well-formed UTF-8, and the text
/// then is the decoding of the bytes given.
#[verifier::external_body]
fn text_from_utf8(bytes: Vec<u8>) -> (text: Result<String, ()>)
    ensures
        text is Ok <==> valid_utf8(bytes@),
        text matches Ok(s) ==> s@ == decode_utf8(bytes@),
{
    match String::from_utf8(bytes) {
        Ok(s) => Ok(s),
        Err(_) => Err(()),
    }
}

impl Task {
    /// The kernel's reference to the task.
    pub closed spec fn handle(&self) -> usize {
        self.task_handle
    }

    /// The kernel's reference to the task.
    pub fn raw_handle(&self) -> (h: usize)
        ensures
            h == self.handle(),
    {
        self.task_handle
    }

    /// A builder for a new task, with the default name, stack size and
    /// priority.
    pub fn new() -> (builder: TaskBuilder)
        ensures
            builder.spec_name() == "rust_task"@,
            builder.spec_stack_size() == 1024,
            builder.spec_priority() == TaskPriority::Normal,
    {
        TaskBuilder {
            task_name: String::from_str("rust_task"),
            task_stack_size: DEFAULT_STACK_SIZE,
            task_priority: TaskPriority::Normal,
        }
    }

    /// The arguments with which the kernel is asked to create a task.
    pub fn spawn(name: &str, stack_size: u16, priority: TaskPriority) -> (request: SpawnRequest)
        ensures
            request.name@ == bounded_name(name@),
            request.name_len == request.name@.len(),
            request.stack_size == stack_size,
            request.priority == priority.native(),
    {
        let mut bytes = name.as_bytes_vec();
        let len: usize = bytes.len();
        let name_len: u8 = (len % 256) as u8;
        bytes.truncate(name_len as usize);
        SpawnRequest { name: bytes, name_len, stack_size, priority: priority.to_freertos() }
    }

    /// Decides what the kernel's answer to a creation means. With status 0
    /// the task exists under `raw_handle` and its execution unit owns the
    /// closure; with any other status there is no task, the error is
    /// `OutOfMemory` and the closure stays with the caller.
    pub fn spawn_inner(status: FreeRtosUBaseType, raw_handle: usize) -> (outcome: SpawnOutcome)
        ensures
            outcome.task is Ok <==> status == 0,
            outcome.closure == ClosureOwner::Kernel <==> outcome.task is Ok,
            status == 0 ==> (outcome.task matches Ok(task) && task.handle() == raw_handle)
                && outcome.closure == ClosureOwner::Kernel,
            status != 0 ==> outcome.task == Err::<Task, FreeRtosError>(FreeRtosError::OutOfMemory)
                && outcome.closure == ClosureOwner::Caller,
    {
        if status == 0 {
            SpawnOutcome { task: Ok(Task { task_handle: raw_handle }), closure: ClosureOwner::Kernel }
        } else {
            SpawnOutcome { task: Err(FreeRtosError::OutOfMemory), closure: ClosureOwner::Caller }
        }
    }

    /// The task's name from the bytes that the kernel stores for it, which
    /// need not be text.
    pub fn get_name(&self, stored: Vec<u8>) -> (name: Result<String, ()>)
        ensures
            name is Ok <==> valid_utf8(stored@),
            name matches Ok(s) ==> s@ == decode_utf8(stored@),
    {
        text_from_utf8(stored)
    }

    /// The task of the calling context, from the kernel's answer to the
    /// question which task is running: a null reference means none.
    pub fn current(raw_handle: usize) -> (task: Result<Task, FreeRtosError>)
        ensures
            task is Ok <==> raw_handle != 0,
            raw_handle != 0 ==> (task matches Ok(t) && t.handle() == raw_handle),
            raw_handle == 0 ==> task == Err::<Task, FreeRtosError>(FreeRtosError::TaskNotFound),
    {
        if raw_handle != 0 {
            Ok(Task { task_handle: raw_handle })
        } else {
            Err(FreeRtosError::TaskNotFound)
        }
    }

    /// The call that sets the notification value of the task, whatever it holds.
    pub fn set_notification_value(&self, val: u32) -> (call: KernelCall)
        ensures
            call == (KernelCall::Notify { task: self.handle(), value: val, action: 3 }),
    {
        self.notify(TaskNotification::OverwriteValue(val))
    }

    /// The call that sends `notification` to the task.
    pub fn notify(&self, notification: TaskNotification) -> (call: KernelCall)
        ensures
            call == (KernelCall::Notify {
                task: self.handle(),
                value: notification.wire_value(),
                action: notification.action_code(),
            }),
    {
        let n = notification.to_freertos();
        KernelCall::Notify { task: self.task_handle, value: n.0, action: n.1 }
    }

    /// The call that sends `notification` to the task from an interrupt,
    /// with the flag that `context` holds so far.
    pub fn notify_from_isr_call(
        &self,
        context: &InterruptContext,
        notification: TaskNotification,
    ) -> (call: KernelCall)
        ensures
            call == (KernelCall::NotifyFromIsr {
                task: self.handle(),
                value: notification.wire_value(),
                action: notification.action_code(),
                higher_priority_task_woken: context.woken(),
            }),
    {
        let n = notification.to_freertos();
        KernelCall::NotifyFromIsr {
            task: self.task_handle,
            value: n.0,
            action: n.1,
            higher_priority_task_woken: context.x_higher_priority_task_woken,
        }
    }

    /// Decides what the kernel's answer to a notification sent from an
    /// interrupt means. The flag that the kernel handed back is recorded in
    /// `context`; status 0 is success, any other status is `QueueFull`.
    pub fn notify_from_isr(
        &self,
        context: &mut InterruptContext,
        status: FreeRtosUBaseType,
        higher_priority_task_woken: FreeRtosUBaseType,
    ) -> (r: Result<(), FreeRtosError>)
        ensures
            final(context).woken() == higher_priority_task_woken,
            r is Ok <==> status == 0,
            status == 0 ==> r == Ok::<(), FreeRtosError>(()),
            status != 0 ==> r == Err::<(), FreeRtosError>(FreeRtosError::QueueFull),
    {
        context.x_higher_priority_task_woken = higher_priority_task_woken;
        if status != 0 {
            Err(FreeRtosError::QueueFull)
        } else {
            Ok(())
        }
    }

    /// The call that takes the calling task's notification value: the kernel
    /// blocks until the value is not zero or `wait_for` has passed, returns
    /// it, and clears it or counts it down by one.
    pub fn take_notification(&self, clear: bool, wait_for: Duration) -> (call: KernelCall)
        ensures
            call == (KernelCall::NotifyTake {
                clear: if clear { 1u32 } else { 0u32 },
                ticks: wait_for.to_ticks(),
            }),
    {
        KernelCall::NotifyTake { clear: if clear { 1 } else { 0 }, ticks: wait_for.to_ticks() }
    }

    /// Decides what the kernel's answer to a wait means: with status 0 the
    /// task was notified and `value` is its notification value; any other
    /// status is a timeout.
    pub fn wait_for_notification(&self, status: FreeRtosUBaseType, value: u32) -> (r: Result<
        u32,
        FreeRtosError,
    >)
        ensures
            r is Ok <==> status == 0,
            status == 0 ==> r == Ok::<u32, FreeRtosError>(value),
            status != 0 ==> r == Err::<u32, FreeRtosError>(FreeRtosError::Timeout),
    {
        if status == 0 {
            Ok(value)
        } else {
            Err(FreeRtosError::Timeout)
        }
    }

    /// The call that waits for a notification to the calling task.
    pub fn notify_wait(
        &self,
        clear_bits_enter: u32,
        clear_bits_exit: u32,
        wait_for: Duration,
    ) -> (call: KernelCall)
        ensures
            call == (KernelCall::NotifyWait {
                clear_bits_enter,
                clear_bits_exit,
                ticks: wait_for.to_ticks(),
            }),
    {
        KernelCall::NotifyWait { clear_bits_enter, clear_bits_exit, ticks: wait_for.to_ticks() }
    }
}

/// Collects the settings of a task before it is spawned.
#[derive(Debug)]
pub struct TaskBuilder {
    task_name: String,
    task_stack_size: u16,
    task_priority: TaskPriority,
}

impl TaskBuilder {
    /// The name set so far.
    pub closed spec fn spec_name(&self) -> Seq<char> {
        self.task_name@
    }

    /// The stack size set so far, in words.
    pub closed spec fn spec_stack_size(&self) -> u16 {
        self.task_stack_size
    }

    /// The priority set so far.
    pub closed spec fn spec_priority(&self) -> TaskPriority {
        self.task_priority
    }

    /// Sets the task's name.
    pub fn name(&mut self, name: &str) -> (builder: &mut Self)
        ensures
            builder.spec_name() == name@,
            builder.spec_stack_size() == old(self).spec_stack_size(),
            builder.spec_priority() == old(self).spec_priority(),
            *final(self) == *final(builder),
    {
        self.task_name = String::from_str(name);
        self
    }

    /// Sets the stack size, in words.
    pub fn stack_size(&mut self, stack_size: u16) -> (builder: &mut Self)
        ensures
            builder.spec_name() == old(self).spec_name(),
            builder.spec_stack_size() == stack_size,
            builder.spec_priority() == old(self).spec_priority(),
            *final(self) == *final(builder),
    {
        self.task_stack_size = stack_size;
        self
    }

    /// Sets the task's priority.
    pub fn priority(&mut self, priority: TaskPriority) -> (builder: &mut Self)
        ensures
            builder.spec_name() == old(self).spec_name(),
            builder.spec_stack_size() == old(self).spec_stack_size(),
            builder.spec_priority() == priority,
            *final(self) == *final(builder),
    {
        self.task_priority = priority;
        self
    }

    /// The arguments with which the kernel is asked to create the task as
    /// configured.
    pub fn start(&self) -> (request: SpawnRequest)
        ensures
            request.name@ == bounded_name(self.spec_name()),
            request.name_len == request.name@.len(),
            request.stack_size == self.spec_stack_size(),
            request.priority == self.spec_priority().native(),
    {
        Task::spawn(self.task_name.as_str(), self.task_stack_size, self.task_priority)
    }
}

/// What the task that is running can ask of the kernel for itself.
pub struct CurrentTask;

impl CurrentTask {
    /// The call that blocks the calling task for `delay`.
    pub fn delay(delay: Duration) -> (call: KernelCall)
        ensures
            call == (KernelCall::Delay { ticks: delay.to_ticks() }),
    {
        KernelCall::Delay { ticks: delay.to_ticks() }
    }
}

} // verus!
