//! The one-word mailbox that the kernel keeps for each task, as a value.
//!
//! The kernel holds the real word and guards it; this module states what each
//! command and each kind of wait does to it when no time passes, so that the
//! meaning of a [`TaskNotification`] can be spoken of and checked on a host.
use crate::base::{word_modulus, FreeRtosError};
use crate::task::TaskNotification;
use vstd::prelude::*;

verus! {

/// A task's notification word together with the mark that says whether a
/// notification has arrived since the task last waited.
#[derive(Debug, Clone, Copy, PartialEq, Eq, Structural)]
pub struct NotificationSlot {
    /// The notification value.
    pub value: u32,
    /// Whether a notification is pending.
    pub pending: bool,
}

/// Whether the kernel accepts `notification` for a slot in state `slot`:
/// every command but a conditional set that meets a pending notification.
pub open spec fn accepts(slot: NotificationSlot, notification: TaskNotification) -> bool {
    !(notification is SetValue && slot.pending)
}

/// The slot after `notification` was sent to it.
pub open spec fn after_notify(
    slot: NotificationSlot,
    notification: TaskNotification,
) -> NotificationSlot {
    NotificationSlot {
        value: match notification {
            TaskNotification::NoAction => slot.value,
            TaskNotification::SetBits(bits) => slot.value | bits,
            TaskNotification::Increment => ((slot.value + 1) % word_modulus()) as u32,
            TaskNotification::OverwriteValue(v) => v,
            TaskNotification::SetValue(v) => if slot.pending {
                slot.value
            } else {
                v
            },
        },
        pending: true,
    }
}

/// What a take that does not suspend returns: the value as it stands.
pub open spec fn take_result(slot: NotificationSlot) -> u32 {
    slot.value
}

/// The slot after its value was taken: a zero stays, any other value is
/// cleared or counted down by one.
pub open spec fn after_take(slot: NotificationSlot, clear: bool) -> NotificationSlot {
    NotificationSlot {
        value: if slot.value == 0 || clear {
            0
        } else {
            (slot.value - 1) as u32
        },
        pending: false,
    }
}

/// What a wait that does not suspend reports.
pub open spec fn wait_result(slot: NotificationSlot) -> Result<u32, FreeRtosError> {
    if slot.pending {
        Ok(slot.value)
    } else {
        Err(FreeRtosError::Timeout)
    }
}

/// The slot after a wait that does not suspend: without a pending
/// notification the entry mask is cleared, with one the exit mask.
pub open spec fn after_wait(
    slot: NotificationSlot,
    clear_bits_enter: u32,
    clear_bits_exit: u32,
) -> NotificationSlot {
    NotificationSlot {
        value: if slot.pending {
            slot.value & !clear_bits_exit
        } else {
            slot.value & !clear_bits_enter
        },
        pending: false,
    }
}

impl NotificationSlot {
    /// The slot of a task that was never notified.
    pub fn new() -> (slot: NotificationSlot)
        ensures
            slot.value == 0,
            !slot.pending,
    {
        NotificationSlot { value: 0, pending: false }
    }

    /// Applies one command. Returns whether the kernel accepts it.
    pub fn notify(&mut self, notification: TaskNotification) -> (accepted: bool)
        ensures
            accepted == accepts(*old(self), notification),
            *final(self) == after_notify(*old(self), notification),
    {
        let was_pending = self.pending;
        self.pending = true;
        match notification {
            TaskNotification::NoAction => true,
            TaskNotification::SetBits(bits) => {
                self.value = self.value | bits;
                true
            },
            TaskNotification::Increment => {
                self.value = self.value.wrapping_add(1);
                true
            },
            TaskNotification::OverwriteValue(v) => {
                self.value = v;
                true
            },
            TaskNotification::SetValue(v) => {
                if was_pending {
                    false
                } else {
                    self.value = v;
                    true
                }
            },
        }
    }

    /// Takes the value as a wait of zero length does: returns it, and clears
    /// it or counts it down by one.
    pub fn take(&mut self, clear: bool) -> (value: u32)
        ensures
            value == take_result(*old(self)),
            *final(self) == after_take(*old(self), clear),
    {
        let value = self.value;
        if value != 0 {
            self.value = if clear {
                0
            } else {
                value - 1
            };
        }
        self.pending = false;
        value
    }

    /// Waits as a wait of zero length does: a pending notification is handed
    /// out, and without one the wait times out at once.
    pub fn wait(&mut self, clear_bits_enter: u32, clear_bits_exit: u32) -> (r: Result<
        u32,
        FreeRtosError,
    >)
        ensures
            r == wait_result(*old(self)),
            *final(self) == after_wait(*old(self), clear_bits_enter, clear_bits_exit),
    {
        let value = self.value;
        if self.pending {
            self.value = value & !clear_bits_exit;
            self.pending = false;
            Ok(value)
        } else {
            self.value = value & !clear_bits_enter;
            Err(FreeRtosError::Timeout)
        }
    }
}

/// Bits sent with a merge are set in the value that the next take returns,
/// whatever the slot held before.
pub proof fn lemma_set_bits_then_take(slot: NotificationSlot, bits: u32)
    ensures
        take_result(after_notify(slot, TaskNotification::SetBits(bits))) & bits == bits,
        accepts(slot, TaskNotification::SetBits(bits)),
{
    let v = slot.value;
    assert((v | bits) & bits == bits) by (bit_vector);
}

/// Merging bits does not depend on the order of two merges, and a merge
/// sent twice does no more than sent once.
pub proof fn lemma_set_bits_order_free(slot: NotificationSlot, a: u32, b: u32)
    ensures
        after_notify(after_notify(slot, TaskNotification::SetBits(a)), TaskNotification::SetBits(b))
            == after_notify(
            after_notify(slot, TaskNotification::SetBits(b)),
            TaskNotification::SetBits(a),
        ),
        after_notify(after_notify(slot, TaskNotification::SetBits(a)), TaskNotification::SetBits(a))
            == after_notify(slot, TaskNotification::SetBits(a)),
{
    let v = slot.value;
    assert((v | a) | b == (v | b) | a) by (bit_vector);
    assert((v | a) | a == v | a) by (bit_vector);
}

/// Increments add up: after two of them a take returns a value two higher,
/// around the word's wrap, so from zero it returns two; taken without
/// clearing, one is left.
pub proof fn lemma_increment_twice(slot: NotificationSlot)
    ensures
        take_result(
            after_notify(
                after_notify(slot, TaskNotification::Increment),
                TaskNotification::Increment,
            ),
        ) == (slot.value + 2) % word_modulus(),
        slot.value == 0 ==> after_take(
            after_notify(
                after_notify(slot, TaskNotification::Increment),
                TaskNotification::Increment,
            ),
            false,
        ).value == 1,
{
}

/// A conditional set changes nothing and is refused while a notification is
/// pending; on a slot without one it is accepted and sets the value.
pub proof fn lemma_set_value_only_if_clear(slot: NotificationSlot, v: u32)
    ensures
        slot.pending ==> !accepts(slot, TaskNotification::SetValue(v)) && after_notify(
            slot,
            TaskNotification::SetValue(v),
        ).value == slot.value,
        !slot.pending ==> accepts(slot, TaskNotification::SetValue(v)) && after_notify(
            slot,
            TaskNotification::SetValue(v),
        ).value == v,
{
}

/// A notification sent before a wait is seen by that wait, and once taken
/// it is no longer pending: the next wait of zero length times out.
pub proof fn lemma_wait_sees_notification(
    slot: NotificationSlot,
    notification: TaskNotification,
    clear_bits_enter: u32,
    clear_bits_exit: u32,
)
    ensures
        wait_result(after_notify(slot, notification)) == Ok::<u32, FreeRtosError>(
            after_notify(slot, notification).value,
        ),
        wait_result(
            after_wait(after_notify(slot, notification), clear_bits_enter, clear_bits_exit),
        ) == Err::<u32, FreeRtosError>(FreeRtosError::Timeout),
{
}

} // verus!
