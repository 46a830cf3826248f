//! LED (Simple) module: the provisioned LEDs and the level each one's output
//! pin is driven to.

use vstd::prelude::*;

use super::messaging::LedMessage;
use crate::gpio::{ids_contain, Level};

verus! {

/// Number of LEDs that a [`Led`] manages.
pub const LED_COUNT: usize = 8;

/// Handle for individual simple LEDs - LED has all provisioned LEDs defined.
///
/// Each entry is an LED's ID and the level its output pin is driven to
/// (`High`: ON, `Low`: OFF).
pub struct Led {
    /// Led definitions - `[(<LED ID>, <output level>), ...]`
    pub item_info: [(u8, Level); 8],
}

/// The level that status `status` drives an LED to.
pub open spec fn status_level(status: bool) -> Level {
    if status {
        Level::High
    } else {
        Level::Low
    }
}

/// The IDs of an LED array, in order.
pub open spec fn led_item_ids(item_info: Seq<(u8, Level)>) -> Seq<u8> {
    item_info.map_values(|item: (u8, Level)| item.0)
}

/// `k` is the first position in `item_info` that holds `id`.
pub open spec fn is_first_index_of(item_info: Seq<(u8, Level)>, id: u8, k: int) -> bool {
    &&& 0 <= k < item_info.len()
    &&& item_info[k].0 == id
    &&& forall|j: int| 0 <= j < k ==> item_info[j].0 != id
}

/// Whether `set_status(ids, ..)` addresses the LED with ID `id`: an empty
/// `ids` addresses every LED.
pub open spec fn addressed(ids: Seq<u8>, id: u8) -> bool {
    ids.len() == 0 || ids.contains(id)
}

/// The LEDs after setting those that `ids` addresses to `status`.
pub open spec fn status_after(item_info: Seq<(u8, Level)>, ids: Seq<u8>, status: bool) -> Seq<(u8, Level)> {
    item_info.map_values(
        |item: (u8, Level)|
            if addressed(ids, item.0) {
                (item.0, status_level(status))
            } else {
                item
            },
    )
}

impl Led {
    /// Constructor
    ///
    /// * `item_info` - LED item definitions
    pub fn new(item_info: [(u8, Level); 8]) -> (led: Self)
        ensures
            led.item_info == item_info,
    {
        Self { item_info }
    }

    /// Given ID number, return the (first) LED output with that ID
    ///
    /// * `id` - Item ID number
    pub fn get_handle_by_id(&self, id: u8) -> (handle: Option<&Level>)
        ensures
            match handle {
                Some(h) => exists|k: int| is_first_index_of(self.item_info@, id, k) && *h == self.item_info@[k].1,
                None => forall|k: int| 0 <= k < LED_COUNT ==> self.item_info@[k].0 != id,
            },
    {
        let mut i: usize = 0;
        while i < LED_COUNT
            invariant
                0 <= i <= LED_COUNT,
                forall|k: int| 0 <= k < i ==> self.item_info@[k].0 != id,
            decreases LED_COUNT - i,
        {
            if self.item_info[i].0 == id {
                assert(is_first_index_of(self.item_info@, id, i as int));
                return Some(&self.item_info[i].1);
            }
            i = i + 1;
        }
        None
    }

    /// Get all IDs
    pub fn get_ids(&self) -> (ids: [u8; 8])
        ensures
            ids@ == led_item_ids(self.item_info@),
    {
        let mut ids = [0u8; 8];
        let mut index: usize = 0;
        while index < LED_COUNT
            invariant
                0 <= index <= LED_COUNT,
                forall|k: int| 0 <= k < index ==> ids@[k] == self.item_info@[k].0,
            decreases LED_COUNT - index,
        {
            ids[index] = self.item_info[index].0;
            index = index + 1;
        }
        assert(ids@ =~= led_item_ids(self.item_info@));
        ids
    }

    /// Check if specified IDs are valid and within the pre-defined item info
    ///
    /// * `ids` - Item IDs to check. Empty ids array will return `true`
    pub fn check_ids(&self, ids: &[u8]) -> (valid: bool)
        ensures
            valid == (forall|k: int|
                0 <= k < ids@.len() ==> led_item_ids(self.item_info@).contains(#[trigger] ids@[k])),
    {
        if ids.len() == 0 {
            return true;
        }
        let own_ids = self.get_ids();
        let mut i: usize = 0;
        while i < ids.len()
            invariant
                0 <= i <= ids@.len(),
                own_ids@ == led_item_ids(self.item_info@),
                forall|k: int|
                    0 <= k < i ==> led_item_ids(self.item_info@).contains(#[trigger] ids@[k]),
            decreases ids@.len() - i,
        {
            if !ids_contain(own_ids.as_slice(), ids[i]) {
                return false;
            }
            i = i + 1;
        }
        true
    }

    /// Set LED status to specified on/off status
    ///
    /// * `ids` - LED IDs to set status. If empty, set all LEDs.
    /// * `status` - Status to be set (`true`: ON, `false`: OFF)
    pub fn set_status(&mut self, ids: &[u8], status: bool)
        ensures
            final(self).item_info@ == status_after(old(self).item_info@, ids@, status),
    {
        let all_ids = self.get_ids();
        let led_ids: &[u8] = if ids.len() == 0 {
            all_ids.as_slice()
        } else {
            ids
        };
        let level = if status {
            Level::High
        } else {
            Level::Low
        };
        let ghost start = self.item_info@;
        let mut i: usize = 0;
        while i < LED_COUNT
            invariant
                0 <= i <= LED_COUNT,
                start == old(self).item_info@,
                all_ids@ == led_item_ids(start),
                led_ids@ == if ids@.len() == 0 {
                    all_ids@
                } else {
                    ids@
                },
                level == status_level(status),
                forall|k: int|
                    0 <= k < i ==> self.item_info@[k] == status_after(start, ids@, status)[k],
                forall|k: int| i <= k < LED_COUNT ==> self.item_info@[k] == start[k],
            decreases LED_COUNT - i,
        {
            let item_id = self.item_info[i].0;
            if ids_contain(led_ids, item_id) {
                self.item_info[i] = (item_id, level);
            } else {
                proof {
                    if ids@.len() == 0 {
                        assert(led_item_ids(start)[i as int] == item_id);
                    }
                }
            }
            i = i + 1;
        }
        assert(self.item_info@ =~= status_after(start, ids@, status));
    }

    /// Act on a message received on the LED channel.
    pub fn handle_message(&mut self, message: LedMessage)
        ensures
            match message {
                LedMessage::SetState { ids, state } => final(self).item_info@ == status_after(
                    old(self).item_info@,
                    ids@,
                    state,
                ),
            },
    {
        match message {
            LedMessage::SetState { ids, state } => {
                self.set_status(ids, state);
            },
        }
    }
}

/// Reading an LED back after setting its status gives that status: when
/// `id` is addressed and some LED has it, the first LED with that ID is
/// driven to the status's level.
pub proof fn lemma_set_then_get(item_info: Seq<(u8, Level)>, ids: Seq<u8>, status: bool, id: u8, k: int)
    requires
        addressed(ids, id),
        is_first_index_of(status_after(item_info, ids, status), id, k),
    ensures
        status_after(item_info, ids, status)[k].1 == status_level(status),
{
}

/// Setting a status changes no ID and no LED that is not addressed.
pub proof fn lemma_set_keeps_others(item_info: Seq<(u8, Level)>, ids: Seq<u8>, status: bool)
    ensures
        led_item_ids(status_after(item_info, ids, status)) == led_item_ids(item_info),
        forall|k: int|
            0 <= k < item_info.len() && !addressed(ids, item_info[k].0) ==> #[trigger] status_after(
                item_info,
                ids,
                status,
            )[k] == item_info[k],
{
    assert(led_item_ids(status_after(item_info, ids, status)) =~= led_item_ids(item_info));
}

/// Setting the same status twice is the same as setting it once.
pub proof fn lemma_set_idempotent(item_info: Seq<(u8, Level)>, ids: Seq<u8>, status: bool)
    ensures
        status_after(status_after(item_info, ids, status), ids, status) == status_after(
            item_info,
            ids,
            status,
        ),
{
    assert(status_after(status_after(item_info, ids, status), ids, status) =~= status_after(
        item_info,
        ids,
        status,
    ));
}

/// The last status set wins: setting `ids` to one status and then to
/// another is the same as setting them to the second one alone.
pub proof fn lemma_last_set_wins(item_info: Seq<(u8, Level)>, ids: Seq<u8>, first: bool, second: bool)
    ensures
        status_after(status_after(item_info, ids, first), ids, second) == status_after(
            item_info,
            ids,
            second,
        ),
{
    assert(status_after(status_after(item_info, ids, first), ids, second) =~= status_after(
        item_info,
        ids,
        second,
    ));
}

/// What `set_status` does to each LED, written out: the result has the same
/// LEDs in the same order with the same IDs; an LED is driven high (status
/// `true`) or low (`false`) exactly when the ID list is empty or holds its
/// ID anywhere, and keeps its level otherwise.
pub proof fn lemma_set_status_per_led(item_info: Seq<(u8, Level)>, ids: Seq<u8>, status: bool)
    ensures
        status_after(item_info, ids, status).len() == item_info.len(),
        forall|k: int|
            0 <= k < item_info.len() ==> {
                &&& (#[trigger] status_after(item_info, ids, status)[k]).0 == item_info[k].0
                &&& status_after(item_info, ids, status)[k].1 == if ids.len() == 0 || ids.contains(
                    item_info[k].0,
                ) {
                    if status {
                        Level::High
                    } else {
                        Level::Low
                    }
                } else {
                    item_info[k].1
                }
            },
{
}

/// Every LED whose ID occurs at any position of a non-empty ID list is
/// switched to the status.
pub proof fn lemma_every_listed_led_switched(
    item_info: Seq<(u8, Level)>,
    ids: Seq<u8>,
    status: bool,
    j: int,
    k: int,
)
    requires
        0 <= j < ids.len(),
        0 <= k < item_info.len(),
        item_info[k].0 == ids[j],
    ensures
        status_after(item_info, ids, status)[k].1 == (if status {
            Level::High
        } else {
            Level::Low
        }),
{
    assert(ids.contains(ids[j]));
}

/// The IDs of an LED array are its entries' first components, in order.
pub proof fn lemma_led_item_ids(item_info: Seq<(u8, Level)>)
    ensures
        led_item_ids(item_info).len() == item_info.len(),
        forall|k: int| 0 <= k < item_info.len() ==> #[trigger] led_item_ids(item_info)[k] == item_info[k].0,
{
}

/// `get_handle_by_id` finds the first entry with the ID: that entry has the
/// ID, no earlier entry has it, and no other position qualifies.
pub proof fn lemma_first_index_unique(item_info: Seq<(u8, Level)>, id: u8, k: int, k2: int)
    requires
        is_first_index_of(item_info, id, k),
        is_first_index_of(item_info, id, k2),
    ensures
        k == k2,
        0 <= k < item_info.len(),
        item_info[k].0 == id,
        forall|j: int| 0 <= j < k ==> item_info[j].0 != id,
{
    if k < k2 {
        assert(item_info[k].0 == id);
    } else if k2 < k {
        assert(item_info[k2].0 == id);
    }
}

} // verus!
