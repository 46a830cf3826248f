//! Button module: the buttons, the debouncing decisions and the tracking of
//! presses from the settled down edge to the settled up edge.

use vstd::prelude::*;

use super::messaging::{ButtonMessage, PressType};
use crate::gpio::{ids_contain, Level};

verus! {

/// Number of buttons that a [`Button`] manages.
pub const BUTTON_COUNT: usize = 1;

/// Handle for individual Buttons - Button has all provisioned buttons defined.
///
/// `H` is the hardware input handle of a button and `P` the publisher that
/// press messages go out on; this module reads neither, only the IDs.
pub struct Button<H, P> {
    /// Button definitions - `[(<BUTTON ID>, <HANDLE>), ...]`
    pub item_info: [(u8, H); 1],
    /// Button pub-sub publisher for message publishing
    pub button_pubsub_publisher: P,
}

/// Phase of the watch over one button.
#[derive(Debug, Clone, Copy, PartialEq, Eq, Structural)]
pub enum MonitorPhase {
    /// Waiting for the button to settle down (pressed).
    AwaitingPress,
    /// The button settled down at `pressed_at`; waiting for it to settle up.
    AwaitingRelease { pressed_at: u64 },
}

/// Watch over the presses of one button.
#[derive(Debug, Clone, Copy, PartialEq, Eq, Structural)]
pub struct PressMonitor {
    /// ID of the watched button.
    pub id: u8,
    /// Where in a press the watch stands.
    pub phase: MonitorPhase,
}

/// The IDs of a button array, in order.
pub open spec fn item_ids<H>(item_info: Seq<(u8, H)>) -> Seq<u8> {
    item_info.map_values(|item: (u8, H)| item.0)
}

/// The watch after a settled edge at `now`, and the message it publishes.
pub open spec fn monitor_step(monitor: PressMonitor, now: u64) -> (PressMonitor, Option<ButtonMessage>) {
    match monitor.phase {
        MonitorPhase::AwaitingPress => (
            PressMonitor { id: monitor.id, phase: MonitorPhase::AwaitingRelease { pressed_at: now } },
            None,
        ),
        MonitorPhase::AwaitingRelease { pressed_at } => (
            PressMonitor { id: monitor.id, phase: MonitorPhase::AwaitingPress },
            Some(
                ButtonMessage {
                    id: monitor.id,
                    timestamp_start: pressed_at,
                    timestamp_end: now,
                    press_type: PressType::ShortRelease,
                },
            ),
        ),
    }
}

/// Whether a settled edge at `now` may be reported: a release cannot come
/// before the press it ends.
pub open spec fn edge_time_ok(monitor: PressMonitor, now: u64) -> bool {
    match monitor.phase {
        MonitorPhase::AwaitingPress => true,
        MonitorPhase::AwaitingRelease { pressed_at } => pressed_at <= now,
    }
}

impl<H, P> Button<H, P> {
    /// Constructor
    ///
    /// * `item_info` - Button definitions
    /// * `publisher` - The outcome of asking the button channel for a publisher
    pub fn new<E>(item_info: [(u8, H); 1], publisher: Result<P, E>) -> (r: Result<Self, E>)
        ensures
            match publisher {
                Ok(p) => r matches Ok(b) && b.item_info == item_info && b.button_pubsub_publisher
                    == p,
                Err(e) => r matches Err(e2) && e2 == e,
            },
    {
        match publisher {
            Ok(button_pubsub_publisher) => Ok(Self { item_info, button_pubsub_publisher }),
            Err(e) => Err(e),
        }
    }

    /// Get all IDs
    pub fn get_ids(&self) -> (ids: [u8; 1])
        ensures
            ids@ == item_ids(self.item_info@),
    {
        let mut ids = [0u8; 1];
        let mut index: usize = 0;
        while index < BUTTON_COUNT
            invariant
                0 <= index <= BUTTON_COUNT,
                forall|k: int| 0 <= k < index ==> ids@[k] == self.item_info@[k].0,
            decreases BUTTON_COUNT - index,
        {
            ids[index] = self.item_info[index].0;
            index = index + 1;
        }
        assert(ids@ =~= item_ids(self.item_info@));
        ids
    }

    /// Check if specified IDs are valid and within the pre-defined item info
    ///
    /// * `ids` - Item IDs to check. Empty ids array will return `true`
    pub fn check_ids(&self, ids: &[u8]) -> (valid: bool)
        ensures
            valid == (forall|k: int| 0 <= k < ids@.len() ==> item_ids(self.item_info@).contains(#[trigger] ids@[k])),
    {
        if ids.len() == 0 {
            return true;
        }
        let own_ids = self.get_ids();
        let mut i: usize = 0;
        while i < ids.len()
            invariant
                0 <= i <= ids@.len(),
                own_ids@ == item_ids(self.item_info@),
                forall|k: int| 0 <= k < i ==> item_ids(self.item_info@).contains(#[trigger] ids@[k]),
            decreases ids@.len() - i,
        {
            if !ids_contain(own_ids.as_slice(), ids[i]) {
                return false;
            }
            i = i + 1;
        }
        true
    }

    /// Position in `item_info` of the first button with the given ID.
    pub fn find_item(&self, id: u8) -> (index: Option<usize>)
        ensures
            match index {
                Some(i) => i < BUTTON_COUNT && self.item_info@[i as int].0 == id && forall|k: int|
                    0 <= k < i ==> self.item_info@[k].0 != id,
                None => forall|k: int| 0 <= k < BUTTON_COUNT ==> self.item_info@[k].0 != id,
            },
    {
        let mut i: usize = 0;
        while i < BUTTON_COUNT
            invariant
                0 <= i <= BUTTON_COUNT,
                forall|k: int| 0 <= k < i ==> self.item_info@[k].0 != id,
            decreases BUTTON_COUNT - i,
        {
            if self.item_info[i].0 == id {
                return Some(i);
            }
            i = i + 1;
        }
        None
    }

    /// Start watching the presses of the button with the given ID; `None`
    /// when no button has that ID.
    pub fn monitor_press(&self, id: u8) -> (monitor: Option<PressMonitor>)
        ensures
            monitor is Some <==> item_ids(self.item_info@).contains(id),
            monitor matches Some(m) ==> m.id == id && m.phase == MonitorPhase::AwaitingPress,
    {
        let ids = [id];
        let valid = self.check_ids(ids.as_slice());
        if !valid {
            assert(ids@[0] == id);
            return None;
        }
        assert(ids@[0] == id);
        Some(PressMonitor { id, phase: MonitorPhase::AwaitingPress })
    }
}

/// Debouncing a press (level HIGH to LOW): given the level read before
/// waiting for the low edge, the level read after the settling delay, and
/// whether the pin reads low now, whether the press signal is stable.
pub fn debounce_high_to_low_settled(level_before: Level, level_after: Level, is_low_now: bool) -> (settled: bool)
    ensures
        settled == (level_before != level_after && is_low_now),
{
    level_before != level_after && is_low_now
}

/// Debouncing a release (level LOW to HIGH): given the level read before
/// waiting for the high edge, the level read after the settling delay, and
/// whether the pin reads high now, whether the release signal is stable.
pub fn debounce_low_to_high_settled(level_before: Level, level_after: Level, is_high_now: bool) -> (settled: bool)
    ensures
        settled == (level_before != level_after && is_high_now),
{
    level_before != level_after && is_high_now
}

impl PressMonitor {
    /// Report that the watched button settled on its next edge at `now`
    /// (ticks): a press is remembered; a release completes the press and
    /// gives the message to publish.
    pub fn on_edge_settled(&mut self, now: u64) -> (message: Option<ButtonMessage>)
        requires
            edge_time_ok(*old(self), now),
        ensures
            (*final(self), message) == monitor_step(*old(self), now),
            message matches Some(m) ==> m.timestamp_start <= m.timestamp_end,
    {
        match self.phase {
            MonitorPhase::AwaitingPress => {
                self.phase = MonitorPhase::AwaitingRelease { pressed_at: now };
                None
            },
            MonitorPhase::AwaitingRelease { pressed_at } => {
                self.phase = MonitorPhase::AwaitingPress;
                Some(
                    ButtonMessage {
                        id: self.id,
                        timestamp_start: pressed_at,
                        timestamp_end: now,
                        press_type: PressType::ShortRelease,
                    },
                )
            },
        }
    }
}

/// A press settled at `pressed` followed by a release settled at `released`
/// publishes exactly one message, for the watched button, spanning the two
/// instants, and leaves the watch ready for the next press.
pub proof fn lemma_press_release_publishes_once(monitor: PressMonitor, pressed: u64, released: u64)
    requires
        monitor.phase == MonitorPhase::AwaitingPress,
        pressed <= released,
    ensures
        ({
            let (after_press, first) = monitor_step(monitor, pressed);
            let (after_release, second) = monitor_step(after_press, released);
            &&& first is None
            &&& edge_time_ok(after_press, released)
            &&& after_release == monitor
            &&& second == Some(
                ButtonMessage {
                    id: monitor.id,
                    timestamp_start: pressed,
                    timestamp_end: released,
                    press_type: PressType::ShortRelease,
                },
            )
        }),
{
}

/// Every step keeps the watched button's ID.
pub proof fn lemma_monitor_keeps_id(monitor: PressMonitor, now: u64)
    ensures
        monitor_step(monitor, now).0.id == monitor.id,
        monitor_step(monitor, now).1 matches Some(m) ==> m.id == monitor.id,
{
}

/// The IDs of a button array are its entries' first components, in order.
pub proof fn lemma_item_ids<H>(item_info: Seq<(u8, H)>)
    ensures
        item_ids(item_info).len() == item_info.len(),
        forall|k: int| 0 <= k < item_info.len() ==> #[trigger] item_ids(item_info)[k] == item_info[k].0,
{
}

/// A settled edge while awaiting a press remembers that instant and
/// publishes nothing; a settled edge while awaiting a release publishes the
/// press of the watched button from the remembered instant to this one, as
/// a short release, and waits for the next press.
pub proof fn lemma_monitor_step_cases(monitor: PressMonitor, now: u64)
    ensures
        monitor.phase == MonitorPhase::AwaitingPress ==> monitor_step(monitor, now) == (
            PressMonitor { id: monitor.id, phase: MonitorPhase::AwaitingRelease { pressed_at: now } },
            None::<ButtonMessage>,
        ),
        monitor.phase matches MonitorPhase::AwaitingRelease { pressed_at } ==> monitor_step(monitor, now)
            == (
            PressMonitor { id: monitor.id, phase: MonitorPhase::AwaitingPress },
            Some(
                ButtonMessage {
                    id: monitor.id,
                    timestamp_start: pressed_at,
                    timestamp_end: now,
                    press_type: PressType::ShortRelease,
                },
            ),
        ),
{
}

} // verus!
