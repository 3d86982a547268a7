use vstd::prelude::*;

use crate::frame::{FRAME_HEIGHT, FRAME_WIDTH};

verus! {

/// Advertised name of the lock board.
pub const DEVICE_NAME: &'static str = "esp-msg";

/// GATT service of the lock board, 921a6069-4357-4287-a9af-fd386fc0dcad.
pub const SERVICE_UUID: u128 = 0x921a6069_4357_4287_a9af_fd386fc0dcad;

/// Characteristic the unlock command is written to,
/// 1ad4aa0c-5cb7-4be3-9916-9c63f19c03fd.
pub const CHARACTERISTIC_UUID: u128 = 0x1ad4aa0c_5cb7_4be3_9916_9c63f19c03fd;

/// Command sent to the lock board when a valid code was entered.
pub const OPEN_COMMAND: &'static str = "open_close_servo";

/// Error reported when the scan ends without finding the lock board.
pub const NOT_FOUND_DURING_SCAN: &'static str = "Device not found during scan";

/// Length of the BLE scan, in milliseconds.
pub const SCAN_DURATION_MS: i32 = 10000;

/// BLE scan interval, in milliseconds.
pub const SCAN_INTERVAL_MS: u16 = 100;

/// BLE scan window, in milliseconds.
pub const SCAN_WINDOW_MS: u16 = 99;

/// The Bluetooth base UUID, 00000000-0000-1000-8000-00805f9b34fb, into
/// which 16- and 32-bit UUIDs are placed.
pub const BLE_BASE_UUID: u128 = 0x00000000_0000_1000_8000_00805f9b34fb;

/// The 128-bit value of a 16- or 32-bit Bluetooth UUID: the short value
/// sits in the top 32 bits of the base UUID.
pub fn expand_short_uuid(short: u32) -> (uuid: u128)
    ensures
        uuid == BLE_BASE_UUID + short as int * 0x1_0000_0000_0000_0000_0000_0000,
{
    BLE_BASE_UUID + (short as u128) * 0x1_0000_0000_0000_0000_0000_0000u128
}

/// Full length of the progress bar shown while waiting for the lock board.
pub const PROGRESS_MAX: u32 = 200;

/// Pause between two polls of the BLE task, in milliseconds.
pub const PROGRESS_DELAY_MS: u32 = 50;

/// Height of the progress bar, in pixels.
pub const BAR_HEIGHT: u32 = 20;

/// Whether two strings hold the same characters.
pub fn str_eq(a: &str, b: &str) -> (eq: bool)
    ensures
        eq == (a@ == b@),
{
    let n = a.unicode_len();
    if n != b.unicode_len() {
        return false;
    }
    let mut i: usize = 0;
    while i < n
        invariant
            n == a@.len(),
            n == b@.len(),
            i <= n,
            forall|j: int| 0 <= j < i ==> a@[j] == b@[j],
        decreases n - i,
    {
        if a.get_char(i) != b.get_char(i) {
            return false;
        }
        i = i + 1;
    }
    assert(a@ =~= b@);
    true
}

/// An advertisement belongs to the lock board when it carries the board's
/// name or lists the board's service.
pub open spec fn spec_is_target_device(name: Option<Seq<char>>, service_uuids: Seq<u128>) -> bool {
    (name == Some(DEVICE_NAME@)) || service_uuids.contains(SERVICE_UUID)
}

/// Decides, for one scanned advertisement, whether it is the lock board.
pub fn is_target_device(name: Option<&str>, service_uuids: &[u128]) -> (found: bool)
    ensures
        found == spec_is_target_device(
            match name {
                Some(n) => Some(n@),
                None => None,
            },
            service_uuids@,
        ),
        (exists|i: int|
            0 <= i < service_uuids@.len() && service_uuids@[i]
                == 0x921a6069_4357_4287_a9af_fd386fc0dcadu128) ==> found,
        (name matches Some(n) && n@ == "esp-msg"@) ==> found,
        found ==> (name matches Some(n) && n@ == "esp-msg"@) || (exists|i: int|
            0 <= i < service_uuids@.len() && service_uuids@[i]
                == 0x921a6069_4357_4287_a9af_fd386fc0dcadu128),
{
    proof {
        lemma_target_by_name_or_listed_service(
            match name {
                Some(n) => Some(n@),
                None => None,
            },
            service_uuids@,
        );
    }
    let name_matches = match name {
        Some(n) => str_eq(n, DEVICE_NAME),
        None => false,
    };
    if name_matches {
        return true;
    }
    let k = service_uuids.len();
    let mut i: usize = 0;
    while i < k
        invariant
            k == service_uuids@.len(),
            i <= k,
            forall|j: int| 0 <= j < i ==> service_uuids@[j] != SERVICE_UUID,
        decreases k - i,
    {
        if service_uuids[i] == SERVICE_UUID {
            assert(service_uuids@[i as int] == SERVICE_UUID);
            return true;
        }
        i = i + 1;
    }
    false
}

/// Placement of the progress bar and of its caption on the display.
#[derive(PartialEq, Eq, Structural, Clone, Copy, Debug)]
pub struct BarLayout {
    /// Left edge of the bar.
    pub x: i32,
    /// Top edge of the bar.
    pub y: i32,
    /// Filled width of the bar.
    pub width: u32,
    /// Height of the bar.
    pub height: u32,
    /// Centre of the caption, horizontally.
    pub label_x: i32,
    /// Baseline point of the caption, vertically.
    pub label_y: i32,
}

/// Filled width of a bar of full length `max` after `count` polls: the
/// count scaled by 240 and divided by `max`, capped at `max`.
pub open spec fn spec_bar_width(count: u32, max: u32) -> int {
    let progress = (count as int * 240) / max as int;
    if progress < max {
        progress
    } else {
        max as int
    }
}

/// Lays out the progress bar: a bar of full length `max` centred
/// horizontally, at a fixed height, filled according to `count`, with its
/// caption 20 pixels above the point (`center_x`, `center_y`).
pub fn loading_bar_layout(count: u32, max: u32, center_x: i32, center_y: i32) -> (bar: BarLayout)
    requires
        0 < max <= FRAME_WIDTH,
        count as int * 240 <= u32::MAX,
        center_y >= i32::MIN + 20,
    ensures
        bar.x == (FRAME_WIDTH - max) / 2,
        bar.y == (FRAME_HEIGHT - 10) / 2,
        bar.width == spec_bar_width(count, max),
        bar.width <= max,
        bar.height == BAR_HEIGHT,
        bar.label_x == center_x,
        bar.label_y == center_y - 20,
{
    let progress = count * 240 / max;
    BarLayout {
        x: ((FRAME_WIDTH - max) / 2) as i32,
        y: ((FRAME_HEIGHT - 10) / 2) as i32,
        width: if progress < max {
            progress
        } else {
            max
        },
        height: BAR_HEIGHT,
        label_x: center_x,
        label_y: center_y - 20,
    }
}

/// Caption shown above the progress bar: "Sending: " and the code.
pub fn loading_label(message: &str) -> (label: String)
    ensures
        label@ == "Sending: "@ + message@,
{
    let mut label = String::new();
    label.append("Sending: ");
    label.append(message);
    label
}

} // verus!

verus! {

/// Message shown on the display once an unlock attempt is over.
#[derive(PartialEq, Eq, Structural, Clone, Copy, Debug)]
pub enum Notice {
    /// The lock board received the command.
    Success,
    /// The lock board could not be reached.
    DeviceNotFound,
    /// A complete keypad code was not all digits.
    InvalidCode,
}

impl Notice {
    /// The text of the notice.
    pub open spec fn spec_text(self) -> Seq<char> {
        match self {
            Notice::Success => "Success"@,
            Notice::DeviceNotFound => "Device not found"@,
            Notice::InvalidCode => "Invalid code"@,
        }
    }

    /// The text of the notice.
    pub fn text(&self) -> (t: &'static str)
        ensures
            t@ == self.spec_text(),
    {
        match self {
            Notice::Success => "Success",
            Notice::DeviceNotFound => "Device not found",
            Notice::InvalidCode => "Invalid code",
        }
    }

    /// Whether the notice reports a failure (shown in red rather than
    /// green).
    pub fn is_alert(&self) -> (alert: bool)
        ensures
            alert == (*self != Notice::Success),
    {
        match self {
            Notice::Success => false,
            _ => true,
        }
    }

    /// How long the notice stays on the display, in milliseconds.
    pub fn hold_ms(&self) -> (ms: u32)
        ensures
            ms == (if *self == Notice::Success {
                1000u32
            } else {
                2000u32
            }),
    {
        match self {
            Notice::Success => 1000,
            _ => 2000,
        }
    }
}

/// What the BLE task has answered when it is polled.
pub enum BleReply {
    /// The command was written to the lock board.
    Sent,
    /// Sending failed, with the error's text.
    Failed(String),
    /// No answer yet.
    Pending,
    /// The BLE task is gone.
    Disconnected,
}

/// What to do after polling the BLE task.
#[derive(PartialEq, Eq, Structural, Clone, Copy, Debug)]
pub enum WaitAction {
    /// Stop waiting and show this notice.
    Show(Notice),
    /// Keep waiting: draw the progress bar so, pause, and poll again.
    Progress(BarLayout),
    /// Stop waiting without showing anything.
    Stop,
}

/// The progress bar after `count` unanswered polls.
pub open spec fn spec_wait_bar(count: u32) -> BarLayout {
    BarLayout {
        x: ((FRAME_WIDTH - PROGRESS_MAX) / 2) as i32,
        y: ((FRAME_HEIGHT - 10) / 2) as i32,
        width: spec_bar_width(count, PROGRESS_MAX) as u32,
        height: BAR_HEIGHT,
        label_x: (FRAME_WIDTH / 2) as i32,
        label_y: ((FRAME_HEIGHT / 2) as i32 - 20) as i32,
    }
}

/// One poll of the wait: (next count, action).
pub open spec fn spec_wait_step(count: u32, reply: BleReply) -> (int, WaitAction) {
    match reply {
        BleReply::Sent => (count as int, WaitAction::Show(Notice::Success)),
        BleReply::Failed(_) => (count as int, WaitAction::Show(Notice::DeviceNotFound)),
        BleReply::Pending => (count + 1, WaitAction::Progress(spec_wait_bar(count))),
        BleReply::Disconnected => (count as int, WaitAction::Stop),
    }
}

/// Waiting for the BLE task to report on an unlock command.
pub struct BleWait {
    count: u32,
}

impl View for BleWait {
    type V = u32;

    closed spec fn view(&self) -> u32 {
        self.count
    }
}

impl BleWait {
    /// A wait with no unanswered poll yet.
    pub fn new() -> (w: BleWait)
        ensures
            w@ == 0,
    {
        BleWait { count: 0 }
    }

    /// Number of unanswered polls so far.
    pub fn count(&self) -> (n: u32)
        ensures
            n == self@,
    {
        self.count
    }

    /// Decides what to do with the BLE task's answer to one poll.
    pub fn step(&mut self, reply: &BleReply) -> (action: WaitAction)
        requires
            *reply is Pending ==> old(self)@ as int * 240 <= u32::MAX,
        ensures
            (final(self)@ as int, action) == spec_wait_step(old(self)@, *reply),
            *reply is Sent ==> action == WaitAction::Show(Notice::Success) && final(self)@ == old(
                self,
            )@,
            *reply is Failed ==> action == WaitAction::Show(Notice::DeviceNotFound) && final(self)@
                == old(self)@,
            *reply is Disconnected ==> action == WaitAction::Stop && final(self)@ == old(self)@,
            *reply is Pending ==> final(self)@ == old(self)@ + 1,
            *reply is Pending ==> (action matches WaitAction::Progress(bar) && bar.x == 20 && bar.y
                == 115 && bar.height == 20 && bar.label_x == 120 && bar.label_y == 100 && bar.width
                == (if old(self)@ * 240 / 200 < 200 {
                old(self)@ * 240 / 200
            } else {
                200
            })),
    {
        proof {
            lemma_wait_step_by_reply(self@, *reply);
        }
        match reply {
            BleReply::Sent => WaitAction::Show(Notice::Success),
            BleReply::Failed(_) => WaitAction::Show(Notice::DeviceNotFound),
            BleReply::Pending => {
                let bar = loading_bar_layout(
                    self.count,
                    PROGRESS_MAX,
                    (FRAME_WIDTH / 2) as i32,
                    (FRAME_HEIGHT / 2) as i32,
                );
                self.count = self.count + 1;
                WaitAction::Progress(bar)
            },
            BleReply::Disconnected => WaitAction::Stop,
        }
    }
}

} // verus!

verus! {

/// The lock board is recognised by its name, or by its service UUID at any
/// position of the advertised service list; nothing else is recognised.
pub proof fn lemma_target_by_name_or_listed_service(name: Option<Seq<char>>, service_uuids: Seq<u128>)
    ensures
        (exists|i: int|
            0 <= i < service_uuids.len() && service_uuids[i]
                == 0x921a6069_4357_4287_a9af_fd386fc0dcadu128) ==> spec_is_target_device(
            name,
            service_uuids,
        ),
        name == Some("esp-msg"@) ==> spec_is_target_device(name, service_uuids),
        spec_is_target_device(name, service_uuids) ==> name == Some("esp-msg"@) || (exists|i: int|
            0 <= i < service_uuids.len() && service_uuids[i]
                == 0x921a6069_4357_4287_a9af_fd386fc0dcadu128),
{
    if exists|i: int|
        0 <= i < service_uuids.len() && service_uuids[i] == 0x921a6069_4357_4287_a9af_fd386fc0dcadu128 {
        let i = choose|i: int|
            0 <= i < service_uuids.len() && service_uuids[i]
                == 0x921a6069_4357_4287_a9af_fd386fc0dcadu128;
        assert(service_uuids.contains(SERVICE_UUID));
    }
    if service_uuids.contains(SERVICE_UUID) {
        let i = choose|i: int| 0 <= i < service_uuids.len() && service_uuids[i] == SERVICE_UUID;
        assert(service_uuids[i] == 0x921a6069_4357_4287_a9af_fd386fc0dcadu128);
    }
}

/// How each answer of the BLE task is handled, whatever its message: a
/// sent command shows "Success", any failure shows "Device not found", a
/// vanished task ends the wait, and no answer advances the progress bar by
/// one poll; only the last changes the count.
pub proof fn lemma_wait_step_by_reply(count: u32, reply: BleReply)
    ensures
        reply is Sent ==> spec_wait_step(count, reply) == (count as int, WaitAction::Show(
            Notice::Success,
        )),
        reply is Failed ==> spec_wait_step(count, reply) == (count as int, WaitAction::Show(
            Notice::DeviceNotFound,
        )),
        reply is Disconnected ==> spec_wait_step(count, reply) == (count as int, WaitAction::Stop),
        reply is Pending ==> spec_wait_step(count, reply).0 == count + 1,
        reply is Pending ==> (spec_wait_step(count, reply).1 matches WaitAction::Progress(bar)
            && bar.x == 20 && bar.y == 115 && bar.height == 20 && bar.label_x == 120 && bar.label_y
            == 100 && bar.width == (if count * 240 / 200 < 200 {
            count * 240 / 200
        } else {
            200
        })),
{
}

} // verus!
