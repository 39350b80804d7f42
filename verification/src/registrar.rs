//! The device registrar's declaration plans: exactly which capability and
//! identity calls register each device profile with the kernel.
//!
//! Registration is a fixed control-call sequence on the opened control
//! node: declare the event types and codes the profile emits, declare the
//! device identity with its bounded null-terminated name, then create the
//! device. Any failing call is fatal — a half-configured device is never
//! used — and creation being asynchronous, the device is usable only
//! after a fixed settle delay. The thread owning the control descriptor
//! executes these plans call by call, in order.

use crate::records::{
    ABS_X, ABS_Y, BTN_LEFT, BTN_RIGHT, BUS_USB, EV_ABS, EV_KEY, EV_REL, REL_X, REL_Y,
};
use crate::text::{spec_c_padded, write_c_string};
use vstd::prelude::*;

verus! {

/// Capacity of each device's bounded action channel.
pub const QUEUE_CAPACITY: usize = 1024;

/// Settle delay after creation before the device is usable, in
/// milliseconds: kernel-side registration is asynchronous.
pub const DEVICE_READY_DELAY_MILLIS: u64 = 500;

/// Pacing interval a worker sleeps after emitting one action's frame, in
/// microseconds: the bound on a device's event rate.
pub const ACTION_DELAY_MICROS: u64 = 500;

/// Bytes of the fixed device-name buffer in the identity record.
pub const UINPUT_NAME_BYTES: usize = 80;

/// Highest key code declared for the virtual keyboard; the full physical
/// range `1..=KEYBOARD_MAX_KEY` is declared.
pub const KEYBOARD_MAX_KEY: u16 = 119;

/// The capability set a virtual device is created with.
#[derive(Clone, Copy, PartialEq, Eq, Structural, Debug)]
pub enum DeviceType {
    /// Full-range keyboard.
    Keyboard,
    /// Relative-motion mouse with left and right buttons.
    RelativeMouse,
    /// Absolute-motion mouse with left and right buttons.
    AbsoluteMouse,
}

/// The identity a virtual device declares: bus type and vendor, product
/// and version numbers.
#[derive(Clone, Copy, PartialEq, Eq, Structural, Debug)]
pub struct InputId {
    /// Bus type.
    pub bustype: u16,
    /// Vendor id.
    pub vendor: u16,
    /// Product id.
    pub product: u16,
    /// Version number.
    pub version: u16,
}

/// The identity record handed to the device-setup control call.
pub struct UInputSetup {
    /// Device identity numbers.
    pub id: InputId,
    /// The device name, null-terminated in a fixed buffer.
    pub name: Vec<u8>,
    /// Maximum force-feedback effect count; none is declared.
    pub ff_effects_max: u32,
}

/// One control call of a registration plan, in execution order.
pub enum SetupCall {
    /// Declare that the device emits this event type.
    SetEventBit(u16),
    /// Declare this key or button code.
    SetKeyBit(u16),
    /// Declare this relative axis code.
    SetRelBit(u16),
    /// Declare this absolute axis code.
    SetAbsBit(u16),
    /// Declare an absolute axis' range: code, minimum, maximum.
    AbsSetup(u16, i32, i32),
    /// Declare the device identity and name.
    DeviceSetup(UInputSetup),
    /// Create the device.
    Create,
}

/// The identity every virtual device declares.
pub open spec fn spec_device_id() -> InputId {
    InputId { bustype: BUS_USB, vendor: 0x1234, product: 0x5678, version: 0 }
}

/// The declared name of each profile's device.
pub open spec fn spec_device_name(t: DeviceType) -> Seq<u8> {
    match t {
        DeviceType::Keyboard => seq![
            75u8, 101u8, 121u8, 98u8, 111u8, 97u8, 114u8, 100u8, 32u8, 100u8, 101u8, 118u8,
            105u8, 99u8, 101u8,
        ],
        DeviceType::RelativeMouse => seq![
            82u8, 101u8, 108u8, 97u8, 116u8, 105u8, 118u8, 101u8, 32u8, 109u8, 111u8, 117u8,
            115u8, 101u8, 32u8, 100u8, 101u8, 118u8, 105u8, 99u8, 101u8,
        ],
        DeviceType::AbsoluteMouse => seq![
            65u8, 98u8, 115u8, 111u8, 108u8, 117u8, 116u8, 101u8, 32u8, 109u8, 111u8, 117u8,
            115u8, 101u8, 32u8, 100u8, 101u8, 118u8, 105u8, 99u8, 101u8,
        ],
    }
}

/// Whether `s` is the identity record a profile-`t` device declares:
/// the shared identity numbers, the profile's name bounded and
/// null-terminated in the fixed-width buffer, and no force-feedback
/// effects.
pub open spec fn spec_is_device_setup(s: UInputSetup, t: DeviceType) -> bool {
    &&& s.id == spec_device_id()
    &&& s.name@ == spec_c_padded(spec_device_name(t), UINPUT_NAME_BYTES as int)
    &&& s.ff_effects_max == 0
}

/// The declared name bytes of a profile's device.
pub fn device_name(t: DeviceType) -> (name: Vec<u8>)
    ensures
        name@ == spec_device_name(t),
{
    let mut name: Vec<u8> = Vec::new();
    match t {
        DeviceType::Keyboard => {
            name.push(75);
            name.push(101);
            name.push(121);
            name.push(98);
            name.push(111);
            name.push(97);
            name.push(114);
            name.push(100);
            name.push(32);
            name.push(100);
            name.push(101);
            name.push(118);
            name.push(105);
            name.push(99);
            name.push(101);
        },
        DeviceType::RelativeMouse => {
            name.push(82);
            name.push(101);
            name.push(108);
            name.push(97);
            name.push(116);
            name.push(105);
            name.push(118);
            name.push(101);
            name.push(32);
            name.push(109);
            name.push(111);
            name.push(117);
            name.push(115);
            name.push(101);
            name.push(32);
            name.push(100);
            name.push(101);
            name.push(118);
            name.push(105);
            name.push(99);
            name.push(101);
        },
        DeviceType::AbsoluteMouse => {
            name.push(65);
            name.push(98);
            name.push(115);
            name.push(111);
            name.push(108);
            name.push(117);
            name.push(116);
            name.push(101);
            name.push(32);
            name.push(109);
            name.push(111);
            name.push(117);
            name.push(115);
            name.push(101);
            name.push(32);
            name.push(100);
            name.push(101);
            name.push(118);
            name.push(105);
            name.push(99);
            name.push(101);
        },
    }
    proof {
        assert(name@ =~= spec_device_name(t));
    }
    name
}

/// Builds the identity record of a profile's device.
pub fn device_setup(t: DeviceType) -> (s: UInputSetup)
    ensures
        spec_is_device_setup(s, t),
{
    let src = device_name(t);
    let mut name: Vec<u8> = Vec::new();
    let mut i: usize = 0;
    while i < UINPUT_NAME_BYTES
        invariant
            i <= UINPUT_NAME_BYTES,
            name@.len() == i,
        decreases UINPUT_NAME_BYTES - i,
    {
        name.push(0);
        i = i + 1;
    }
    write_c_string(&mut name, src.as_slice());
    UInputSetup {
        id: InputId { bustype: BUS_USB, vendor: 0x1234, product: 0x5678, version: 0 },
        name,
        ff_effects_max: 0,
    }
}

/// The keyboard registration plan: key events with the full physical key
/// range `1..=119`, then identity and creation.
pub fn setup_keyboard() -> (plan: Vec<SetupCall>)
    ensures
        plan@.len() == KEYBOARD_MAX_KEY + 3,
        plan@[0] == SetupCall::SetEventBit(EV_KEY),
        forall|i: int|
            1 <= i <= KEYBOARD_MAX_KEY ==> plan@[i] == SetupCall::SetKeyBit(#[verifier::truncate] (
            i as u16)),
        plan@[KEYBOARD_MAX_KEY + 1] matches SetupCall::DeviceSetup(s) && spec_is_device_setup(
            s,
            DeviceType::Keyboard,
        ),
        plan@[KEYBOARD_MAX_KEY + 2] is Create,
{
    let mut plan: Vec<SetupCall> = Vec::new();
    plan.push(SetupCall::SetEventBit(EV_KEY));
    let mut key: u16 = 1;
    while key <= KEYBOARD_MAX_KEY
        invariant
            1 <= key <= KEYBOARD_MAX_KEY + 1,
            plan@.len() == key,
            plan@[0] == SetupCall::SetEventBit(EV_KEY),
            forall|i: int|
                1 <= i < key ==> plan@[i] == SetupCall::SetKeyBit(#[verifier::truncate] (
                i as u16)),
        decreases KEYBOARD_MAX_KEY + 1 - key,
    {
        plan.push(SetupCall::SetKeyBit(key));
        key = key + 1;
    }
    plan.push(SetupCall::DeviceSetup(device_setup(DeviceType::Keyboard)));
    plan.push(SetupCall::Create);
    plan
}

/// The relative-mouse registration plan: left and right buttons, both
/// relative axes, then identity and creation.
pub fn setup_relative_mouse() -> (plan: Vec<SetupCall>)
    ensures
        plan@.len() == 8,
        plan@[0] == SetupCall::SetEventBit(EV_KEY),
        plan@[1] == SetupCall::SetKeyBit(BTN_LEFT),
        plan@[2] == SetupCall::SetKeyBit(BTN_RIGHT),
        plan@[3] == SetupCall::SetEventBit(EV_REL),
        plan@[4] == SetupCall::SetRelBit(REL_X),
        plan@[5] == SetupCall::SetRelBit(REL_Y),
        plan@[6] matches SetupCall::DeviceSetup(s) && spec_is_device_setup(
            s,
            DeviceType::RelativeMouse,
        ),
        plan@[7] is Create,
{
    let mut plan: Vec<SetupCall> = Vec::new();
    plan.push(SetupCall::SetEventBit(EV_KEY));
    plan.push(SetupCall::SetKeyBit(BTN_LEFT));
    plan.push(SetupCall::SetKeyBit(BTN_RIGHT));
    plan.push(SetupCall::SetEventBit(EV_REL));
    plan.push(SetupCall::SetRelBit(REL_X));
    plan.push(SetupCall::SetRelBit(REL_Y));
    plan.push(SetupCall::DeviceSetup(device_setup(DeviceType::RelativeMouse)));
    plan.push(SetupCall::Create);
    plan
}

/// The absolute-mouse registration plan: left and right buttons, both
/// absolute axes each declared with range `[0, 65535]`, then identity and
/// creation.
pub fn setup_absolute_mouse() -> (plan: Vec<SetupCall>)
    ensures
        plan@.len() == 10,
        plan@[0] == SetupCall::SetEventBit(EV_KEY),
        plan@[1] == SetupCall::SetKeyBit(BTN_LEFT),
        plan@[2] == SetupCall::SetKeyBit(BTN_RIGHT),
        plan@[3] == SetupCall::SetEventBit(EV_ABS),
        plan@[4] == SetupCall::SetAbsBit(ABS_X),
        plan@[5] == SetupCall::SetAbsBit(ABS_Y),
        plan@[6] == SetupCall::AbsSetup(ABS_X, 0, 65535),
        plan@[7] == SetupCall::AbsSetup(ABS_Y, 0, 65535),
        plan@[8] matches SetupCall::DeviceSetup(s) && spec_is_device_setup(
            s,
            DeviceType::AbsoluteMouse,
        ),
        plan@[9] is Create,
{
    let mut plan: Vec<SetupCall> = Vec::new();
    plan.push(SetupCall::SetEventBit(EV_KEY));
    plan.push(SetupCall::SetKeyBit(BTN_LEFT));
    plan.push(SetupCall::SetKeyBit(BTN_RIGHT));
    plan.push(SetupCall::SetEventBit(EV_ABS));
    plan.push(SetupCall::SetAbsBit(ABS_X));
    plan.push(SetupCall::SetAbsBit(ABS_Y));
    plan.push(SetupCall::AbsSetup(ABS_X, 0, 65535));
    plan.push(SetupCall::AbsSetup(ABS_Y, 0, 65535));
    plan.push(SetupCall::DeviceSetup(device_setup(DeviceType::AbsoluteMouse)));
    plan.push(SetupCall::Create);
    plan
}

} // verus!
