//! Emulation of a HOTAS (throttle and joystick) from VR motion controllers:
//! the rules that decide what the virtual gamepad is told, and the exact
//! bytes and requests that the Linux uinput interface receives.
pub mod ioctl;
pub mod event;
pub mod codes;
pub mod device;
pub mod keyboard;
pub mod layout;
pub mod bindings;
pub mod session;
pub mod operation;
pub mod signal;
pub mod wiring;
