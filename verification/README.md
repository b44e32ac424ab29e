# xr_hotas

Use VR motion controllers as a throttle and a joystick in games that take
gamepad input. Holding the grip of the left controller grabs the throttle,
which follows the controller forward and back and stays where it is when
let go; holding the grip of the right one grabs the stick, which deflects
with the wrist's rotation and recenters when let go. `SIGUSR1` toggles a
binding mode that sends only the stick axis that moves the most.

Layout:

- `src/` is the verified library (Verus): the ioctl request numbers and the
  bytes written to uinput (`ioctl`, `event`, `device`), the gamepad and
  keyboard codes (`codes`), the held-key state of the virtual keyboard
  (`keyboard`), the controllers' buttons and action names (`layout`), the
  suggested bindings (`bindings`), the reaction to runtime events
  (`session`), the throttle and stick state machine (`operation`), signal
  handling (`signal`), and proofs that these fit together (`wiring`).
- `app/` is the program: OpenXR, the uinput device files and ioctl calls,
  signal listening, and the floating-point work (axis scaling, thresholds,
  stick rotation, binding mode).
- `tests/` runs the library on concrete values.
