# dora_openarm_vr

A dora node that receives Meta Quest controller packets over UDP and
publishes OpenArm teleoperation outputs on every `tick`.

- `src/` is the verified library (Verus): reading a datagram into a Quest
  packet (`message`), the receiver's latest packet and bounded arrival-time
  log (`receiver`), the UDP thread's decisions as a step function
  (`receive_loop`), the per-tick decisions (`tick`: which outputs are sent,
  in which order, what happens to each pose filter, when a validity change
  is reported), decimal rendering (`text`), wall-clock timestamps (`clock`)
  and the gripper calibration (`transform`).
- `app/` is the binary: command-line options, the socket calls of the UDP
  thread, the dora
  event loop, Arrow output arrays, and the floating-point pose work
  (quaternions, frame transform, One Euro filtering, field readers that
  need a number's `f64` value), which carries out the library's decisions.
- `tests/` exercises the library.
