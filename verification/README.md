# eye_in_desk_client

Client of the eye-in-desk rig (camera, projector, simulation and robot
services).

- `src/` is the verified library: the addresses of the local services
  (`endpoint`), the calibration procedure as a state machine with its laws
  (`calibration`), and the loading of the configuration file as a state
  machine (`config`).
- `app/` drives those state machines: the gRPC calls, the file and JSON work,
  and the floating-point geometry (homography fitting, projection, rigid
  transforms).
- `tests/` exercises the library on concrete runs.
