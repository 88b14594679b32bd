# motorbridge_ros2

The verified core of a bridge between ROS2/DDS topics and motors driven
through the motorbridge ABI.

- `src/` — the library, verified with Verus: command-line parsing, the
  manifest model and its validation, vendor/transport/topic naming, per-joint
  state and the decisions of the bridge loop (each step of a command: opening
  a controller or sharing the one open under its key, adding the motor, the
  control mode, the position limit, the motor call with its parameters and
  the state it leaves; command reports, emergency stop,
  heartbeat watchdog, event routing, periodic reports, topic QoS).
- `tests/` — tests of the library on concrete values.
- `app/` — the program around it: loading the ABI shared library, DDS
  participants, readers and writers, the event poll, YAML/JSON (de)serialisation
  and the float arithmetic of motor commands and feedback. It performs the
  steps the library chooses and hands their outcomes back.
