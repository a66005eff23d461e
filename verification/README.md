# pololu3pi2040-rs

The firmware logic of a small two-wheeled robot, verified with Verus.

`src/` decides; it never touches hardware. Each task of the robot is a small state machine that
takes in what happened and says what to do next, with a contract that fixes both:

- `orchestrator`, `orchestrator_signal`, `boot`, `ekf_init`: switching between modes, commands,
  starting up, where the estimator starts
- `trajectory_control`, `odometry`, `diffdrive`, `control_types`: following a trajectory with pauses
  and stops, when to sample the wheels, driving a circle
- `sdlog`, `log_record`, `log_blocks`, `log_file`, `sd_logging`, `sd_init`: the binary log, from one
  event to the blocks on the card, the names of log files, bringing up the card
- `gain_mlp_store`, `robotstate`, `clock`: shared values and time

What holds of several functions together stands beside them as a proof function whose name begins
with `law_`. Single precision numbers are carried as their 32 bit words.

`app/` is the program around the library: control laws in floating point, tasks, the file system,
and a board on a host.
