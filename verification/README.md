# ibctl

A controller for Interactive Brokers Gateway: it launches the Gateway's JVM, logs in, answers
dialogs and second factors, watches the session, and tells API clients when to connect.

- `src/` is the library, verified with Verus: the lifecycle state machine, the command
  protocol, the configuration layers, the agent's protocol, the dialog handlers, the schedules
  and the text formats. It does no input or output. Its driver tells it what was observed and
  carries out what it decides.
- `tests/` runs the library on concrete values.
- `app/` is the program around it: sockets, processes, files and clocks.

The laws of the state machine are in `src/state_machine/laws.rs`. Chief among them: but for the
privileged SETSTATE command, the connected state is entered on positive evidence alone, and
silence never promotes.

What the program does not do: it does not drive the Gateway's configuration dialog, so it applies
no API settings (nor an auto-restart time), and takes a confirmed API server as all there is to
configure; and it has no channel to notify an operator, so a wait for the operator ends by its
timer or by the HITL_RESUME command.

The login form, a session conflict and the entry of codes are handled in `app/` by short fixed
sequences of clicks.
