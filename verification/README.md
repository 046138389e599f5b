# screenguard-agent

The decisions that the ScreenGuard agent makes when it starts, verified with
Verus: reading the command line and the configuration, telling cloud accounts
apart, keeping or replacing a pairing, choosing a server, and deriving the web
address that the tray offers.

- `src/command_line.rs`: commands and flag values.
- `src/config.rs`: settings and their defaults.
- `src/account.rs`: when two accounts are one, and when a pairing gives way.
- `src/cloud.rs`: the settings of cloud mode, and refusals.
- `src/url.rs`: web addresses of servers.
- `src/startup.rs`: the start, step by step, as actions and events.
- `src/startup_laws.rs`: what holds of every start and of restarts.
- `src/text.rs`: character sequences, and the standard string operations.
- `app/`: the program: logging, systemd, files, and the loop that carries out
  the actions.
