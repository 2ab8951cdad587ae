# wifilogin

`wifilogin` submits captive-portal credentials on Wi-Fi networks that
NetworkManager has already joined. It never scans for, joins or leaves a network.

## The rule

Credentials are submitted automatically only when all of this holds:

- Wi-Fi is associated with a target: the SSID is on the target list and, where
  the target names a NetworkManager profile, the connection has its UUID;
- the connection is active and owns a default route;
- NetworkManager reports its connectivity as `Portal`;
- automatic login is not paused, a username is configured, and the keyring holds
  a password.

The controller submits the credentials that it is handed. The program hands it
what `keyring::credentials` makes of the configured username and the keyring's
answer, and `runs` states what follows for the username under that condition.

An inconclusive login is retried after 30 seconds, then with doubled delays up
to five minutes. Rejected or missing credentials are not retried. A failed local
read gets one retry after 750 ms.

## Layout

- `src/`: the verified library. `session` is the controller, a state machine
  that is told what was read and says what to do next; `runs` states what holds
  of every run of it. `config` decides which connection may get credentials,
  `probe`, `wifi` and `signals` read NetworkManager, `portal` reads the portal's
  reply, `daemon` schedules steps, `commands` and `status` are the command line,
  `service` and `install` are the systemd unit, and `failure`, `keyring`,
  `settings`, `paths` and `text` serve the others.
- `tests/`: its tests.
- `app/`: the program around it: arguments, files, D-Bus, HTTP and the keyring.
