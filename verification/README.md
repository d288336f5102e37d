# syswatch

A system monitor served over TCP: a client connects to port 7878, sends the
access token, then asks for the CPU load, memory use, busiest processes,
network interfaces or alerts, and may ask the machine to power off, restart,
show a message or install a package.

`src/` is the verified library (Verus):

- `text` — decimal numbers, padding, trimming, ASCII case folding, joining,
  each described over `Seq<char>`;
- `float` — floating-point readings held as their IEEE 754 encodings, on
  which the comparisons are exact integer comparisons;
- `model` — the metrics and how each is written out;
- `alerts` — the CPU and memory thresholds and the alert messages;
- `snapshot` — a snapshot from raw readings: units, the five busiest
  processes (stable sort by decreasing load), interfaces, alerts;
- `response` — the answer and the action for each client command;
- `session` — the conversation with a client as a state machine (token,
  then commands);
- `logging` — timestamped log lines.

`app/main.rs` is the server around it: it reads the machine with `sysinfo`
and the local time with `chrono`,
hands each floating-point reading over as its encoding, its one-decimal
text and its whole quotient, runs the TCP listener, the periodic refresh and
the log file, and carries out the actions.
