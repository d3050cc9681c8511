# herdr_host

The herdr side of a sidebar plugin, as a Verus library: which of the agents that herdr lists a
send can go to, how the picker shows them, and which one turn tracking follows.

- `src/command.rs`: the command lines, and what a run of herdr answers
- `src/replies.rs`: what the decoded replies say
- `src/pane.rs`, `src/status.rs`, `src/labels.rs`: agents, their states, and labels
- `src/resolve.rs`: candidates, and the agent that is tracked
- `src/send.rs`: where a send goes
- `src/laws.rs`: what holds across all of these
- `src/text.rs`: the std functions the proofs take on trust
- `app/`: runs the command, reads the environment and decodes the JSON
