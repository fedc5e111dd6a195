# leepanel

The core of a server panel, written in Verus: executable Rust whose behaviour is stated in
`requires` and `ensures` clauses and proved.

- `src/` decides, checks and builds: the command lines that run on servers, what their output
  means, who may do what through the assistant tools, what the broker of the tools does next,
  the JSON-RPC service, and the registration of the tools.
- `app/` is the program around it: the network, the database, other programs and the window.
- `tests/` runs the library on concrete values.

Where something alternates between the outside world and decisions (opening a connection,
answering a tool call, registering), the library has a state, and a function from the state and
an event to the next state and action; the program performs the action and hands the event back.

What is believed without proof stands in a few marked functions: values, numbers and text of the
JSON crate (`json.rs`, `json_text.rs`), random identifiers (`protocol.rs`), the clock and the
seconds between two moments of it (`cache.rs`), the parts of a path (`archive.rs`), the modes of
files (`files.rs`), bytes shown as text (`bytes.rs`), and adding a character to a string
(`text.rs`).

Proof functions whose names begin with `law_` state what holds of the library as a whole.
