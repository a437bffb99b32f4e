# websocat_nodes

The verified core of two pieces of websocat's node machinery:

* the `WebsocatNode` / `WebsocatEnum` derives: from a type declaration
  (`src/model.rs`) the library builds the class description
  (`src/class_info.rs`) and writes the Rust code of the node's impls
  (`src/node_codegen.rs`, `src/builder_codegen.rs`, `src/class_codegen.rs`,
  `src/enum_codegen.rs`); every refusal of the derive is an error value;
* the `http-highlevel-client` node (`src/http_client.rs`): option validation,
  the shape of the request, the WebSocket handshake check
  (`src/handshake.rs`, `src/http_syntax.rs`) and the choices made while it
  runs, sequenced as a step function from phase and event to next phase and
  action (`src/run_steps.rs`).

`app/` holds the edges: reading declarations with `syn` and `darling`, turning
the generated code into tokens, and running the HTTP client node with `hyper`
and `tokio`: it performs each action the step function asks for and hands
back what happened.
