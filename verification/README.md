# super_native_extensions (data providers)

A Verus library for the data-provider side of clipboard and drag-and-drop:

- `src/api_model.rs`: the provider model (identifiers, representations, storage
  suggestions), with the kind and format of each representation.
- `src/data_provider.rs`: what a pasteboard writer declares and answers.
- `src/data_provider_manager.rs`: the virtual file session table, as a state
  machine whose replies are the notices each session's callbacks receive, and
  the completion of lazy data requests.
- `src/session_laws.rs`: laws of the session table, proved over the same spec
  functions the executable contracts use.

`app/` holds the platform layer: message-channel forms of the types, the
callbacks of each session, the run-loop task of a lazy data request and, on
macOS, the Objective-C pasteboard writer.
