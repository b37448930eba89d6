# yuralock_app

The verified core of a file-encryption front end (desktop and Android).

- `src/request.rs`: encryption ratio normalization, request validation, Unicode whitespace.
- `src/process.rs`: turning a request into an operation; start and completion progress.
- `src/progress.rs`: progress accounting for encryption, decryption and plain copying,
  and the reading of the stream cipher's step results.
- `src/paths.rs`: output directory choice, parent of a `/`-separated URI, picker outcomes.
- `src/outcome.rs`: result, toast and integrity-check outcomes.
- `app/`: the Tauri commands, file and stream I/O around the library.
