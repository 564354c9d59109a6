# cargo_lambda

The decision logic of a tool that builds, runs, invokes and deploys Rust
functions for AWS Lambda, written in Verus with its behaviour stated as
`requires` / `ensures` contracts and proved.

## Layout

- `src/` — the verified library. Each module holds executable functions with
  contracts, the spec functions those contracts are stated over, and the
  lemmas and public proof functions (`law_*`) that relate several operations:
  - build planning: target and compiler selection, binary selection, release
    profile flags, output directories (`build_plan`, `build_options`,
    `compiler`, `cross`, `zig`, `target_arch`);
  - package metadata: reading `[package.metadata.lambda]` tables and merging
    them with command-line options (`metadata`, `cargo_meta`, `config`,
    `deploy_config`, `watch_options`);
  - deployment: function and layer requests, configuration updates, retry
    and polling decisions, dry-run output (`deploy`, `deploy_plan`,
    `deploy_steps`, `deploy_output`, `remote`, `lambda`);
  - the local development server: routing of paths and methods to functions
    (`watch`, `route_map`), and routes written as JSON and read back (`route_json`);
  - invocation and project templates: which files a template renders, skips or
    copies, and the rendering of paths and file texts (`invoke`, `template`,
    `new_project`, `git_url`);
  - small text and encoding helpers (`text`, `encoding`, `env`, `number`,
    `strmap`, `fields`, `field_names`, `archive`, `command`, `system`, `error`).

  Calls into outside crates (hashing, base64, URL encoding, JSON string
  quoting, the router, template rendering, time formatting, env-file parsing)
  stand behind
  `#[verifier::external_body]` wrappers whose doc comments say what their
  contracts claim of the outside code.

- `tests/` — ordinary Rust tests that run the compiled library with the real
  outside crates linked.

- `app/` — the command-line edge: reading files and the environment, running
  cargo, walking template directories and writing the project's files, writing
  zip archives, serialising values with serde, printing. It hands plain values
  to the library, which decides and renders, and checks each `requires` before
  a call.
