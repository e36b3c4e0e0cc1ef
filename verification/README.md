# dsh_desktop

The desktop shell round the dsh web interface. It installs dsh as a managed
runtime, runs it as a child process, follows its handshake and its events, and
keeps it up to date.

- `src/` is the verified library. It decides; it does no I/O. Each step of a
  start (`start`), of the watch over the child (`watch`, `orphan`), of an
  install (`install`), of an update (`update`) and of a plugin install
  (`plugin`) is a function from the state and from what the last outside step
  gave to the next state and the next step. `resolve` and `runtime` hold the
  versioned installs, `nodejs` the bundled toolchain, `listener` the events of
  the child, `shell` the menus and panels. `outside` holds every call into
  another crate, with what is taken on trust about it.
- `app/` is ordinary Rust: windows, processes, files, sockets and signals.
- `tests/` runs the library on concrete values.

A function's contract states its whole outcome over mathematical views
(`SharedView`, `StartStepView`, ...). Properties that span several functions are
public proof functions whose names begin with `law_`.
