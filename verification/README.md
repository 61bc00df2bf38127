# doco

Doco runs end-to-end tests of web applications against containers: the server under test, the
services it depends on, and Selenium with Firefox.

- `src/` is the verified library: the configuration (`Server`, `Service`, `Doco`, `Viewport`),
  the container plans that decide what each container is started with, the Firefox capabilities,
  and the WebDriver and server URLs. `containers.rs` and the top of `browser.rs` hold the trusted
  declarations and wrappers of `testcontainers` and `thirtyfour`.
- `app/` starts the containers, connects WebDriver, runs the tests with `libtest-mimic` and sets
  up tracing.
- `tests/` exercises the library with the real outside crates.
