# web_runner

The runner of a web application that is painted on a canvas: it keeps the
application and everything that is installed in the page for it (event listeners,
the resize observer, the frame in flight), and gives all of it back when it is
destroyed, when an activation fails, or after a panic.

The crate in `src/` decides and is verified with Verus. It never touches the page:
its functions return the actions and requests that the page has to carry out, and
take the answers. The crate in `app/` carries them out with `web-sys`.

- `platform.rs`: the opaque values of the page
- `action.rs`: actions, requests and steps
- `runner.rs`: `WebRunner`, its lock, its subscriptions and its frame
- `frame.rs`: how a frame is scheduled and cancelled
- `subscription.rs`: event listeners and intervals
- `startup.rs`: preparing, activating and aborting an application
- `panic_handler.rs`: the memory of a panic
- `ledger.rs`: what is installed in the page, over any course of events
- `dialogue.rs`: operations over several requests
- `laws.rs`: what holds of the runner as a whole
- `startup_laws.rs`: what holds of preparing, activating and aborting as a whole
