# levo

The verified core of the Levo portal, a host that fetches brotli-encoded
WebAssembly components, runs them and draws what they ask for.

`src/` is the library, verified with Verus:

- `address`: the address bar: making an address requestable, following links,
  the WebTransport address of a component.
- `weburl`: URLs as the `url` crate parses them (the only place that holds one).
- `canvas`: turning a frame's queued drawing calls into shapes, rectangles,
  labels and links, with the fill-style and path rules and their laws.
- `colors`: the colour names guests use.
- `sandbox`: which files a guest may read: only inside the allowed directory.
- `input`: the keyboard and mouse state shown to a guest during a frame.
- `navigation`: when the portal loads an address and runs a new guest's setup.
- `particles`: the schedule of the particle greeting guest.
- `codec`: brotli encoding and decoding of components (through the `brotli`
  crate).

`app/` is the portal program itself (window, network, files, component
runtime), which calls the library for its decisions.
