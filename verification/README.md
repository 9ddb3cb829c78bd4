# senra

The client side of ShaderLab, a notebook of shaders and notes kept on a
server.

- `src/` is the library, verified with Verus: the API's requests and
  responses, endpoints and their URLs, the protocol configuration and
  codec names, the client's session state, where responses and stored
  values are routed, and the state machines of the pages (sign-in, home,
  notebook, profile) and widgets (the code editor's key bindings, focus
  and event handling, the highlighter's bookkeeping, the menu bar).
- `app/` is the desktop application around it: the iced views and
  widgets, HTTP and WebSocket I/O, local storage, serde forms of the
  library's types, and the parts that work in floating point.
- `tests/` runs the library on concrete values.
