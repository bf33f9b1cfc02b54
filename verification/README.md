# nexustui

A verified library for a terminal hub that talks to an Android phone on the local network
over `adb`, shows a chat fed by a line-based hub server, and lets the user send, fetch and
mirror files.

- `src/` holds the decisions, each with a contract proved by Verus: key handling and the
  pop-up menus (`hub`), the screen's rows and colours (`view`), the pop-up placement
  (`layout`, through ratatui's layout solver), folder and phone listings (`listing`), the
  phone's name and screen mirroring (`device`), file sending and fetching (`transfer`), the
  server start-up (`launcher`), and the text and path operations they rest on (`text`,
  `path`). Laws that span several calls are stated as proof functions beside the code they
  are about.
- `app/` is the program: terminal set-up, the event loop, sockets, processes and files; it
  performs what the library asks for and hands back what happened.
- `tests/` runs the library on concrete values, and checks the text, path and size
  formatting against the standard library.
