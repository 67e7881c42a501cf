# interaction_handler

Decides what a chat application does about the interactions of its users: slash commands,
forms, buttons and pings.

- `src/` is the library, verified with Verus. It holds no sockets and no futures: given an
  interaction it returns the step to take, given the outcome of a task it returns the
  response to send.
  - `handler` is the routing, `state` says what it remembers and how its decisions follow
    from that, `step` what the decisions are.
  - `mappings` links running tasks and the interactions that they can be reached through.
    `name_table` and `commands` are the tables that things are looked up in. `custom_id`
    makes and splits custom IDs. `util` reads and builds forms.
  - `routing_laws` and `task_laws` state, over the operations listed in `operation`, what
    holds of all of this together.
- `app/` runs the library against Discord with the twilight crates and tokio.
- `tests/` runs the library.
