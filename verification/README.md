# suibi

An event-sourced domain for a small publishing site: users, roles and
permissions, tags, taxonomies and posts. Each aggregate turns commands into
events and rebuilds its state by applying events; a context records the
events handled since the last commit and replays those read from a store.

The library under `src/` is written in Verus, and its behaviour is stated in
`requires` / `ensures` contracts that Verus proves:

- `aggregate`, `context`: the aggregate trait, folding events into a state,
  and the working context with its versions and recorded events.
- `tag`, `permission`, `role`, `user`, `taxonomy`, `post`: the aggregates,
  each with a spec of what every command yields or why it is refused, and
  proved laws about handling followed by applying.
- `permission_code`, `taxonomy_path`, `sets`: validated codes, slash-separated
  paths and duplicate-free identifier and name sets.
- `usecase`, `dto`, `service`: the commands the use cases issue for each
  request, and the decisions they take between reads of the store.

`app/` holds what runs around the library: the asynchronous use cases, the
store and service traits, and serialisable copies of the events and errors.
`tests/` exercises the library on concrete values.
