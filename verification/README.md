# chevalier-sandbox

A sandbox runs sessions: each is a VM with commands, shells, files and forwarded ports. The VMs run
on nodes that a daemon serves, alone or in a cluster, or with a service that manages them
(Freestyle, OpenComputer). A gateway serves the files that sessions share.

`src/` is the library. It decides everything that can be decided from values in hand, and each of
its functions has a contract that Verus proves:

- `text`, `table`, `textmap`, `order`, `unique`, `numeral`, `span`, `wire`, `json`: texts, tables,
  orders, numbers, durations and ids;
- `error`, `endpoint`, `auth`, `config`, `sandbox`: errors, endpoints, tokens and settings;
- `vm`, `mounts`, `session`, `inventory`, `managed`: VMs, their mounts, sessions and what is listed
  of them;
- `readiness`, `reach`, `rebind`, `exec`, `stream`, `shell`, `transfer`, `parts`, `forward`: when a
  guest is ready, how it is reached, where a lost session is found again, and the streams of commands,
  shells, files and ports;
- `freestyle`, `freestyle_api`, `freestyle_mounts`, `freestyle_pty`: the requests to Freestyle and
  the meaning of its answers;
- `vfs`, `vfs_headers`, `vfs_listing`, `vfs_gateway`, `vfs_publication`: the gateway, and how its
  writers wait for those who watch;
- `fuse`, `fuse_channel`, `fuse_mount`: messages, replies and mounts of macFUSE.

What holds of several functions together stands in the public proof functions whose names begin with
`law_`.

`tests/` runs the library on given values. `app/` does the input and output around it: HTTP,
WebSockets, sockets, processes, the environment and the wire formats.
