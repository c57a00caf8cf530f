# remote_projects

The logic of working on projects that live elsewhere: on SSH servers, in WSL
distributions and in development containers. What can be decided without
touching the outside world is decided here, in Verus, with its contract.

* `src/` is the verified library. `text` and `model` hold what everything else
  is built on. `connection`, `projects`, `settings` and `ssh_config` are the
  saved servers with their projects, and what the SSH configuration says of
  them. `docker`, `docker_exec` and `docker_server` are the way into a
  container; `dev_container*` is the life of a development container.
  `ssh_form`, `create_state`, `create_page`, `servers_page`, `remote_entries`,
  `config_picker`, `modal`, `open_project` and `overlay` are the rules of the
  windows. `theme` and `material` say which colour becomes what on a
  translucent window, `settings_sync` what the page of the settings sync shows,
  and `process` in which order a process is ended.
* `app/` carries out what the library decides: it runs commands, watches files,
  mixes colours and reads the settings file.
* `tests/` runs the library on concrete values.

Functions that open a connection or install a server are written as steps: the
library names the next command and takes its outcome in, and whoever calls it
runs the command in between.

What the library takes from outside it takes through `shell` (quoting, from
`shlex`), `docker_exec` (the text of a version, from `semver`), and `text`,
`output` and `ssh_form` (the standard library's lower case and UTF-8).
