# auto_update

An updater for a desktop application. It finds out whether there is a newer release, downloads it,
installs it in the manner of the operating system, and cleans up after itself, also after runs that
were interrupted. It also downloads the program that runs on remote machines, and keeps a few
versions of it.

- `src/` decides. It is a library without any input or output. Its functions are verified with
  Verus against their contracts. Whatever takes several steps is a value that is told what happened
  and answers what is to be done next.
- `app/` does what `src/` decides: it talks to the server, the file system and other programs.
- `tests/` runs the library on given values.

| Module | What it decides |
| --- | --- |
| `version`, `text`, `os_path` | versions and their precedence, texts, paths |
| `release` | which file of a release is the update, and what is asked of the server |
| `status`, `updater`, `polling` | what the updater is doing, and when it looks for updates |
| `update_task`, `update_lock`, `download` | one run of the updater |
| `dependencies`, `command`, `installer_dir`, `marker` | what an installation needs |
| `install_linux`, `install_macos`, `macos_task`, `install_windows` | the installation itself |
| `stale` | which directories earlier runs left behind |
| `remote_server`, `cache` | the remote server, and how many versions of it are kept |
| `error` | what can go wrong, and how that is worded |
