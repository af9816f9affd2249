# nova_launcher

The logic of Nova Launcher, an offline Minecraft launcher, written in Verus
and proved against its contracts.

- `src/text.rs`: trimming by Unicode white space, decimal rendering, the
  username alphabet.
- `src/launch.rs`: loaders, version manifests, launch request validation,
  install progress and the launch session, a state machine that says after
  each piece of outside work (install, metadata, command line, process)
  what to report and what to do next.
- `src/mods.rs`: Modrinth and CurseForge: the HTTP queries for searches and
  file listings, how their answers become projects and download files, and
  where installed files go.
- `src/ui.rs`: the launcher window's state and `update`, which applies a
  message and names the outside work it starts.

`app/` is the program around it: the iced window, HTTP with reqwest, the
installer and launch command of `mc_launcher_core`, files and processes.
Progress is counted in tenths of a percent in the library; the window turns
it into a float for its progress bar.
