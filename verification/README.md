# prolaunch

The backend logic of ProLaunch, a desktop launcher that turns the scripts of
a project folder into buttons, scaffolds new projects from templates, and
runs, watches and stops their processes.

`src/` is the library, written in Verus. Its functions carry contracts
that Verus proves, but for a few trusted items whose contracts Verus takes
on faith: `push_char` in `text`, a wrapper around `String::push`, and in
`docs` the declarations of `serde_json::Value` and `toml::Value`, the
wrappers `parse_json` and `parse_toml` around their parsers, the
converters that turn a parsed value into the library's own document type,
and the two names for what a parse gives back. The library covers

- reading project manifests (`package.json`, `composer.json`,
  `pyproject.toml`, `pubspec.yaml`, `go.mod`, `pom.xml`, Gradle build files,
  `Gemfile`) into the scripts a folder offers (`project`, `langs`);
- the package manager a folder points to and the one a script runs with;
- the tools each template needs and the steps that create it (`prepare`,
  `project`, `langs`);
- the command a script runs, the watched command that stops it with the
  launcher, and the registry of running scripts (`runs`);
- the pinned commands, custom commands and recent projects (`stores`);
- tool output shown as log lines and error excerpts (`output`);
- the search path for tools and the terminal and editor commands
  (`search_path`, `terminal`).

What the library proves about a manifest therefore rests on those
parsers behaving as their documentation says.

`app/` is the Tauri shell around it: commands, files, processes, threads.
