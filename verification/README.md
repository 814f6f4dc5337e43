# SeeleOS packages

A small ports collection for SeeleOS: it fetches, patches, configures,
builds and installs packages into a staged sysroot.

```sh
cargo run install bash
cargo run install busybox
cargo run install tinycc
cargo run clean bash
```

The command line understands `install <package>`, `clean <package>` and
`rebuild-only <package>`, each with `--rebuild` and `--ignore-deps`.

`install` builds into the staged sysroot and stops there: copying the
staged sysroot onto the real one is not part of this collection, and no
relibc build runs before each package.

## Layout

- `src/` is the library, verified with Verus. It decides everything the
  tool does and states it in contracts:
  - `cli` reads the command line into an action, a package and two flags;
  - `registry` names the packages, their dependencies and the meta packages
    that group them; `workflow` gives the order in which packages are made
    (dependencies first) and what each action does;
  - `recipes` gives the steps of each phase of each package (fetch, patch,
    configure, build, install) as values (`plan::Step`), with the commands
    they run (`command::CommandSpec`);
  - `configure`, `building`, `install`, `fetch`, `cross` build those
    commands: the cross environment, the install layout, Meson's cross and
    native files;
  - `busybox_config`, `libtool`, `gnu_config`, `patch`, `desktop` hold the
    text processing: busybox configurations and applet lists, `libtool`
    scripts, `config.sub`, patch outcomes, and the edits made to openbox
    and pango; the laws there show that each of these edits, made a
    second time, changes nothing (`config_sub_facts` and `edit_facts`
    hold the facts about their texts that the proofs need);
  - `text`, `path` and `order` model the parts of `str`, `Path` and sorting
    that the rest relies on.
- `app/` is the program: it reads the command line, the environment and the
  file system, runs the commands and writes the files that the library
  plans.
- `tests/` runs the library on concrete values.

## Adding a package

1. Add a package asset directory under `packages/<name>/` if patches or
   extra files are needed: the package's patch is `<name>.patch` there,
   further patches go in its `pkg-specific/` subdirectory, and extra files
   (such as busybox's `seele.config`) sit beside them.
2. Add it to `registry` (its name and dependencies) and to `recipes` (where
   its sources come from and how it is built).
3. Give it a type in `packages` that implements `Package`.
