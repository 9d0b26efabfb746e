# grm

A command line tool that keeps software built from the latest GitHub
release of a repository: `declare` a package, `sync` it (fetch the release,
unpack it, run the package's build script on it), `list` what is installed,
and `remove` what a package installed.

- `src/` is the verified library (Verus). It holds the package records, the
  file layout, the error messages, the judgement of GitHub's answers, the
  filling in of build scripts, and the commands `declare`, `sync` and
  `remove` as machines that name each step to perform and move on when told
  what came of it.
- `app/` is the program: it parses the command line, reads and writes files,
  talks to GitHub, unpacks archives and runs scripts, driving the machines.
- `tests/` runs the library on concrete cases.

The build script that `declare` writes for a new package
(`BUILD_SCRIPT_TEMPLATE` in `src/text.rs`) is a minimal bash script that
changes into `{{SOURCE_CODE}}`, the placeholder that `sync` fills in; users
edit it to build and install their package.
