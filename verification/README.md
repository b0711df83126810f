# projman

The logic of a desktop project manager, verified with Verus.

- `src/` is the library. Templates (`template`, `templates`) describe the
  folders, files and commands of a new project; `ProjectContext::format`
  fills their `#{name}`, `#{repo}` and `#{license}` placeholders. `project`
  holds projects, their record files and the check of a path for a new
  project; `app_state` holds the manager's state and the decisions behind
  loading, importing, editing, restoring, updating and removing projects;
  `config` the settings; `path` and `text` the path and string operations
  these are built on, each with its specification; `license` matches a
  license text against a store of licenses.
- `app/` does the disk, git and process work around the library: it reads
  and writes the settings, the project list and record files, loads
  templates, clones and commits repositories, and starts commands.
- `tests/` runs the library on concrete values.
