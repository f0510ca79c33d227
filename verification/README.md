# prd_reviewer

A command-line tool that fetches Product Requirement Documents from
Confluence, turns their HTML into Markdown, arranges them into a standard
PRD outline, scores them against a fourteen-section framework, and works
with Jira issues and Figma designs along the way.

## Layout

- `src/` — the library, written in Verus. Text handling (`text`,
  `pattern`), Confluence HTML and Jira wiki markup conversion (`html`,
  `jira_wiki`), the Jira/Confluence and Figma request builders, models and
  renderings (`jira`, `figma`), the PRD outline and its assessment (`prd`),
  and the files written into a project (`project_files`). Each public
  function states its result in its contract; the laws the library keeps
  are public proof functions beside the code they speak of.
- `tests/` — tests of the library on concrete values.
- `app/` — the program around the library: argument parsing (clap), the
  HTTP clients (ureq, rustls), JSON/YAML parsing and printing (serde),
  tables (comfy-table), file system work, and git/cargo for `update`.
- The texts `init` writes into a project (the notes section, agent and
  skill files) and the PRD template are in `src/templates.rs`, with holes
  for a few names (the program's command name, the coding assistant's name
  and directory, the assessor's title) that the program fills from the
  layout the installer puts in its data directory in the user's home.
