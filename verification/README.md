# ngseed

`ngseed` scaffolds Angular projects with the Angular CLI and shapes them into
layers: a clean architecture (domain, application, infrastructure,
presentation) or a core/data/presentation layout, optionally with Angular
Material or PrimeNG.

```bash
ngseed new my-app
ngseed new my-app --yes --ui material --package-manager pnpm
```

Flags: `--ui <material|primeng|none>`, `--package-manager <npm|pnpm|yarn|bun>`,
`--skip-install`, `--yes`. Node.js, npm and Angular CLI (`ng`) must be
installed.

## Layout

- `src/` is the library, verified with Verus:
  - `application/use_cases/new_project.rs`: the run of `ngseed new` as a state
    machine (`NewProjectFlow`) and the use case that drives it through the
    ports of `application/ports.rs`; `new_project_laws.rs` proves what every
    run of that state machine shows and asks, whatever the ports answer.
  - `infrastructure/system_seeder.rs`: the commands that are run (tool
    checks, `ng new`, package installs, UI integrations), through a
    `Recorded` runner whose ghost record of commands and outcomes the
    contracts speak of.
  - `infrastructure/templates.rs`: the files of the architecture templates;
    `template_laws.rs` proves that applying a template twice changes
    nothing.
  - `infrastructure/angular_json.rs`: adding global styles to `angular.json`,
    on a plain model of the JSON document that `serde_json` reads and writes.
  - `infrastructure/console_progress_reporter.rs`,
    `infrastructure/dialoguer_ui_selector.rs`, `interfaces/cli.rs`: what is
    shown, offered and parsed.
  - `text.rs`: string replacement and joining.
- `app/` is the command-line program: argument parsing (clap), prompts
  (dialoguer), progress display (indicatif, console), processes and files.
- `tests/` exercises the library.
