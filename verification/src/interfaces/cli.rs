use vstd::prelude::*;

use crate::domain::project::NewProjectRequest;
use crate::domain::project::PackageManager;
use crate::domain::project::UiChoice;

verus! {

/// The arguments of `ngseed new`, as the command line gave them.
pub struct NewCommand {
    pub project_name: String,
    pub ui: Option<UiChoice>,
    pub package_manager: Option<PackageManager>,
    pub skip_install: bool,
    pub yes: bool,
}

/// The subcommands of `ngseed`.
pub enum Commands {
    New(NewCommand),
}

/// A parsed command line.
pub struct Cli {
    pub command: Commands,
}

/// What the tool is asked to do.
pub enum AppCommand {
    New(NewProjectRequest),
}

/// The request a command line makes. The command line offers no styles or
/// architecture option, so those are left to the defaults and prompts.
pub fn map_cli_to_command(cli: Cli) -> (command: AppCommand)
    ensures
        ({
            let Commands::New(cmd) = cli.command;
            command == AppCommand::New(NewProjectRequest {
                project_name: cmd.project_name,
                ui: cmd.ui,
                styles: None,
                package_manager: cmd.package_manager,
                architecture: None,
                skip_install: cmd.skip_install,
                yes: cmd.yes,
            })
        }),
{
    match cli.command {
        Commands::New(cmd) => AppCommand::New(NewProjectRequest {
            project_name: cmd.project_name,
            ui: cmd.ui,
            styles: None,
            package_manager: cmd.package_manager,
            architecture: None,
            skip_install: cmd.skip_install,
            yes: cmd.yes,
        }),
    }
}

} // verus!
