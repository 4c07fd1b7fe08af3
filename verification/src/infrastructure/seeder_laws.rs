use vstd::prelude::*;

use crate::domain::project::PackageManager;
use crate::domain::project::ResolvedOptions;
use crate::domain::project::UiChoice;
use crate::infrastructure::system_seeder::install_verb;
use crate::infrastructure::system_seeder::package_manager_name;
use crate::infrastructure::system_seeder::scaffold_args;
use crate::infrastructure::system_seeder::ui_command;

verus! {

/// Law: `ng new` is told to skip installing dependencies exactly when the
/// options ask for it, whatever the package manager and the project name:
/// after `new` and the name, `--skip-install` is among the arguments if and
/// only if `skip_install` holds, and besides it there are exactly six
/// arguments: the defaults, standalone components, routing, SCSS, no
/// server-side rendering, and the package manager.
pub proof fn law_skip_install_follows_the_option(project_name: Seq<char>, options: ResolvedOptions)
    ensures
        ({
            let args = scaffold_args(project_name, options);
            &&& args.len() == if options.skip_install { 9int } else { 8int }
            &&& args[0] == "new"@ && args[1] == project_name
            &&& (exists|i: int| 2 <= i < args.len() && args[i] == "--skip-install"@) == options.skip_install
            &&& args.contains("--package-manager="@ + package_manager_name(options.package_manager))
            &&& args.contains("--defaults"@)
            &&& args.contains("--standalone"@)
            &&& args.contains("--routing"@)
            &&& args.contains("--style=scss"@)
            &&& args.contains("--ssr=false"@)
        }),
{
    reveal_strlit("--skip-install");
    reveal_strlit("--defaults");
    reveal_strlit("--standalone");
    reveal_strlit("--routing");
    reveal_strlit("--style=scss");
    reveal_strlit("--ssr=false");
    reveal_strlit("--package-manager=");
    let args = scaffold_args(project_name, options);
    assert(args[2] == "--defaults"@);
    assert(args[3] == "--standalone"@);
    assert(args[4] == "--routing"@);
    assert(args[5] == "--style=scss"@);
    assert(args[6] == "--ssr=false"@);
    assert(args[7] == "--package-manager="@ + package_manager_name(options.package_manager));
    if options.skip_install {
        assert(args[8] == "--skip-install"@);
    } else {
        assert forall|i: int| 2 <= i < args.len() implies args[i] != "--skip-install"@ by {
            assert(args[i].len() != "--skip-install"@.len());
        }
    }
}

/// Law: npm adds packages with `install`, every other package manager (pnpm,
/// yarn, bun) with `add`; so PrimeNG, its icons and its themes are installed
/// with `npm install` or `<manager> add`, in the project directory.
pub proof fn law_only_npm_installs_with_install(package_manager: PackageManager, project_dir: Seq<char>)
    ensures
        install_verb(package_manager) == "install"@ <==> package_manager == PackageManager::Npm,
        package_manager != PackageManager::Npm ==> install_verb(package_manager) == "add"@,
        ui_command(UiChoice::Primeng, package_manager, project_dir) == Some((
            package_manager_name(package_manager),
            seq![
                if package_manager == PackageManager::Npm { "install"@ } else { "add"@ },
                "primeng"@,
                "primeicons"@,
                "@primeng/themes"@,
            ],
            Some(project_dir),
        )),
{
    reveal_strlit("install");
    reveal_strlit("add");
    assert("install"@.len() != "add"@.len());
}

} // verus!
