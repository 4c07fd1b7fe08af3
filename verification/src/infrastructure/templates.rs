use vstd::prelude::*;

use crate::domain::project::ArchitectureProfile;
use crate::text::replace_all;
use crate::text::replaced;

verus! {

// ---------------------------------------------------------------------------
// File contents
// ---------------------------------------------------------------------------

/// The greeting entity of the domain layer.
pub const GREETING_ENTITY: &'static str = r#"export interface Greeting {
  value: string;
}
"#;

/// The port through which the domain reads greetings, with its injection token.
pub const GREETING_REPOSITORY_PORT: &'static str = r#"import { InjectionToken } from '@angular/core';
import { Greeting } from '../entities/greeting.entity';

export interface GreetingRepository {
  getGreeting(): Greeting;
}

export const GREETING_REPOSITORY = new InjectionToken<GreetingRepository>('GREETING_REPOSITORY');
"#;

/// The use case that reads the greeting through the port.
pub const GET_GREETING_USE_CASE: &'static str = r#"import { Inject, Injectable } from '@angular/core';
import {
  GREETING_REPOSITORY,
  GreetingRepository,
} from '../../domain/ports/greeting-repository.port';

@Injectable({ providedIn: 'root' })
export class GetGreetingUseCase {
  constructor(
    @Inject(GREETING_REPOSITORY)
    private readonly greetingRepository: GreetingRepository,
  ) {}

  execute(): string {
    return this.greetingRepository.getGreeting().value;
  }
}
"#;

/// An adapter that answers the port with a fixed greeting.
pub const STATIC_GREETING_REPOSITORY: &'static str = r#"import { Injectable } from '@angular/core';
import { Greeting } from '../../domain/entities/greeting.entity';
import { GreetingRepository } from '../../domain/ports/greeting-repository.port';

@Injectable()
export class StaticGreetingRepository implements GreetingRepository {
  getGreeting(): Greeting {
    return { value: 'Angular project seeded with Clean Architecture' };
  }
}
"#;

/// The providers that bind the port to the adapter.
pub const GREETING_PROVIDER: &'static str = r#"import { Provider } from '@angular/core';
import { GREETING_REPOSITORY } from '../../domain/ports/greeting-repository.port';
import { StaticGreetingRepository } from '../adapters/static-greeting.repository';

export function provideGreetingRepository(): Provider[] {
  return [
    StaticGreetingRepository,
    {
      provide: GREETING_REPOSITORY,
      useExisting: StaticGreetingRepository,
    },
  ];
}
"#;

/// The facade through which the presentation layer gets the greeting.
pub const HOME_FACADE: &'static str = r#"import { Injectable, inject } from '@angular/core';
import { GetGreetingUseCase } from '../../application/use-cases/get-greeting.use-case';

@Injectable({ providedIn: 'root' })
export class HomeFacade {
  private readonly getGreetingUseCase = inject(GetGreetingUseCase);

  readonly message = this.getGreetingUseCase.execute();
}
"#;

/// The health status model of the core layer.
pub const HEALTH_STATUS_MODEL: &'static str = r#"export interface HealthStatus {
  service: string;
  status: 'ok' | 'degraded';
  checkedAt: string;
}
"#;

/// Application settings of the core layer.
pub const APP_ENVIRONMENT: &'static str = r#"export const appEnvironment = {
  appName: 'ngseed-cdp-app',
  apiBaseUrl: '/api',
};
"#;

/// A logging helper of the core layer.
pub const CDP_LOGGER: &'static str = r#"export function logInfo(message: string): void {
  console.info(`[CDP] ${message}`);
}
"#;

/// Authentication types of the core layer.
pub const AUTH_TYPES: &'static str = r#"export interface AuthUser {
  id: string;
  role: string;
}
"#;

/// A remote data source that reports the service's health.
pub const HEALTH_REMOTE_DATASOURCE: &'static str = r#"import { Injectable } from '@angular/core';
import { HealthStatus } from '../../../core/models/health-status.model';

@Injectable({ providedIn: 'root' })
export class HealthRemoteDataSource {
  getStatus(): HealthStatus {
    return {
      service: 'ngseed-cdp',
      status: 'ok',
      checkedAt: new Date().toISOString(),
    };
  }
}
"#;

/// A local data source that reads the theme preference.
pub const PREFERENCES_LOCAL_DATASOURCE: &'static str = r#"import { Injectable } from '@angular/core';

@Injectable({ providedIn: 'root' })
export class PreferencesLocalDataSource {
  private readonly key = 'ngseed:theme';

  getTheme(): string {
    return localStorage.getItem(this.key) ?? 'light';
  }
}
"#;

/// The page component that shows health and theme.
pub const HEALTH_PAGE: &'static str = r#"import { CommonModule } from '@angular/common';
import { Component, inject } from '@angular/core';
import { HealthRemoteDataSource } from '../../../data/datasource/remote/health.datasource';
import { PreferencesLocalDataSource } from '../../../data/datasource/local/preferences.datasource';

@Component({
  selector: 'app-health-page',
  standalone: true,
  imports: [CommonModule],
  templateUrl: './health.page.html',
})
export class HealthPage {
  private readonly remote = inject(HealthRemoteDataSource);
  private readonly local = inject(PreferencesLocalDataSource);

  readonly health = this.remote.getStatus();
  readonly theme = this.local.getTheme();
}
"#;

/// The markup of the health page.
pub const HEALTH_PAGE_HTML: &'static str = r#"<main class="shell">
  <h1>CDP Architecture Ready</h1>
  <p>Status: {{ health.status }} ({{ health.service }})</p>
  <p>Theme preference: {{ theme }}</p>
</main>
"#;

/// The routes of the core/data/presentation layout: the health page at the root.
pub const CDP_APP_ROUTES: &'static str = r#"import { Routes } from '@angular/router';
import { HealthPage } from './presentation/pages/health/health.page';

export const routes: Routes = [
  {
    path: '',
    component: HealthPage,
  },
];
"#;

/// The root component of the clean layout, with placeholders for its file names and class.
pub const CLEAN_APP_COMPONENT_TEMPLATE: &'static str = r#"import { Component, inject } from '@angular/core';
import { RouterOutlet } from '@angular/router';
import { HomeFacade } from './presentation/facades/home.facade';

@Component({
  selector: 'app-root',
  imports: [RouterOutlet],
  templateUrl: '__TEMPLATE_URL__',
  __STYLE_PROPERTY__: ['./app.scss'],
})
export class __COMPONENT_CLASS__ {
  private readonly homeFacade = inject(HomeFacade);
  readonly message = this.homeFacade.message;
}
"#;

/// The markup of the root component of the clean layout.
pub const CLEAN_APP_HTML: &'static str = r#"<main class="shell">
  <h1>{{ message }}</h1>
  <p>Start building features in domain/application/infrastructure/presentation.</p>
</main>
<router-outlet />
"#;

/// The root component of the core/data/presentation layout, with placeholders for its file names and class.
pub const CDP_APP_COMPONENT_TEMPLATE: &'static str = r#"import { Component } from '@angular/core';
import { RouterOutlet } from '@angular/router';

@Component({
  selector: 'app-root',
  imports: [RouterOutlet],
  templateUrl: '__TEMPLATE_URL__',
  __STYLE_PROPERTY__: ['./app.scss'],
})
export class __COMPONENT_CLASS__ {}
"#;

/// The markup of the root component of the core/data/presentation layout.
pub const CDP_APP_HTML: &'static str = r#"<router-outlet />
"#;

/// The application configuration of the clean layout: router and greeting providers.
pub const CLEAN_APP_CONFIG: &'static str = r#"import { ApplicationConfig } from '@angular/core';
import { provideRouter } from '@angular/router';

import { routes } from './app.routes';
import { provideGreetingRepository } from './infrastructure/providers/greeting.provider';

export const appConfig: ApplicationConfig = {
  providers: [provideRouter(routes), ...provideGreetingRepository()],
};
"#;

/// The application configuration of the core/data/presentation layout: the router.
pub const CDP_APP_CONFIG: &'static str = r#"import { ApplicationConfig } from '@angular/core';
import { provideRouter } from '@angular/router';

import { routes } from './app.routes';

export const appConfig: ApplicationConfig = {
  providers: [provideRouter(routes)],
};
"#;

// ---------------------------------------------------------------------------
// Template files
// ---------------------------------------------------------------------------

/// How the generated root component is named: `app.ts` by the Angular CLI
/// releases that name it so, `app.component.ts` by earlier ones.
#[derive(Debug, Clone, Copy, PartialEq, Eq, Structural)]
pub enum AppLayout {
    Standalone,
    Legacy,
}

/// The layout of an app directory: standalone when it has `app.ts`, legacy
/// otherwise.
pub fn detect_layout(has_app_ts: bool) -> (layout: AppLayout)
    ensures
        layout == (if has_app_ts { AppLayout::Standalone } else { AppLayout::Legacy }),
{
    if has_app_ts {
        AppLayout::Standalone
    } else {
        AppLayout::Legacy
    }
}

/// A file of a template: its path below `src/app` and its contents.
pub struct TemplateFile {
    pub path: String,
    pub contents: String,
}

pub open spec fn file_view(file: TemplateFile) -> (Seq<char>, Seq<char>) {
    (file.path@, file.contents@)
}

pub open spec fn files_view(files: Seq<TemplateFile>) -> Seq<(Seq<char>, Seq<char>)> {
    files.map_values(|file: TemplateFile| file_view(file))
}

pub open spec fn component_ts_path(layout: AppLayout) -> Seq<char> {
    match layout {
        AppLayout::Standalone => "app.ts"@,
        AppLayout::Legacy => "app.component.ts"@,
    }
}

pub open spec fn component_html_path(layout: AppLayout) -> Seq<char> {
    match layout {
        AppLayout::Standalone => "app.html"@,
        AppLayout::Legacy => "app.component.html"@,
    }
}

pub open spec fn component_template_url(layout: AppLayout) -> Seq<char> {
    match layout {
        AppLayout::Standalone => "./app.html"@,
        AppLayout::Legacy => "./app.component.html"@,
    }
}

pub open spec fn component_style_property(layout: AppLayout) -> Seq<char> {
    match layout {
        AppLayout::Standalone => "styleUrl"@,
        AppLayout::Legacy => "styleUrls"@,
    }
}

pub open spec fn component_class(layout: AppLayout) -> Seq<char> {
    match layout {
        AppLayout::Standalone => "App"@,
        AppLayout::Legacy => "AppComponent"@,
    }
}

/// A root component template with its placeholders filled in for `layout`.
pub open spec fn filled_component(template: Seq<char>, layout: AppLayout) -> Seq<char> {
    replaced(
        replaced(
            replaced(template, "__TEMPLATE_URL__"@, component_template_url(layout)),
            "__STYLE_PROPERTY__"@,
            component_style_property(layout),
        ),
        "__COMPONENT_CLASS__"@,
        component_class(layout),
    )
}

/// The root component of the clean layout and its markup.
pub open spec fn clean_app_component(layout: AppLayout) -> Seq<(Seq<char>, Seq<char>)> {
    seq![
        (component_ts_path(layout), filled_component(CLEAN_APP_COMPONENT_TEMPLATE@, layout)),
        (component_html_path(layout), CLEAN_APP_HTML@),
    ]
}

/// The root component of the core/data/presentation layout and its markup.
pub open spec fn cdp_app_component(layout: AppLayout) -> Seq<(Seq<char>, Seq<char>)> {
    seq![
        (component_ts_path(layout), filled_component(CDP_APP_COMPONENT_TEMPLATE@, layout)),
        (component_html_path(layout), CDP_APP_HTML@),
    ]
}

/// The files of the clean layout, in the order they are written: the
/// greeting slice through domain, application, infrastructure and
/// presentation, then the root component and the application configuration.
pub open spec fn clean_architecture(layout: AppLayout) -> Seq<(Seq<char>, Seq<char>)> {
    seq![
            ("domain/entities/greeting.entity.ts"@, GREETING_ENTITY@),
            ("domain/ports/greeting-repository.port.ts"@, GREETING_REPOSITORY_PORT@),
            ("application/use-cases/get-greeting.use-case.ts"@, GET_GREETING_USE_CASE@),
            ("infrastructure/adapters/static-greeting.repository.ts"@, STATIC_GREETING_REPOSITORY@),
            ("infrastructure/providers/greeting.provider.ts"@, GREETING_PROVIDER@),
            ("presentation/facades/home.facade.ts"@, HOME_FACADE@),
        ] + clean_app_component(layout) + seq![("app.config.ts"@, CLEAN_APP_CONFIG@)]
}

/// The files of the core/data/presentation layout, in the order they are
/// written: core models and helpers, data sources, the health page and the
/// routes, then the root component and the application configuration.
pub open spec fn cdp_architecture(layout: AppLayout) -> Seq<(Seq<char>, Seq<char>)> {
    seq![
            ("core/models/health-status.model.ts"@, HEALTH_STATUS_MODEL@),
            ("core/environment/app-environment.ts"@, APP_ENVIRONMENT@),
            ("core/commons/logger.ts"@, CDP_LOGGER@),
            ("core/auth/auth.types.ts"@, AUTH_TYPES@),
            ("data/datasource/remote/health.datasource.ts"@, HEALTH_REMOTE_DATASOURCE@),
            ("data/datasource/local/preferences.datasource.ts"@, PREFERENCES_LOCAL_DATASOURCE@),
            ("presentation/pages/health/health.page.ts"@, HEALTH_PAGE@),
            ("presentation/pages/health/health.page.html"@, HEALTH_PAGE_HTML@),
            ("app.routes.ts"@, CDP_APP_ROUTES@),
        ] + cdp_app_component(layout) + seq![("app.config.ts"@, CDP_APP_CONFIG@)]
}

pub open spec fn architecture(profile: ArchitectureProfile, layout: AppLayout) -> Seq<(Seq<char>, Seq<char>)> {
    match profile {
        ArchitectureProfile::Clean => clean_architecture(layout),
        ArchitectureProfile::Cdp => cdp_architecture(layout),
    }
}

fn template_file(path: &str, contents: &str) -> (file: TemplateFile)
    ensures
        file_view(file) == (path@, contents@),
{
    TemplateFile { path: String::from_str(path), contents: String::from_str(contents) }
}

fn fill_component(template: &str, layout: AppLayout) -> (contents: String)
    ensures
        contents@ == filled_component(template@, layout),
{
    let (template_url, style_property, component_class) = match layout {
        AppLayout::Standalone => ("./app.html", "styleUrl", "App"),
        AppLayout::Legacy => ("./app.component.html", "styleUrls", "AppComponent"),
    };
    let with_url = replace_all(template, "__TEMPLATE_URL__", template_url);
    let with_style = replace_all(with_url.as_str(), "__STYLE_PROPERTY__", style_property);
    replace_all(with_style.as_str(), "__COMPONENT_CLASS__", component_class)
}

fn component_files(template: &str, html: &str, layout: AppLayout) -> (files: Vec<TemplateFile>)
    ensures
        files_view(files@) == seq![
            (component_ts_path(layout), filled_component(template@, layout)),
            (component_html_path(layout), html@),
        ],
{
    let (ts_path, html_path) = match layout {
        AppLayout::Standalone => ("app.ts", "app.html"),
        AppLayout::Legacy => ("app.component.ts", "app.component.html"),
    };
    let mut files: Vec<TemplateFile> = Vec::new();
    files.push(TemplateFile { path: String::from_str(ts_path), contents: fill_component(template, layout) });
    files.push(template_file(html_path, html));
    assert(files_view(files@) =~= seq![
        (component_ts_path(layout), filled_component(template@, layout)),
        (component_html_path(layout), html@),
    ]);
    files
}

/// The root component of the clean layout, which shows the greeting.
pub fn app_component_for_clean(layout: AppLayout) -> (files: Vec<TemplateFile>)
    ensures
        files_view(files@) == clean_app_component(layout),
{
    component_files(CLEAN_APP_COMPONENT_TEMPLATE, CLEAN_APP_HTML, layout)
}

/// The root component of the core/data/presentation layout, a router outlet.
pub fn app_component_for_cdp(layout: AppLayout) -> (files: Vec<TemplateFile>)
    ensures
        files_view(files@) == cdp_app_component(layout),
{
    component_files(CDP_APP_COMPONENT_TEMPLATE, CDP_APP_HTML, layout)
}

pub fn app_config_for_clean() -> (file: TemplateFile)
    ensures
        file_view(file) == ("app.config.ts"@, CLEAN_APP_CONFIG@),
{
    template_file("app.config.ts", CLEAN_APP_CONFIG)
}

pub fn app_config_for_cdp() -> (file: TemplateFile)
    ensures
        file_view(file) == ("app.config.ts"@, CDP_APP_CONFIG@),
{
    template_file("app.config.ts", CDP_APP_CONFIG)
}

fn append_files(files: &mut Vec<TemplateFile>, more: Vec<TemplateFile>)
    ensures
        files_view(final(files)@) == files_view(old(files)@) + files_view(more@),
{
    let mut more = more;
    let ghost before = files@;
    let ghost added = more@;
    files.append(&mut more);
    assert(files_view(files@) =~= files_view(before) + files_view(added));
}

/// The files of the clean architecture template.
pub fn clean_architecture_files(layout: AppLayout) -> (files: Vec<TemplateFile>)
    ensures
        files_view(files@) == clean_architecture(layout),
{
    let mut files: Vec<TemplateFile> = Vec::new();
    files.push(template_file("domain/entities/greeting.entity.ts", GREETING_ENTITY));
    files.push(template_file("domain/ports/greeting-repository.port.ts", GREETING_REPOSITORY_PORT));
    files.push(template_file("application/use-cases/get-greeting.use-case.ts", GET_GREETING_USE_CASE));
    files.push(template_file("infrastructure/adapters/static-greeting.repository.ts", STATIC_GREETING_REPOSITORY));
    files.push(template_file("infrastructure/providers/greeting.provider.ts", GREETING_PROVIDER));
    files.push(template_file("presentation/facades/home.facade.ts", HOME_FACADE));
    append_files(&mut files, app_component_for_clean(layout));
    let ghost middle = files_view(files@);
    files.push(app_config_for_clean());
    assert(files_view(files@) =~= middle.push(("app.config.ts"@, CLEAN_APP_CONFIG@)));
    assert(files_view(files@) =~= clean_architecture(layout));
    files
}

/// The files of the core/data/presentation architecture template.
pub fn cdp_architecture_files(layout: AppLayout) -> (files: Vec<TemplateFile>)
    ensures
        files_view(files@) == cdp_architecture(layout),
{
    let mut files: Vec<TemplateFile> = Vec::new();
    files.push(template_file("core/models/health-status.model.ts", HEALTH_STATUS_MODEL));
    files.push(template_file("core/environment/app-environment.ts", APP_ENVIRONMENT));
    files.push(template_file("core/commons/logger.ts", CDP_LOGGER));
    files.push(template_file("core/auth/auth.types.ts", AUTH_TYPES));
    files.push(template_file("data/datasource/remote/health.datasource.ts", HEALTH_REMOTE_DATASOURCE));
    files.push(template_file("data/datasource/local/preferences.datasource.ts", PREFERENCES_LOCAL_DATASOURCE));
    files.push(template_file("presentation/pages/health/health.page.ts", HEALTH_PAGE));
    files.push(template_file("presentation/pages/health/health.page.html", HEALTH_PAGE_HTML));
    files.push(template_file("app.routes.ts", CDP_APP_ROUTES));
    append_files(&mut files, app_component_for_cdp(layout));
    let ghost middle = files_view(files@);
    files.push(app_config_for_cdp());
    assert(files_view(files@) =~= middle.push(("app.config.ts"@, CDP_APP_CONFIG@)));
    assert(files_view(files@) =~= cdp_architecture(layout));
    files
}

/// The files an architecture profile writes below `src/app`.
pub fn architecture_files(profile: ArchitectureProfile, layout: AppLayout) -> (files: Vec<TemplateFile>)
    ensures
        files_view(files@) == architecture(profile, layout),
{
    match profile {
        ArchitectureProfile::Clean => clean_architecture_files(layout),
        ArchitectureProfile::Cdp => cdp_architecture_files(layout),
    }
}

} // verus!
