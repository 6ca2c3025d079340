//! Ruby: plain Ruby, Sinatra and Rails scaffolds, and Gemfile projects.

use vstd::prelude::*;
use crate::common::{
    creation_step, file_entry, folder_project_name, python_folder_project_name, readme_content,
    readme_text, scaffold_display, scaffold_text, write_files_step,
};
use crate::model::{CreationStep, Platform, ProjectInfo, ScriptInfo, StepView, command_step_view, find_script_command, script_command_of, script_info, script_view, sourced_script_list, sourced_scripts_view, write_step_view};
use crate::platform::{by_platform, join, join_path, pick};
use crate::text::{concat3, contains_str, contains_text, owned};

verus! {

/// Ruby's program.
pub fn ruby_bin(p: Platform) -> (r: String)
    ensures
        r@ == by_platform(p, "ruby"@, "ruby.exe"@),
{
    pick(p, "ruby", "ruby.exe")
}

/// Bundler's program.
pub fn bundle_bin(p: Platform) -> (r: String)
    ensures
        r@ == bundle_program(p),
{
    pick(p, "bundle", "bundle.bat")
}

pub open spec fn bundle_program(p: Platform) -> Seq<char> {
    by_platform(p, "bundle"@, "bundle.bat"@)
}

pub const RUBY_MAIN_SOURCE: &'static str = "puts \"Hello from Ruby\"\n";

/// The steps that create a plain Ruby project: `main.rb` and a README.
pub open spec fn ruby_basic_steps_view(
    p: Platform,
    project_name: Seq<char>,
    parent_dir: Seq<char>,
    target_dir: Seq<char>,
) -> Seq<StepView> {
    seq![
        write_step_view(
            "Create Ruby starter files"@,
            seq![
                (join_path(p, target_dir, "main.rb"@), RUBY_MAIN_SOURCE@),
                (join_path(p, target_dir, "README.md"@), readme_text(project_name)),
            ],
            parent_dir,
            scaffold_text(project_name),
        ),
    ]
}

/// The steps that create a plain Ruby project.
pub fn ruby_basic_steps(p: Platform, project_name: &str, parent_dir: &str, target_dir: &str) -> (r:
    Vec<CreationStep>)
    ensures
        r.deep_view() == ruby_basic_steps_view(p, project_name@, parent_dir@, target_dir@),
{
    let files = vec![
        file_entry(p, target_dir, "main.rb", owned(RUBY_MAIN_SOURCE)),
        file_entry(p, target_dir, "README.md", readme_content(project_name)),
    ];
    assert(files.deep_view() =~= seq![
        (join_path(p, target_dir@, "main.rb"@), RUBY_MAIN_SOURCE@),
        (join_path(p, target_dir@, "README.md"@), readme_text(project_name@)),
    ]);
    let r = vec![
        write_files_step(
            "Create Ruby starter files",
            files,
            parent_dir,
            scaffold_display(project_name),
        ),
    ];
    assert(r.deep_view() =~= ruby_basic_steps_view(p, project_name@, parent_dir@, target_dir@));
    r
}

pub const SINATRA_GEMFILE: &'static str = r#"source "https://rubygems.org"

gem "puma"
gem "sinatra"
"#;

/// The Gemfile of a Sinatra scaffold.
pub fn sinatra_gemfile() -> (r: &'static str)
    ensures
        r@ == SINATRA_GEMFILE@,
{
    SINATRA_GEMFILE
}

pub const SINATRA_APP_SOURCE: &'static str = r#"require "json"
require "sinatra"

set :bind, "0.0.0.0"
set :port, ENV.fetch("PORT", 4567)

get "/" do
  content_type :json
  { message: "Hello from Sinatra" }.to_json
end
"#;

/// The `app.rb` of a Sinatra scaffold.
pub fn sinatra_app_source() -> (r: &'static str)
    ensures
        r@ == SINATRA_APP_SOURCE@,
{
    SINATRA_APP_SOURCE
}

pub const SINATRA_CONFIG_RU: &'static str = "require_relative \"app\"\nrun Sinatra::Application\n";

/// The step that installs a scaffold's gems into `vendor/bundle`.
pub open spec fn bundle_install_view(p: Platform, label: Seq<char>, target_dir: Seq<char>) -> StepView {
    command_step_view(
        label,
        bundle_program(p),
        seq!["install"@, "--path"@, "vendor/bundle"@],
        target_dir,
        None,
    )
}

fn bundle_install_step(p: Platform, label: &str, target_dir: &str) -> (r: CreationStep)
    ensures
        r.deep_view() == bundle_install_view(p, label@, target_dir@),
{
    let args = vec!["install", "--path", "vendor/bundle"];
    assert(args.deep_view() =~= seq!["install"@, "--path"@, "vendor/bundle"@]);
    creation_step(label, bundle_bin(p), args, target_dir)
}

/// The steps that create a Sinatra project.
pub open spec fn sinatra_steps_view(
    p: Platform,
    project_name: Seq<char>,
    parent_dir: Seq<char>,
    target_dir: Seq<char>,
) -> Seq<StepView> {
    seq![
        write_step_view(
            "Create Sinatra starter files"@,
            seq![
                (join_path(p, target_dir, "Gemfile"@), SINATRA_GEMFILE@),
                (join_path(p, target_dir, "app.rb"@), SINATRA_APP_SOURCE@),
                (join_path(p, target_dir, "config.ru"@), SINATRA_CONFIG_RU@),
                (join_path(p, target_dir, "README.md"@), readme_text(project_name)),
            ],
            parent_dir,
            scaffold_text(project_name),
        ),
        bundle_install_view(p, "Install Ruby dependencies"@, target_dir),
    ]
}

/// The steps that create a Sinatra project: its files, then its gems.
pub fn sinatra_steps(p: Platform, project_name: &str, parent_dir: &str, target_dir: &str) -> (r: Vec<
    CreationStep,
>)
    ensures
        r.deep_view() == sinatra_steps_view(p, project_name@, parent_dir@, target_dir@),
{
    let files = vec![
        file_entry(p, target_dir, "Gemfile", owned(sinatra_gemfile())),
        file_entry(p, target_dir, "app.rb", owned(sinatra_app_source())),
        file_entry(p, target_dir, "config.ru", owned(SINATRA_CONFIG_RU)),
        file_entry(p, target_dir, "README.md", readme_content(project_name)),
    ];
    assert(files.deep_view() =~= seq![
        (join_path(p, target_dir@, "Gemfile"@), SINATRA_GEMFILE@),
        (join_path(p, target_dir@, "app.rb"@), SINATRA_APP_SOURCE@),
        (join_path(p, target_dir@, "config.ru"@), SINATRA_CONFIG_RU@),
        (join_path(p, target_dir@, "README.md"@), readme_text(project_name@)),
    ]);
    let r = vec![
        write_files_step(
            "Create Sinatra starter files",
            files,
            parent_dir,
            scaffold_display(project_name),
        ),
        bundle_install_step(p, "Install Ruby dependencies", target_dir),
    ];
    assert(r.deep_view() =~= sinatra_steps_view(p, project_name@, parent_dir@, target_dir@));
    r
}

pub const RAILS_GEMFILE: &'static str = r#"source "https://rubygems.org"

gem "rails", "~> 6.1.7"
gem "puma", "~> 5.6"
"#;

pub const RAILS_BOOT_SOURCE: &'static str = r#"ENV["BUNDLE_GEMFILE"] ||= File.expand_path("../Gemfile", __dir__)

require "bundler/setup"
"#;

pub const RAILS_APPLICATION_SOURCE: &'static str = r#"require_relative "boot"

require "logger"
require "rails"
require "active_model/railtie"
require "action_controller/railtie"
require "rails/test_unit/railtie"

Bundler.require(*Rails.groups)

module ProlaunchApp
  class Application < Rails::Application
    config.load_defaults 6.1
    config.api_only = true
    config.require_master_key = false
  end
end
"#;

pub const RAILS_ENVIRONMENT_SOURCE: &'static str = r#"require_relative "application"

Rails.application.initialize!
"#;

pub const RAILS_DEVELOPMENT_SOURCE: &'static str = r#"Rails.application.configure do
  config.cache_classes = false
  config.eager_load = false
  config.consider_all_requests_local = true
end
"#;

pub const RAILS_TEST_SOURCE: &'static str = r#"Rails.application.configure do
  config.cache_classes = true
  config.eager_load = false
  config.public_file_server.enabled = true
  config.consider_all_requests_local = true
end
"#;

pub const RAILS_ROUTES_SOURCE: &'static str = r#"Rails.application.routes.draw do
  root "home#index"
end
"#;

pub const RAILS_CONFIG_RU_SOURCE: &'static str = r#"require_relative "config/environment"

run Rails.application
Rails.application.load_server
"#;

pub const RAILS_PUMA_SOURCE: &'static str = r#"port ENV.fetch("PORT", 3000)
environment ENV.fetch("RAILS_ENV", "development")
"#;

pub const RAILS_APPLICATION_CONTROLLER_SOURCE: &'static str = r#"class ApplicationController < ActionController::API
end
"#;

pub const RAILS_HOME_CONTROLLER_SOURCE: &'static str = r#"class HomeController < ApplicationController
  def index
    render json: { message: "Hello from Rails" }
  end
end
"#;

pub const RAILS_BIN_SOURCE: &'static str = r#"#!/usr/bin/env ruby

APP_PATH = File.expand_path("../config/application", __dir__)
require_relative "../config/boot"
require "rails/commands"
"#;

/// The Gemfile of a Rails scaffold.
pub fn rails_gemfile() -> (r: &'static str)
    ensures
        r@ == RAILS_GEMFILE@,
{
    RAILS_GEMFILE
}

/// `config/boot.rb` of a Rails scaffold.
pub fn rails_boot_source() -> (r: &'static str)
    ensures
        r@ == RAILS_BOOT_SOURCE@,
{
    RAILS_BOOT_SOURCE
}

/// `config/application.rb` of a Rails scaffold.
pub fn rails_application_source() -> (r: &'static str)
    ensures
        r@ == RAILS_APPLICATION_SOURCE@,
{
    RAILS_APPLICATION_SOURCE
}

/// `config/environment.rb` of a Rails scaffold.
pub fn rails_environment_source() -> (r: &'static str)
    ensures
        r@ == RAILS_ENVIRONMENT_SOURCE@,
{
    RAILS_ENVIRONMENT_SOURCE
}

/// `config/environments/development.rb` of a Rails scaffold.
pub fn rails_development_source() -> (r: &'static str)
    ensures
        r@ == RAILS_DEVELOPMENT_SOURCE@,
{
    RAILS_DEVELOPMENT_SOURCE
}

/// `config/environments/test.rb` of a Rails scaffold.
pub fn rails_test_source() -> (r: &'static str)
    ensures
        r@ == RAILS_TEST_SOURCE@,
{
    RAILS_TEST_SOURCE
}

/// `config/routes.rb` of a Rails scaffold.
pub fn rails_routes_source() -> (r: &'static str)
    ensures
        r@ == RAILS_ROUTES_SOURCE@,
{
    RAILS_ROUTES_SOURCE
}

/// `config.ru` of a Rails scaffold.
pub fn rails_config_ru_source() -> (r: &'static str)
    ensures
        r@ == RAILS_CONFIG_RU_SOURCE@,
{
    RAILS_CONFIG_RU_SOURCE
}

/// `config/puma.rb` of a Rails scaffold.
pub fn rails_puma_source() -> (r: &'static str)
    ensures
        r@ == RAILS_PUMA_SOURCE@,
{
    RAILS_PUMA_SOURCE
}

/// `app/controllers/application_controller.rb` of a Rails scaffold.
pub fn rails_application_controller_source() -> (r: &'static str)
    ensures
        r@ == RAILS_APPLICATION_CONTROLLER_SOURCE@,
{
    RAILS_APPLICATION_CONTROLLER_SOURCE
}

/// `app/controllers/home_controller.rb` of a Rails scaffold.
pub fn rails_home_controller_source() -> (r: &'static str)
    ensures
        r@ == RAILS_HOME_CONTROLLER_SOURCE@,
{
    RAILS_HOME_CONTROLLER_SOURCE
}

/// `bin/rails` of a Rails scaffold.
pub fn rails_bin_source() -> (r: &'static str)
    ensures
        r@ == RAILS_BIN_SOURCE@,
{
    RAILS_BIN_SOURCE
}

/// The path of `a/b` under `dir`, joined one component at a time.
pub open spec fn join2(p: Platform, dir: Seq<char>, a: Seq<char>, b: Seq<char>) -> Seq<char> {
    join_path(p, join_path(p, dir, a), b)
}

/// The path of `a/b/c` under `dir`, joined one component at a time.
pub open spec fn join3(p: Platform, dir: Seq<char>, a: Seq<char>, b: Seq<char>, c: Seq<char>) -> Seq<
    char,
> {
    join_path(p, join_path(p, join_path(p, dir, a), b), c)
}

fn file_at2(p: Platform, dir: &str, a: &str, b: &str, content: &str) -> (r: (String, String))
    ensures
        r.0@ == join2(p, dir@, a@, b@),
        r.1@ == content@,
{
    let d = join(p, dir, a);
    (join(p, d.as_str(), b), owned(content))
}

fn file_at3(p: Platform, dir: &str, a: &str, b: &str, c: &str, content: &str) -> (r: (
    String,
    String,
))
    ensures
        r.0@ == join3(p, dir@, a@, b@, c@),
        r.1@ == content@,
{
    let d = join(p, dir, a);
    let e = join(p, d.as_str(), b);
    (join(p, e.as_str(), c), owned(content))
}

/// The files of a Rails scaffold.
pub open spec fn rails_files_view(p: Platform, target_dir: Seq<char>, project_name: Seq<char>) -> Seq<
    (Seq<char>, Seq<char>),
> {
    let t = target_dir;
    seq![
        (join_path(p, t, "Gemfile"@), RAILS_GEMFILE@),
        (join2(p, t, "config"@, "boot.rb"@), RAILS_BOOT_SOURCE@),
        (join2(p, t, "config"@, "application.rb"@), RAILS_APPLICATION_SOURCE@),
        (join2(p, t, "config"@, "environment.rb"@), RAILS_ENVIRONMENT_SOURCE@),
        (join3(p, t, "config"@, "environments"@, "development.rb"@), RAILS_DEVELOPMENT_SOURCE@),
        (join3(p, t, "config"@, "environments"@, "test.rb"@), RAILS_TEST_SOURCE@),
        (join2(p, t, "config"@, "routes.rb"@), RAILS_ROUTES_SOURCE@),
        (join2(p, t, "config"@, "puma.rb"@), RAILS_PUMA_SOURCE@),
        (join_path(p, t, "config.ru"@), RAILS_CONFIG_RU_SOURCE@),
        (
            join3(p, t, "app"@, "controllers"@, "application_controller.rb"@),
            RAILS_APPLICATION_CONTROLLER_SOURCE@,
        ),
        (join3(p, t, "app"@, "controllers"@, "home_controller.rb"@), RAILS_HOME_CONTROLLER_SOURCE@),
        (join2(p, t, "bin"@, "rails"@), RAILS_BIN_SOURCE@),
        (join_path(p, t, "README.md"@), readme_text(project_name)),
    ]
}

/// The steps that create a Rails project.
pub open spec fn rails_steps_view(
    p: Platform,
    project_name: Seq<char>,
    parent_dir: Seq<char>,
    target_dir: Seq<char>,
) -> Seq<StepView> {
    seq![
        write_step_view(
            "Create Rails starter files"@,
            rails_files_view(p, target_dir, project_name),
            parent_dir,
            scaffold_text(project_name),
        ),
        bundle_install_view(p, "Install Rails dependencies"@, target_dir),
    ]
}

/// The steps that create a Rails project: an API-only application's files,
/// then its gems.
pub fn rails_steps(p: Platform, project_name: &str, parent_dir: &str, target_dir: &str) -> (r: Vec<
    CreationStep,
>)
    ensures
        r.deep_view() == rails_steps_view(p, project_name@, parent_dir@, target_dir@),
{
    let t = target_dir;
    let files = vec![
        file_entry(p, t, "Gemfile", owned(rails_gemfile())),
        file_at2(p, t, "config", "boot.rb", rails_boot_source()),
        file_at2(p, t, "config", "application.rb", rails_application_source()),
        file_at2(p, t, "config", "environment.rb", rails_environment_source()),
        file_at3(p, t, "config", "environments", "development.rb", rails_development_source()),
        file_at3(p, t, "config", "environments", "test.rb", rails_test_source()),
        file_at2(p, t, "config", "routes.rb", rails_routes_source()),
        file_at2(p, t, "config", "puma.rb", rails_puma_source()),
        file_entry(p, t, "config.ru", owned(rails_config_ru_source())),
        file_at3(
            p,
            t,
            "app",
            "controllers",
            "application_controller.rb",
            rails_application_controller_source(),
        ),
        file_at3(p, t, "app", "controllers", "home_controller.rb", rails_home_controller_source()),
        file_at2(p, t, "bin", "rails", rails_bin_source()),
        file_entry(p, t, "README.md", readme_content(project_name)),
    ];
    assert(files.deep_view() =~= rails_files_view(p, target_dir@, project_name@));
    let r = vec![
        write_files_step(
            "Create Rails starter files",
            files,
            parent_dir,
            scaffold_display(project_name),
        ),
        bundle_install_step(p, "Install Rails dependencies", target_dir),
    ];
    assert(r.deep_view() =~= rails_steps_view(p, project_name@, parent_dir@, target_dir@));
    r
}

/// The script of a folder with a `main.rb`.
pub fn ruby_main_script() -> (r: ScriptInfo)
    ensures
        r.deep_view() == script_view("start"@, "ruby main.rb"@, "ruby"@, "main.rb"@),
{
    script_info("start", "ruby main.rb", "ruby", "main.rb")
}

/// Which of the files that tell Ruby projects apart a project folder holds,
/// and the text of `config/application.rb` (empty when it could not be read).
pub struct RubyProjectFiles {
    pub has_config_application: bool,
    pub has_bin_rails: bool,
    pub has_app_rb: bool,
    pub has_main_rb: bool,
    pub application_rb: String,
}

/// A Rails project has `config/application.rb` or `bin/rails`, or a Gemfile
/// that names rails.
pub open spec fn rails_project(files: &RubyProjectFiles, gemfile: Seq<char>) -> bool {
    files.has_config_application || files.has_bin_rails || contains_text(gemfile, "rails"@)
}

/// Whether a project is a Rails project.
pub fn is_rails_project(files: &RubyProjectFiles, gemfile: &str) -> (r: bool)
    ensures
        r == rails_project(files, gemfile@),
{
    files.has_config_application || files.has_bin_rails || contains_str(gemfile, "rails")
}

/// A Sinatra project has an `app.rb` or a Gemfile that names sinatra.
pub open spec fn sinatra_project(files: &RubyProjectFiles, gemfile: Seq<char>) -> bool {
    files.has_app_rb || contains_text(gemfile, "sinatra"@)
}

/// Whether a project is a Sinatra project.
pub fn is_sinatra_project(files: &RubyProjectFiles, gemfile: &str) -> (r: bool)
    ensures
        r == sinatra_project(files, gemfile@),
{
    files.has_app_rb || contains_str(gemfile, "sinatra")
}

/// A Rails project uses Active Record when its application loads it or its
/// Gemfile names a database adapter.
pub open spec fn uses_active_record(application: Seq<char>, gemfile: Seq<char>) -> bool {
    contains_text(application, "rails/all"@) || contains_text(application, "active_record/railtie"@)
        || contains_text(gemfile, "sqlite3"@) || contains_text(gemfile, "pg"@) || contains_text(
        gemfile,
        "mysql2"@,
    )
}

/// Whether a Rails project uses Active Record.
pub fn rails_uses_active_record(application: &str, gemfile: &str) -> (r: bool)
    ensures
        r == uses_active_record(application@, gemfile@),
{
    contains_str(application, "rails/all") || contains_str(application, "active_record/railtie")
        || contains_str(gemfile, "sqlite3") || contains_str(gemfile, "pg") || contains_str(
        gemfile,
        "mysql2",
    )
}

pub open spec fn rails_command(task: Seq<char>) -> Seq<char> {
    "bundle exec ruby -rlogger bin/rails "@ + task
}

/// The scripts of a Ruby project, as `(name, command, source)`: with a
/// Gemfile, the Rails commands (and migrations when it uses Active Record),
/// or Sinatra's run, or `main.rb`'s run, then installing the bundle; without
/// one, `main.rb`'s run when there is one.
pub open spec fn ruby_script_items(files: &RubyProjectFiles, gemfile: Option<Seq<char>>) -> Seq<
    (Seq<char>, Seq<char>, Seq<char>),
> {
    let main = seq![("start"@, "ruby main.rb"@, "main.rb"@)];
    match gemfile {
        Some(content) => {
            let kind = if rails_project(files, content) {
                let rails = seq![
                    ("dev"@, rails_command("server"@), "Gemfile"@),
                    ("start"@, rails_command("server"@), "Gemfile"@),
                    ("console"@, rails_command("console"@), "Gemfile"@),
                    ("test"@, rails_command("test"@), "Gemfile"@),
                    ("routes"@, rails_command("routes"@), "Gemfile"@),
                ];
                if uses_active_record(files.application_rb@, content) {
                    rails.push(("db-migrate"@, rails_command("db:migrate"@), "Gemfile"@))
                } else {
                    rails
                }
            } else if sinatra_project(files, content) {
                seq![
                    ("dev"@, "bundle exec ruby app.rb"@, "Gemfile"@),
                    ("start"@, "bundle exec ruby app.rb"@, "Gemfile"@),
                ]
            } else if files.has_main_rb {
                main
            } else {
                Seq::empty()
            };
            kind.push(("bundle-install"@, "bundle install --path vendor/bundle"@, "Gemfile"@))
        },
        None => if files.has_main_rb {
            main
        } else {
            Seq::empty()
        },
    }
}

/// The scripts of a Ruby project.
pub fn ruby_scripts(files: &RubyProjectFiles, gemfile: Option<&str>) -> (r: Vec<ScriptInfo>)
    ensures
        r.deep_view() == sourced_scripts_view(
            ruby_script_items(
                files,
                match gemfile {
                    Some(c) => Some(c@),
                    None => None,
                },
            ),
            "ruby"@,
        ),
{
    let mut scripts: Vec<(&str, &str, &str)> = Vec::new();
    match gemfile {
        Some(content) => {
            if is_rails_project(files, content) {
                scripts.push(("dev", "bundle exec ruby -rlogger bin/rails server", "Gemfile"));
                scripts.push(("start", "bundle exec ruby -rlogger bin/rails server", "Gemfile"));
                scripts.push(("console", "bundle exec ruby -rlogger bin/rails console", "Gemfile"));
                scripts.push(("test", "bundle exec ruby -rlogger bin/rails test", "Gemfile"));
                scripts.push(("routes", "bundle exec ruby -rlogger bin/rails routes", "Gemfile"));
                if rails_uses_active_record(files.application_rb.as_str(), content) {
                    scripts.push(
                        ("db-migrate", "bundle exec ruby -rlogger bin/rails db:migrate", "Gemfile"),
                    );
                }
            } else if is_sinatra_project(files, content) {
                scripts.push(("dev", "bundle exec ruby app.rb", "Gemfile"));
                scripts.push(("start", "bundle exec ruby app.rb", "Gemfile"));
            } else if files.has_main_rb {
                scripts.push(("start", "ruby main.rb", "main.rb"));
            }
            scripts.push(("bundle-install", "bundle install --path vendor/bundle", "Gemfile"));
        },
        None => {
            if files.has_main_rb {
                scripts.push(("start", "ruby main.rb", "main.rb"));
            }
        },
    }
    proof {
        reveal_strlit("bundle exec ruby -rlogger bin/rails server");
        reveal_strlit("bundle exec ruby -rlogger bin/rails console");
        reveal_strlit("bundle exec ruby -rlogger bin/rails test");
        reveal_strlit("bundle exec ruby -rlogger bin/rails routes");
        reveal_strlit("bundle exec ruby -rlogger bin/rails db:migrate");
        reveal_strlit("bundle exec ruby -rlogger bin/rails ");
        reveal_strlit("server");
        reveal_strlit("console");
        reveal_strlit("test");
        reveal_strlit("routes");
        reveal_strlit("db:migrate");
        assert(rails_command("server"@) =~= "bundle exec ruby -rlogger bin/rails server"@);
        assert(rails_command("console"@) =~= "bundle exec ruby -rlogger bin/rails console"@);
        assert(rails_command("test"@) =~= "bundle exec ruby -rlogger bin/rails test"@);
        assert(rails_command("routes"@) =~= "bundle exec ruby -rlogger bin/rails routes"@);
        assert(rails_command("db:migrate"@) =~= "bundle exec ruby -rlogger bin/rails db:migrate"@);
        assert(scripts.deep_view() =~= ruby_script_items(
            files,
            match gemfile {
                Some(c) => Some(c@),
                None => None,
            },
        ));
    }
    sourced_script_list(scripts, "ruby")
}

/// A Ruby project read from the text of its Gemfile; it is named after its
/// folder.
pub fn read_ruby_project(
    project_path: String,
    p: Platform,
    project_dir: &str,
    content: &str,
    files: &RubyProjectFiles,
) -> (r: ProjectInfo)
    ensures
        r.name@ == folder_project_name(p, project_dir@),
        r.path@ == project_path@,
        r.scripts.deep_view() == sourced_scripts_view(
            ruby_script_items(files, Some(content@)),
            "ruby"@,
        ),
        r.package_manager@ == "ruby"@,
{
    ProjectInfo {
        name: python_folder_project_name(p, project_dir),
        path: project_path,
        scripts: ruby_scripts(files, Some(content)),
        package_manager: owned("ruby"),
    }
}

/// The command line of a Ruby project's script, or why there is none.
pub fn ruby_script_command_line(
    files: &RubyProjectFiles,
    gemfile: Option<&str>,
    script_name: &str,
) -> (r: Result<String, String>)
    ensures
        match script_command_of(
            sourced_scripts_view(
                ruby_script_items(
                    files,
                    match gemfile {
                        Some(c) => Some(c@),
                        None => None,
                    },
                ),
                "ruby"@,
            ),
            script_name@,
        ) {
            Some(c) => r matches Ok(s) && s@ == c,
            None => r matches Err(e) && e@ == "Ruby script '"@ + script_name@ + "' was not found"@,
        },
{
    let scripts = ruby_scripts(files, gemfile);
    match find_script_command(&scripts, script_name) {
        Some(c) => Ok(c),
        None => Err(concat3("Ruby script '", script_name, "' was not found")),
    }
}

} // verus!
