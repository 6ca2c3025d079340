//! Python: interpreter candidates and their health checks, scaffolds, and
//! `pyproject.toml` projects.

use vstd::prelude::*;
use crate::common::{creation_step_with_display, folder_project_name, python_folder_project_name};
use crate::docs::{TomlValue, parse_toml, toml_document, toml_get, toml_member, toml_text};
use crate::model::{
    CreationStep, Platform, ProjectInfo, ScriptInfo, ScriptView, StepView, ToolCommand, ToolView,
    command_step_view, find_script_command, script_command_of, script_info, script_view, strings,
};
use crate::platform::{command_words, join, join_path, join_words, tool_args, tool_args_owned, tool_command_line};
use crate::text::{
    chars_of, concat, concat3, filter_map_seq, join_sep, join_strings, lemma_filter_map_step,
    lemma_take_all, owned, starts_with, starts_with_str, str_eq, string_of_range,
};

verus! {

/// A program with no fixed arguments.
fn plain_tool(program: &str) -> (r: ToolCommand)
    ensures
        r.deep_view() == (ToolView { program: program@, args: Seq::empty() }),
{
    let r = ToolCommand { program: owned(program), args: Vec::new() };
    assert(r.deep_view().args =~= Seq::<Seq<char>>::empty());
    r
}

/// The Python interpreters to try, in order: the `py -3` launcher, `python`
/// and `python3` on Windows; elsewhere `python3.13` down to `python3.10`,
/// `python3`, `/usr/bin/python3` and `python`.
pub open spec fn python_candidates_view(p: Platform) -> Seq<ToolView> {
    match p {
        Platform::Windows => seq![
            ToolView { program: "py"@, args: seq!["-3"@] },
            ToolView { program: "python"@, args: Seq::empty() },
            ToolView { program: "python3"@, args: Seq::empty() },
        ],
        Platform::Unix => seq![
            ToolView { program: "python3.13"@, args: Seq::empty() },
            ToolView { program: "python3.12"@, args: Seq::empty() },
            ToolView { program: "python3.11"@, args: Seq::empty() },
            ToolView { program: "python3.10"@, args: Seq::empty() },
            ToolView { program: "python3"@, args: Seq::empty() },
            ToolView { program: "/usr/bin/python3"@, args: Seq::empty() },
            ToolView { program: "python"@, args: Seq::empty() },
        ],
    }
}

/// The Python interpreters to try, in order.
pub fn python_candidates(p: Platform) -> (r: Vec<ToolCommand>)
    ensures
        r.deep_view() == python_candidates_view(p),
{
    match p {
        Platform::Windows => {
            let py = ToolCommand { program: owned("py"), args: vec![owned("-3")] };
            assert(py.deep_view().args =~= seq!["-3"@]);
            let r = vec![py, plain_tool("python"), plain_tool("python3")];
            assert(r.deep_view() =~= python_candidates_view(p));
            r
        },
        Platform::Unix => {
            let r = vec![
                plain_tool("python3.13"),
                plain_tool("python3.12"),
                plain_tool("python3.11"),
                plain_tool("python3.10"),
                plain_tool("python3"),
                plain_tool("/usr/bin/python3"),
                plain_tool("python"),
            ];
            assert(r.deep_view() =~= python_candidates_view(p));
            r
        },
    }
}

/// The interpreter of a project's virtual environment.
pub open spec fn venv_python_path(p: Platform, project_dir: Seq<char>) -> Seq<char> {
    match p {
        Platform::Windows => join_path(
            p,
            join_path(p, join_path(p, project_dir, ".venv"@), "Scripts"@),
            "python.exe"@,
        ),
        Platform::Unix => join_path(
            p,
            join_path(p, join_path(p, project_dir, ".venv"@), "bin"@),
            "python"@,
        ),
    }
}

/// The interpreter of a project's virtual environment.
pub fn python_venv_python_path(p: Platform, project_dir: &str) -> (r: String)
    ensures
        r@ == venv_python_path(p, project_dir@),
{
    let venv = join(p, project_dir, ".venv");
    match p {
        Platform::Windows => {
            let d = join(p, venv.as_str(), "Scripts");
            join(p, d.as_str(), "python.exe")
        },
        Platform::Unix => {
            let d = join(p, venv.as_str(), "bin");
            join(p, d.as_str(), "python")
        },
    }
}

/// One command of a Python health check: the program, its arguments, and
/// the folder it runs in when it needs one.
pub struct HealthCommand {
    pub program: String,
    pub args: Vec<String>,
    pub cwd: Option<String>,
}

pub open spec fn health_view(
    program: Seq<char>,
    args: Seq<Seq<char>>,
    cwd: Option<Seq<char>>,
) -> (Seq<char>, Seq<Seq<char>>, Option<Seq<char>>) {
    (program, args, cwd)
}

/// The commands that check a Python interpreter, in order: its version; that
/// its standard library has `expat` and `venv`; then, in a scratch folder,
/// that it makes a virtual environment whose interpreter runs pip and
/// imports `expat` and pip. The version is the first line of the first
/// command's output.
pub open spec fn python_health_view(p: Platform, candidate: ToolView, temp_dir: Seq<char>) -> Seq<
    (Seq<char>, Seq<Seq<char>>, Option<Seq<char>>),
> {
    let venv_python = venv_python_path(p, temp_dir);
    seq![
        health_view(candidate.program, candidate.args + seq!["--version"@], None),
        health_view(
            candidate.program,
            candidate.args + seq![
                "-c"@,
                "from xml.parsers import expat; import venv; print('stdlib ok')"@,
            ],
            None,
        ),
        health_view(
            candidate.program,
            candidate.args + seq!["-m"@, "venv"@, ".venv"@],
            Some(temp_dir),
        ),
        health_view(venv_python, seq!["-m"@, "pip"@, "--version"@], Some(temp_dir)),
        health_view(
            venv_python,
            seq!["-c"@, "from xml.parsers import expat; import pip; print('pip ok')"@],
            Some(temp_dir),
        ),
    ]
}

/// The commands that check a Python interpreter.
pub fn python_health_commands(p: Platform, candidate: &ToolCommand, temp_dir: &str) -> (r: Vec<
    HealthCommand,
>)
    ensures
        r@.map_values(
            |h: HealthCommand| health_view(h.program@, h.args.deep_view(), h.cwd.deep_view()),
        ) == python_health_view(p, candidate.deep_view(), temp_dir@),
{
    let venv_python = python_venv_python_path(p, temp_dir);
    let version = HealthCommand {
        program: candidate.program.clone(),
        args: tool_args(candidate, &["--version"]),
        cwd: None,
    };
    let stdlib = HealthCommand {
        program: candidate.program.clone(),
        args: tool_args(
            candidate,
            &["-c", "from xml.parsers import expat; import venv; print('stdlib ok')"],
        ),
        cwd: None,
    };
    let venv = HealthCommand {
        program: candidate.program.clone(),
        args: tool_args(candidate, &["-m", "venv", ".venv"]),
        cwd: Some(owned(temp_dir)),
    };
    let pip = HealthCommand {
        program: venv_python.clone(),
        args: strings(&["-m", "pip", "--version"]),
        cwd: Some(owned(temp_dir)),
    };
    let imports = HealthCommand {
        program: venv_python,
        args: strings(&["-c", "from xml.parsers import expat; import pip; print('pip ok')"]),
        cwd: Some(owned(temp_dir)),
    };
    assert(version.args.deep_view() =~= candidate.args.deep_view() + seq!["--version"@]);
    assert(stdlib.args.deep_view() =~= candidate.args.deep_view() + seq![
        "-c"@,
        "from xml.parsers import expat; import venv; print('stdlib ok')"@,
    ]);
    assert(venv.args.deep_view() =~= candidate.args.deep_view() + seq!["-m"@, "venv"@, ".venv"@]);
    assert(pip.args.deep_view() =~= seq!["-m"@, "pip"@, "--version"@]);
    assert(imports.args.deep_view() =~= seq![
        "-c"@,
        "from xml.parsers import expat; import pip; print('pip ok')"@,
    ]);
    let r = vec![version, stdlib, venv, pip, imports];
    assert(r@.map_values(
        |h: HealthCommand| health_view(h.program@, h.args.deep_view(), h.cwd.deep_view()),
    ) =~= python_health_view(p, candidate.deep_view(), temp_dir@));
    r
}

/// The error when no candidate passed its health check: each candidate's
/// program and what went wrong, one per line.
pub open spec fn python_missing_text(failures: Seq<(Seq<char>, Seq<char>)>) -> Seq<char> {
    "A working Python with venv and pip is required for this template but was not found.\n"@
        + join_sep(failures.map_values(|f: (Seq<char>, Seq<char>)| f.0 + ": "@ + f.1), "\n"@)
}

/// The error when no candidate passed its health check.
pub fn python_missing_error(failures: &Vec<(String, String)>) -> (r: String)
    ensures
        r@ == python_missing_text(failures.deep_view()),
{
    let mut lines: Vec<String> = Vec::new();
    let mut i: usize = 0;
    while i < failures.len()
        invariant
            i <= failures@.len(),
            lines@.len() == i,
            forall|k: int|
                0 <= k < i ==> #[trigger] lines@[k]@ == failures@[k].0@ + ": "@ + failures@[k].1@,
        decreases failures@.len() - i,
    {
        lines.push(concat3(failures[i].0.as_str(), ": ", failures[i].1.as_str()));
        i = i + 1;
    }
    assert(lines.deep_view() =~= failures.deep_view().map_values(
        |f: (Seq<char>, Seq<char>)| f.0 + ": "@ + f.1,
    ));
    let joined = join_strings(&lines, "\n");
    concat(
        "A working Python with venv and pip is required for this template but was not found.\n",
        joined.as_str(),
    )
}

/// The Python script that writes a starter project. Its last three
/// arguments: the target folder, the project's name and the kind.
pub const PYTHON_SCAFFOLD_SCRIPT: &'static str = r###"
from pathlib import Path
import sys
import textwrap

target = Path(sys.argv[-3])
project_name = sys.argv[-2]
kind = sys.argv[-1]

if target.exists():
    print(f"Target folder already exists: {target}", file=sys.stderr)
    sys.exit(1)

target.mkdir(parents=True)

def write(relative_path, content):
    path = target / relative_path
    path.parent.mkdir(parents=True, exist_ok=True)
    path.write_text(textwrap.dedent(content).lstrip(), encoding="utf-8")

def pyproject(dependencies, scripts):
    dependency_lines = "\n".join(f'  "{dependency}",' for dependency in dependencies)
    script_lines = "\n".join(f'{name} = "{command}"' for name, command in scripts.items())
    return textwrap.dedent(f"""\
    [project]
    name = "{project_name}"
    version = "0.1.0"
    requires-python = ">=3.9"
    dependencies = [
    {dependency_lines}
    ]

    [tool.prolaunch.scripts]
    {script_lines}
    """)

def requirements(dependencies):
    return "\n".join(dependencies) + ("\n" if dependencies else "")

if kind == "fastapi":
    dependencies = ["fastapi", "uvicorn[standard]"]
    scripts = {
        "dev": "python -m uvicorn app.main:app --reload",
        "start": "python -m uvicorn app.main:app"
    }
    write("app/__init__.py", "")
    write("app/main.py", """
    from fastapi import FastAPI

    app = FastAPI()

    @app.get("/")
    def read_root():
        return {"message": "Hello from FastAPI"}
    """)
elif kind == "flask":
    dependencies = ["flask"]
    scripts = {
        "dev": "python -m flask --app app run --debug",
        "start": "python -m flask --app app run"
    }
    write("app.py", """
    from flask import Flask, jsonify

    app = Flask(__name__)

    @app.get("/")
    def home():
        return jsonify(message="Hello from Flask")
    """)
elif kind == "django":
    dependencies = ["django>=4.2,<5.0"]
    scripts = {
        "dev": "python manage.py runserver",
        "start": "python manage.py runserver",
        "migrate": "python manage.py migrate"
    }
    write("manage.py", """
    #!/usr/bin/env python
    import os
    import sys

    def main():
        os.environ.setdefault("DJANGO_SETTINGS_MODULE", "config.settings")
        from django.core.management import execute_from_command_line
        execute_from_command_line(sys.argv)

    if __name__ == "__main__":
        main()
    """)
    write("config/__init__.py", "")
    write("config/settings.py", f"""
    from pathlib import Path

    BASE_DIR = Path(__file__).resolve().parent.parent
    SECRET_KEY = "prolaunch-development-key"
    DEBUG = True
    ALLOWED_HOSTS = []

    INSTALLED_APPS = [
        "django.contrib.admin",
        "django.contrib.auth",
        "django.contrib.contenttypes",
        "django.contrib.sessions",
        "django.contrib.messages",
        "django.contrib.staticfiles",
    ]

    MIDDLEWARE = [
        "django.middleware.security.SecurityMiddleware",
        "django.contrib.sessions.middleware.SessionMiddleware",
        "django.middleware.common.CommonMiddleware",
        "django.middleware.csrf.CsrfViewMiddleware",
        "django.contrib.auth.middleware.AuthenticationMiddleware",
        "django.contrib.messages.middleware.MessageMiddleware",
        "django.middleware.clickjacking.XFrameOptionsMiddleware",
    ]

    ROOT_URLCONF = "config.urls"
    TEMPLATES = [
        {{
            "BACKEND": "django.template.backends.django.DjangoTemplates",
            "DIRS": [],
            "APP_DIRS": True,
            "OPTIONS": {{
                "context_processors": [
                    "django.template.context_processors.request",
                    "django.contrib.auth.context_processors.auth",
                    "django.contrib.messages.context_processors.messages",
                ],
            }},
        }},
    ]
    WSGI_APPLICATION = "config.wsgi.application"

    DATABASES = {{
        "default": {{
            "ENGINE": "django.db.backends.sqlite3",
            "NAME": BASE_DIR / "db.sqlite3",
        }}
    }}

    LANGUAGE_CODE = "en-us"
    TIME_ZONE = "UTC"
    USE_I18N = True
    USE_TZ = True
    STATIC_URL = "static/"
    DEFAULT_AUTO_FIELD = "django.db.models.BigAutoField"
    """)
    write("config/urls.py", """
    from django.http import JsonResponse
    from django.urls import path

    def home(_request):
        return JsonResponse({"message": "Hello from Django"})

    urlpatterns = [
        path("", home),
    ]
    """)
    write("config/asgi.py", """
    import os
    from django.core.asgi import get_asgi_application

    os.environ.setdefault("DJANGO_SETTINGS_MODULE", "config.settings")
    application = get_asgi_application()
    """)
    write("config/wsgi.py", """
    import os
    from django.core.wsgi import get_wsgi_application

    os.environ.setdefault("DJANGO_SETTINGS_MODULE", "config.settings")
    application = get_wsgi_application()
    """)
else:
    dependencies = []
    scripts = {
        "dev": "python main.py",
        "start": "python main.py"
    }
    write("main.py", """
    def main():
        print("Hello from Python")

    if __name__ == "__main__":
        main()
    """)

write("pyproject.toml", pyproject(dependencies, scripts))
write("requirements.txt", requirements(dependencies))
write("README.md", f"# {project_name}\n\nCreated with ProLaunch.\n")
print(f"{kind.title()} Python starter files created")
"###;

/// The Python script that writes a starter project.
pub fn python_scaffold_script() -> (r: &'static str)
    ensures
        r@ == PYTHON_SCAFFOLD_SCRIPT@,
{
    PYTHON_SCAFFOLD_SCRIPT
}

/// The Python script that makes a project's virtual environment, falling
/// back to one without pip that sees the system's packages.
pub const PYTHON_CREATE_VENV_SCRIPT: &'static str = r###"
from pathlib import Path
import shutil
import subprocess
import sys

venv_dir = Path(".venv")

def run(args):
    subprocess.run(args, check=True)

try:
    run([sys.executable, "-m", "venv", str(venv_dir)])
    print("Python virtual environment created")
except subprocess.CalledProcessError:
    print("Standard venv creation failed; retrying without bundled pip")
    if venv_dir.exists():
        shutil.rmtree(venv_dir)
    run([
        sys.executable,
        "-m",
        "venv",
        "--system-site-packages",
        "--without-pip",
        str(venv_dir),
    ])
    print("Python virtual environment created with system site packages")
"###;

/// The Python script that makes a project's virtual environment.
pub fn python_create_venv_script() -> (r: &'static str)
    ensures
        r@ == PYTHON_CREATE_VENV_SCRIPT@,
{
    PYTHON_CREATE_VENV_SCRIPT
}

/// The steps that create a Python project: run the scaffold script, make the
/// virtual environment, and for a framework install its requirements with the
/// environment's interpreter.
pub open spec fn python_steps_view(
    p: Platform,
    kind: Seq<char>,
    project_name: Seq<char>,
    parent_dir: Seq<char>,
    target_dir: Seq<char>,
    python: ToolView,
) -> Seq<StepView> {
    let first = seq![
        command_step_view(
            "Create Python starter files"@,
            python.program,
            python.args + seq!["-c"@, PYTHON_SCAFFOLD_SCRIPT@, target_dir, project_name, kind],
            parent_dir,
            Some("$ python <ProLaunch scaffold> "@ + project_name),
        ),
        command_step_view(
            "Create Python virtual environment"@,
            python.program,
            python.args + seq!["-c"@, PYTHON_CREATE_VENV_SCRIPT@],
            target_dir,
            Some("$ python -m venv .venv"@),
        ),
    ];
    if kind != "basic"@ {
        first.push(
            command_step_view(
                "Install Python dependencies"@,
                venv_python_path(p, target_dir),
                seq!["-m"@, "pip"@, "install"@, "-r"@, "requirements.txt"@],
                target_dir,
                Some("$ .venv python -m pip install -r requirements.txt"@),
            ),
        )
    } else {
        first
    }
}

/// The steps that create a Python project with the prepared interpreter.
pub fn python_project_steps(
    p: Platform,
    kind: &str,
    project_name: &str,
    parent_dir: &str,
    target_dir: &str,
    python: &ToolCommand,
) -> (r: Vec<CreationStep>)
    ensures
        r.deep_view() == python_steps_view(
            p,
            kind@,
            project_name@,
            parent_dir@,
            target_dir@,
            python.deep_view(),
        ),
{
    let scaffold_extra = vec![
        owned("-c"),
        owned(python_scaffold_script()),
        owned(target_dir),
        owned(project_name),
        owned(kind),
    ];
    assert(scaffold_extra.deep_view() =~= seq![
        "-c"@,
        PYTHON_SCAFFOLD_SCRIPT@,
        target_dir@,
        project_name@,
        kind@,
    ]);
    let venv_extra = vec![owned("-c"), owned(python_create_venv_script())];
    assert(venv_extra.deep_view() =~= seq!["-c"@, PYTHON_CREATE_VENV_SCRIPT@]);
    let mut steps = vec![
        creation_step_with_display(
            "Create Python starter files",
            python.program.clone(),
            tool_args_owned(python, scaffold_extra),
            parent_dir,
            concat("$ python <ProLaunch scaffold> ", project_name),
        ),
        creation_step_with_display(
            "Create Python virtual environment",
            python.program.clone(),
            tool_args_owned(python, venv_extra),
            target_dir,
            owned("$ python -m venv .venv"),
        ),
    ];
    if !str_eq(kind, "basic") {
        let venv_python = python_venv_python_path(p, target_dir);
        let args = strings(&["-m", "pip", "install", "-r", "requirements.txt"]);
        assert(args.deep_view() =~= seq!["-m"@, "pip"@, "install"@, "-r"@, "requirements.txt"@]);
        steps.push(
            creation_step_with_display(
                "Install Python dependencies",
                venv_python,
                args,
                target_dir,
                owned("$ .venv python -m pip install -r requirements.txt"),
            ),
        );
    }
    assert(steps.deep_view() =~= python_steps_view(
        p,
        kind@,
        project_name@,
        parent_dir@,
        target_dir@,
        python.deep_view(),
    ));
    steps
}

/// The `[tool.prolaunch.scripts]` table of a `pyproject.toml` document.
pub open spec fn prolaunch_scripts_table(doc: TomlValue) -> Option<TomlValue> {
    match toml_member(doc, "tool"@) {
        Some(tool) => match toml_member(tool, "prolaunch"@) {
            Some(pl) => toml_member(pl, "scripts"@),
            None => None,
        },
        None => None,
    }
}

/// The script an entry of the scripts table gives, when its value is a
/// string.
pub open spec fn python_entry_script() -> spec_fn((String, TomlValue)) -> Option<ScriptView> {
    |e: (String, TomlValue)|
        match toml_text(e.1) {
            Some(c) => Some(script_view(e.0@, c, "python"@, "pyproject.toml"@)),
            None => None,
        }
}

/// The scripts of a `pyproject.toml` document: the string entries of
/// `[tool.prolaunch.scripts]`, in order.
pub open spec fn python_scripts_view(doc: TomlValue) -> Seq<ScriptView> {
    match prolaunch_scripts_table(doc) {
        Some(TomlValue::Table(es)) => filter_map_seq(es@, python_entry_script()),
        _ => Seq::empty(),
    }
}

/// The scripts of a `pyproject.toml` document.
pub fn read_python_scripts(doc: &TomlValue) -> (r: Vec<ScriptInfo>)
    ensures
        r.deep_view() == python_scripts_view(*doc),
{
    let table = match toml_get(doc, "tool") {
        Some(tool) => match toml_get(tool, "prolaunch") {
            Some(pl) => toml_get(pl, "scripts"),
            None => None,
        },
        None => None,
    };
    let mut out: Vec<ScriptInfo> = Vec::new();
    match table {
        Some(TomlValue::Table(es)) => {
            let ghost f = python_entry_script();
            let mut i: usize = 0;
            while i < es.len()
                invariant
                    i <= es@.len(),
                    f == python_entry_script(),
                    out.deep_view() == filter_map_seq(es@.take(i as int), f),
                decreases es@.len() - i,
            {
                proof {
                    lemma_filter_map_step(es@, f, i as int);
                }
                match &es[i].1 {
                    TomlValue::Str(c) => {
                        let ghost before = out.deep_view();
                        let item = script_info(es[i].0.as_str(), c.as_str(), "python", "pyproject.toml");
                        let ghost v = item.deep_view();
                        out.push(item);
                        assert(out.deep_view() =~= before.push(v));
                    },
                    _ => {},
                }
                i = i + 1;
            }
            proof {
                lemma_take_all(es@);
            }
        },
        _ => {
            assert(out.deep_view() =~= python_scripts_view(*doc));
        },
    }
    out
}

/// The script of a folder with a `main.py`.
pub fn python_main_script() -> (r: ScriptInfo)
    ensures
        r.deep_view() == script_view("start"@, "python main.py"@, "python"@, "main.py"@),
{
    script_info("start", "python main.py", "python", "main.py")
}

/// A Python project's name: `[project] name` when it is a string, or its
/// folder's name.
pub open spec fn python_name_view(p: Platform, project_dir: Seq<char>, doc: TomlValue) -> Seq<char> {
    let name = match toml_member(doc, "project"@) {
        Some(project) => match toml_member(project, "name"@) {
            Some(TomlValue::Str(n)) => Some(n@),
            _ => None,
        },
        None => None,
    };
    match name {
        Some(n) => n,
        None => folder_project_name(p, project_dir),
    }
}

/// A Python project's name.
pub fn python_project_name(p: Platform, project_dir: &str, doc: &TomlValue) -> (r: String)
    ensures
        r@ == python_name_view(p, project_dir@, *doc),
{
    let name = match toml_get(doc, "project") {
        Some(project) => match toml_get(project, "name") {
            Some(TomlValue::Str(n)) => Some(n.clone()),
            _ => None,
        },
        None => None,
    };
    match name {
        Some(n) => n,
        None => python_folder_project_name(p, project_dir),
    }
}

/// A Python project read from the text of its `pyproject.toml`.
pub fn read_python_project(
    project_path: String,
    p: Platform,
    project_dir: &str,
    content: &str,
) -> (r: Result<ProjectInfo, String>)
    ensures
        match toml_document(content@) {
            Ok(doc) => r matches Ok(info) && info.name@ == python_name_view(p, project_dir@, doc)
                && info.path@ == project_path@ && info.scripts.deep_view() == python_scripts_view(
                doc,
            ) && info.package_manager@ == "python"@,
            Err(e) => r matches Err(m) && m@ == "Invalid pyproject.toml: "@ + e,
        },
{
    match parse_toml(content) {
        Ok(doc) => Ok(
            ProjectInfo {
                name: python_project_name(p, project_dir, &doc),
                path: project_path,
                scripts: read_python_scripts(&doc),
                package_manager: owned("python"),
            },
        ),
        Err(e) => Err(concat("Invalid pyproject.toml: ", e.as_str())),
    }
}

/// The command of a Python project's script from its parsed
/// `pyproject.toml`: the script of that name, else `python main.py` for
/// `start` when there is a `main.py`.
pub open spec fn python_command_from_doc(
    doc: TomlValue,
    main_py_exists: bool,
    script_name: Seq<char>,
) -> Result<Seq<char>, Seq<char>> {
    match script_command_of(python_scripts_view(doc), script_name) {
        Some(c) => Ok(c),
        None => if script_name == "start"@ && main_py_exists {
            Ok("python main.py"@)
        } else {
            Err("Python script '"@ + script_name + "' was not found in pyproject.toml"@)
        },
    }
}

/// The command of a Python project's script. A folder with a `main.py` and
/// no `pyproject.toml` only has `start`. Otherwise the pyproject must have
/// been read (`pyproject` holds its text, or the reading error) and parse.
pub fn python_script_command(
    pyproject_exists: bool,
    main_py_exists: bool,
    pyproject: Result<&str, &str>,
    script_name: &str,
) -> (r: Result<String, String>)
    ensures
        ({
            let expected: Result<Seq<char>, Seq<char>> = if !pyproject_exists && main_py_exists {
                if script_name@ == "start"@ {
                    Ok("python main.py"@)
                } else {
                    Err(
                        "Python script '"@ + script_name@
                            + "' was not found. main.py projects only expose the 'start' script."@,
                    )
                }
            } else {
                match pyproject {
                    Err(e) => Err("Failed to read pyproject.toml: "@ + e@),
                    Ok(c) => match toml_document(c@) {
                        Err(e) => Err("Invalid pyproject.toml: "@ + e),
                        Ok(doc) => python_command_from_doc(doc, main_py_exists, script_name@),
                    },
                }
            };
            match r {
                Ok(s) => expected == Ok::<Seq<char>, Seq<char>>(s@),
                Err(e) => expected == Err::<Seq<char>, Seq<char>>(e@),
            }
        }),
{
    if !pyproject_exists && main_py_exists {
        if str_eq(script_name, "start") {
            return Ok(owned("python main.py"));
        }
        return Err(
            concat3(
                "Python script '",
                script_name,
                "' was not found. main.py projects only expose the 'start' script.",
            ),
        );
    }
    let content = match pyproject {
        Err(e) => return Err(concat("Failed to read pyproject.toml: ", e)),
        Ok(c) => c,
    };
    let doc = match parse_toml(content) {
        Err(e) => return Err(concat("Invalid pyproject.toml: ", e.as_str())),
        Ok(d) => d,
    };
    let scripts = read_python_scripts(&doc);
    match find_script_command(&scripts, script_name) {
        Some(c) => Ok(c),
        None => if str_eq(script_name, "start") && main_py_exists {
            Ok(owned("python main.py"))
        } else {
            Err(concat3("Python script '", script_name, "' was not found in pyproject.toml"))
        },
    }
}

/// How a script's command runs with the chosen interpreter: a bare `python`
/// becomes the interpreter's quoted command line, `python <rest>` becomes
/// that line followed by the rest; other commands stay as they are.
pub open spec fn python_command_line_text(p: Platform, command: Seq<char>, python: ToolView) -> Seq<
    char,
> {
    let prefix = join_words(command_words(p, python, Seq::empty()));
    if command == "python"@ {
        prefix
    } else if starts_with(command, "python "@) {
        prefix + " "@ + command.skip(7)
    } else {
        command
    }
}

/// How a script's command runs with the chosen interpreter.
pub fn python_script_command_line(p: Platform, command: &str, python: &ToolCommand) -> (r: String)
    ensures
        r@ == python_command_line_text(p, command@, python.deep_view()),
{
    let none: Vec<String> = Vec::new();
    assert(none.deep_view() =~= Seq::<Seq<char>>::empty());
    let prefix = tool_command_line(p, python, &none);
    if str_eq(command, "python") {
        prefix
    } else if starts_with_str(command, "python ") {
        proof {
            reveal_strlit("python ");
        }
        let cs = chars_of(command);
        let rest = string_of_range(&cs, 7, cs.len());
        assert(cs@.subrange(7, cs@.len() as int) =~= cs@.skip(7));
        concat3(prefix.as_str(), " ", rest.as_str())
    } else {
        owned(command)
    }
}

} // verus!
