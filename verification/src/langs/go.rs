//! Go: the toolchain's program, framework scaffolds, and `go.mod` projects.

use vstd::prelude::*;
use crate::common::{
    creation_step, creation_step_from_strings, file_entry, folder_project_name,
    python_folder_project_name, readme_content, readme_text, scaffold_display, scaffold_text,
    write_files_step,
};
use crate::model::{
    CreationStep, Platform, ProjectInfo, ScriptInfo, ScriptView, StepView, command_step_view,
    find_script_command, not_named, retain_not_named, script_command_of, script_list,
    scripts_view, write_step_view,
};
use crate::platform::{by_platform, extension_of, has_extension, join_path, pick};
use crate::text::{CharClass, chars_of, concat3, contains_str, contains_text, occurs_at, ends_with, ends_with_str, find_map, lemma_find_map_end, lemma_find_map_hit, lemma_find_map_skip, lemma_find_map_start, lemma_window_line, lines, lines_of, owned, starts_with, str_eq, string_of_range, trim, trim_window, window_starts_with, window_texts};

verus! {

/// The Go toolchain's program.
pub fn go_bin(p: Platform) -> (r: String)
    ensures
        r@ == go_program(p),
{
    pick(p, "go", "go.exe")
}

pub open spec fn go_program(p: Platform) -> Seq<char> {
    by_platform(p, "go"@, "go.exe"@)
}

pub const GIN_MAIN_SOURCE: &'static str = r#"package main

import "github.com/gin-gonic/gin"

func main() {
	router := gin.Default()

	router.GET("/", func(context *gin.Context) {
		context.JSON(200, gin.H{"message": "Hello from Gin"})
	})

	router.Run(":8080")
}
"#;

pub const FIBER_MAIN_SOURCE: &'static str = r#"package main

import "github.com/gofiber/fiber/v2"

func main() {
	app := fiber.New()

	app.Get("/", func(context *fiber.Ctx) error {
		return context.JSON(fiber.Map{"message": "Hello from Fiber"})
	})

	app.Listen(":3000")
}
"#;

pub const ECHO_MAIN_SOURCE: &'static str = r#"package main

import (
	"net/http"

	"github.com/labstack/echo/v4"
)

func main() {
	app := echo.New()

	app.GET("/", func(context echo.Context) error {
		return context.JSON(http.StatusOK, map[string]string{"message": "Hello from Echo"})
	})

	app.Logger.Fatal(app.Start(":1323"))
}
"#;

pub const CHI_MAIN_SOURCE: &'static str = r#"package main

import (
	"encoding/json"
	"net/http"

	"github.com/go-chi/chi/v5"
)

func main() {
	router := chi.NewRouter()

	router.Get("/", func(writer http.ResponseWriter, request *http.Request) {
		writer.Header().Set("Content-Type", "application/json")
		json.NewEncoder(writer).Encode(map[string]string{"message": "Hello from Chi"})
	})

	http.ListenAndServe(":3000", router)
}
"#;

pub const BASIC_MAIN_SOURCE: &'static str = r#"package main

import "fmt"

func main() {
	fmt.Println("Hello from Go")
}
"#;

/// The `main.go` of a scaffold of the given kind.
pub open spec fn go_source(kind: Seq<char>) -> Seq<char> {
    if kind == "gin"@ {
        GIN_MAIN_SOURCE@
    } else if kind == "fiber"@ {
        FIBER_MAIN_SOURCE@
    } else if kind == "echo"@ {
        ECHO_MAIN_SOURCE@
    } else if kind == "chi"@ {
        CHI_MAIN_SOURCE@
    } else {
        BASIC_MAIN_SOURCE@
    }
}

/// The `main.go` of a scaffold: a hello-world server for Gin, Fiber, Echo or
/// Chi, a hello-world program otherwise.
pub fn go_main_source(kind: &str) -> (r: &'static str)
    ensures
        r@ == go_source(kind@),
{
    if str_eq(kind, "gin") {
        GIN_MAIN_SOURCE
    } else if str_eq(kind, "fiber") {
        FIBER_MAIN_SOURCE
    } else if str_eq(kind, "echo") {
        ECHO_MAIN_SOURCE
    } else if str_eq(kind, "chi") {
        CHI_MAIN_SOURCE
    } else {
        BASIC_MAIN_SOURCE
    }
}

/// Every `main.go` that a Go scaffold writes starts with `package main`, and
/// the one of each framework scaffold imports the module that its steps fetch
/// with `go get`.
pub proof fn law_go_main_imports_dependency(kind: Seq<char>)
    ensures
        starts_with(go_source(kind), "package main\n"@),
        go_dependency_of(kind) matches Some(d) ==> contains_text(
            go_source(kind),
            "\""@ + d + "\""@,
        ),
{
    reveal_strlit("package main\n");
    reveal_strlit("\"");
    let s = go_source(kind);
    if kind == "gin"@ {
        reveal_strlit(r#"package main

import "github.com/gin-gonic/gin"

func main() {
	router := gin.Default()

	router.GET("/", func(context *gin.Context) {
		context.JSON(200, gin.H{"message": "Hello from Gin"})
	})

	router.Run(":8080")
}
"#);
        reveal_strlit("github.com/gin-gonic/gin");
        let q = "\""@ + "github.com/gin-gonic/gin"@ + "\""@;
        assert(s.subrange(21, 21 + q.len() as int) =~= q);
        assert(occurs_at(s, q, 21));
    } else if kind == "fiber"@ {
        reveal_strlit(r#"package main

import "github.com/gofiber/fiber/v2"

func main() {
	app := fiber.New()

	app.Get("/", func(context *fiber.Ctx) error {
		return context.JSON(fiber.Map{"message": "Hello from Fiber"})
	})

	app.Listen(":3000")
}
"#);
        reveal_strlit("github.com/gofiber/fiber/v2");
        let q = "\""@ + "github.com/gofiber/fiber/v2"@ + "\""@;
        assert(s.subrange(21, 21 + q.len() as int) =~= q);
        assert(occurs_at(s, q, 21));
    } else if kind == "echo"@ {
        reveal_strlit(r#"package main

import (
	"net/http"

	"github.com/labstack/echo/v4"
)

func main() {
	app := echo.New()

	app.GET("/", func(context echo.Context) error {
		return context.JSON(http.StatusOK, map[string]string{"message": "Hello from Echo"})
	})

	app.Logger.Fatal(app.Start(":1323"))
}
"#);
        reveal_strlit("github.com/labstack/echo/v4");
        let q = "\""@ + "github.com/labstack/echo/v4"@ + "\""@;
        assert(s.subrange(37, 37 + q.len() as int) =~= q);
        assert(occurs_at(s, q, 37));
    } else if kind == "chi"@ {
        reveal_strlit(r#"package main

import (
	"encoding/json"
	"net/http"

	"github.com/go-chi/chi/v5"
)

func main() {
	router := chi.NewRouter()

	router.Get("/", func(writer http.ResponseWriter, request *http.Request) {
		writer.Header().Set("Content-Type", "application/json")
		json.NewEncoder(writer).Encode(map[string]string{"message": "Hello from Chi"})
	})

	http.ListenAndServe(":3000", router)
}
"#);
        reveal_strlit("github.com/go-chi/chi/v5");
        let q = "\""@ + "github.com/go-chi/chi/v5"@ + "\""@;
        assert(s.subrange(54, 54 + q.len() as int) =~= q);
        assert(occurs_at(s, q, 54));
    } else {
        reveal_strlit(r#"package main

import "fmt"

func main() {
	fmt.Println("Hello from Go")
}
"#);
    }
    assert(s.subrange(0, 13) =~= "package main\n"@);
}

/// The module a framework scaffold depends on.
pub open spec fn go_dependency_of(kind: Seq<char>) -> Option<Seq<char>> {
    if kind == "gin"@ {
        Some("github.com/gin-gonic/gin"@)
    } else if kind == "fiber"@ {
        Some("github.com/gofiber/fiber/v2"@)
    } else if kind == "echo"@ {
        Some("github.com/labstack/echo/v4"@)
    } else if kind == "chi"@ {
        Some("github.com/go-chi/chi/v5"@)
    } else {
        None
    }
}

/// The module a framework scaffold depends on; none for plain Go.
pub fn go_dependency(kind: &str) -> (r: Option<&'static str>)
    ensures
        r.deep_view() == go_dependency_of(kind@),
{
    if str_eq(kind, "gin") {
        Some("github.com/gin-gonic/gin")
    } else if str_eq(kind, "fiber") {
        Some("github.com/gofiber/fiber/v2")
    } else if str_eq(kind, "echo") {
        Some("github.com/labstack/echo/v4")
    } else if str_eq(kind, "chi") {
        Some("github.com/go-chi/chi/v5")
    } else {
        None
    }
}

/// The framework's name as step labels show it.
pub open spec fn go_title(kind: Seq<char>) -> Seq<char> {
    if kind == "gin"@ {
        "Gin"@
    } else if kind == "fiber"@ {
        "Fiber"@
    } else if kind == "echo"@ {
        "Echo"@
    } else if kind == "chi"@ {
        "Chi"@
    } else {
        "Go"@
    }
}

/// The steps that create a Go project: write `main.go` and a README, start
/// the module, add the framework when there is one, and tidy the module.
pub open spec fn go_steps_view(
    p: Platform,
    kind: Seq<char>,
    project_name: Seq<char>,
    parent_dir: Seq<char>,
    target_dir: Seq<char>,
) -> Seq<StepView> {
    let title = go_title(kind);
    let first = seq![
        write_step_view(
            "Create "@ + title + " starter files"@,
            seq![
                (join_path(p, target_dir, "main.go"@), go_source(kind)),
                (join_path(p, target_dir, "README.md"@), readme_text(project_name)),
            ],
            parent_dir,
            scaffold_text(project_name),
        ),
        command_step_view(
            "Initialize Go module"@,
            go_program(p),
            seq!["mod"@, "init"@, project_name],
            target_dir,
            None,
        ),
    ];
    let with_dep = match go_dependency_of(kind) {
        Some(dep) => first.push(
            command_step_view(
                "Install "@ + title + " dependency"@,
                go_program(p),
                seq!["get"@, dep],
                target_dir,
                None,
            ),
        ),
        None => first,
    };
    with_dep.push(
        command_step_view("Tidy Go module"@, go_program(p), seq!["mod"@, "tidy"@], target_dir, None),
    )
}

fn go_title_exec(kind: &str) -> (r: &'static str)
    ensures
        r@ == go_title(kind@),
{
    if str_eq(kind, "gin") {
        "Gin"
    } else if str_eq(kind, "fiber") {
        "Fiber"
    } else if str_eq(kind, "echo") {
        "Echo"
    } else if str_eq(kind, "chi") {
        "Chi"
    } else {
        "Go"
    }
}

/// The steps that create a Go project of the given kind.
pub fn go_project_steps(
    p: Platform,
    kind: &str,
    project_name: &str,
    parent_dir: &str,
    target_dir: &str,
) -> (r: Vec<CreationStep>)
    ensures
        r.deep_view() == go_steps_view(p, kind@, project_name@, parent_dir@, target_dir@),
{
    let title = go_title_exec(kind);
    let files = vec![
        file_entry(p, target_dir, "main.go", owned(go_main_source(kind))),
        file_entry(p, target_dir, "README.md", readme_content(project_name)),
    ];
    assert(files.deep_view() =~= seq![
        (join_path(p, target_dir@, "main.go"@), go_source(kind@)),
        (join_path(p, target_dir@, "README.md"@), readme_text(project_name@)),
    ]);
    let write = write_files_step(
        concat3("Create ", title, " starter files").as_str(),
        files,
        parent_dir,
        scaffold_display(project_name),
    );
    let init_args = vec!["mod", "init", project_name];
    assert(init_args.deep_view() =~= seq!["mod"@, "init"@, project_name@]);
    let init = creation_step("Initialize Go module", go_bin(p), init_args, target_dir);
    let mut steps = vec![write, init];
    let ghost first = steps.deep_view();
    match go_dependency(kind) {
        Some(dependency) => {
            let args = vec![owned("get"), owned(dependency)];
            assert(args.deep_view() =~= seq!["get"@, dependency@]);
            steps.push(
                creation_step_from_strings(
                    concat3("Install ", title, " dependency").as_str(),
                    go_bin(p),
                    args,
                    target_dir,
                ),
            );
        },
        None => {},
    }
    let tidy_args = vec!["mod", "tidy"];
    assert(tidy_args.deep_view() =~= seq!["mod"@, "tidy"@]);
    steps.push(creation_step("Tidy Go module", go_bin(p), tidy_args, target_dir));
    assert(steps.deep_view() =~= go_steps_view(p, kind@, project_name@, parent_dir@, target_dir@));
    steps
}

/// The module path a `module` line declares.
pub open spec fn module_line_value() -> spec_fn(Seq<char>) -> Option<Seq<char>> {
    |line: Seq<char>|
        {
            let t = trim(line);
            if starts_with(t, "module "@) {
                let m = trim(t.skip(7));
                if m.len() == 0 {
                    None
                } else {
                    Some(m)
                }
            } else {
                None
            }
        }
}

/// A Go project's name: the path of the first `module` line of `go.mod`, or
/// its folder's name.
pub open spec fn go_module(p: Platform, project_dir: Seq<char>, content: Seq<char>) -> Seq<char> {
    match find_map(lines(content), module_line_value()) {
        Some(m) => m,
        None => folder_project_name(p, project_dir),
    }
}

/// A Go project's name.
pub fn go_module_name(p: Platform, project_dir: &str, content: &str) -> (r: String)
    ensures
        r@ == go_module(p, project_dir@, content@),
{
    let (cs, ws) = lines_of(content);
    let pre = chars_of("module ");
    proof {
        reveal_strlit("module ");
    }
    let ghost f = module_line_value();
    let ghost ls = lines(content@);
    proof {
        lemma_find_map_start(ls, f);
    }
    let mut i: usize = 0;
    while i < ws.len()
        invariant
            cs@ == content@,
            pre@ == "module "@,
            pre@.len() == 7,
            f == module_line_value(),
            ls == lines(content@),
            forall|k: int| #![trigger ws@[k]] 0 <= k < ws@.len() ==> ws@[k].0 <= ws@[k].1 && ws@[k].1 <= cs@.len(),
            window_texts(cs@, ws@) == ls,
            i <= ws@.len(),
            find_map(ls, f) == find_map(ls.skip(i as int), f),
        decreases ws@.len() - i,
    {
        let (lo, hi) = ws[i];
        proof {
            lemma_window_line(cs@, ws@, i as int);
        }
        let ghost line = ls[i as int];
        let mut found: Option<String> = None;
        let (a, b) = trim_window(&cs, lo, hi, CharClass::Whitespace);
        if window_starts_with(&cs, a, b, &pre) {
            let (c, d) = trim_window(&cs, a + 7, b, CharClass::Whitespace);
            proof {
                assert(trim(line).skip(7) =~= cs@.subrange(a + 7, b as int));
            }
            if c < d {
                found = Some(string_of_range(&cs, c, d));
            }
        }
        proof {
            assert(found.deep_view() == f(line));
        }
        if let Some(m) = found {
            proof {
                lemma_find_map_hit(ls, f, i as int);
            }
            return m;
        }
        proof {
            lemma_find_map_skip(ls, f, i as int);
        }
        i = i + 1;
    }
    proof {
        reveal(window_texts);
        lemma_find_map_end(ls, f);
    }
    python_folder_project_name(p, project_dir)
}

/// A file that can hold a Go main package: a `.go` file that is no test.
pub open spec fn go_main_candidate(file_name: Seq<char>) -> bool {
    extension_of(file_name) == Some("go"@) && !ends_with(file_name, "_test.go"@)
}

/// Whether a file in a project folder can hold a Go main package.
pub fn is_go_main_candidate(file_name: &str) -> (r: bool)
    ensures
        r == go_main_candidate(file_name@),
{
    has_extension(file_name, "go") && !ends_with_str(file_name, "_test.go")
}

/// Whether some file of a folder's listing is a Go source, no test, and
/// declares `package main`.
pub open spec fn main_package_in(entries: Seq<(Seq<char>, Option<Seq<char>>)>) -> bool {
    exists|i: int|
        0 <= i < entries.len() && go_main_candidate(#[trigger] entries[i].0) && match entries[i].1 {
            Some(c) => contains_text(c, "package main"@),
            None => false,
        }
}

/// Whether a project folder has a Go main package. The listing gives each
/// file's name and, for candidates that could be read, its text; when the
/// folder could not be listed, a `main.go` decides.
pub fn has_go_main_package(entries: Option<&Vec<(String, Option<String>)>>, main_go_exists: bool) -> (r:
    bool)
    ensures
        r == match entries {
            Some(es) => main_package_in(es.deep_view()),
            None => main_go_exists,
        },
{
    match entries {
        None => main_go_exists,
        Some(es) => {
            let mut i: usize = 0;
            while i < es.len()
                invariant
                    entries == Some(es),
                    i <= es@.len(),
                    forall|j: int|
                        0 <= j < i ==> !(go_main_candidate(#[trigger] es.deep_view()[j].0) && match es.deep_view()[j].1 {
                            Some(c) => contains_text(c, "package main"@),
                            None => false,
                        }),
                decreases es@.len() - i,
            {
                let ghost e = es.deep_view()[i as int];
                assert(e.0 == es@[i as int].0@);
                assert(e.1 == es@[i as int].1.deep_view());
                if is_go_main_candidate(es[i].0.as_str()) {
                    match &es[i].1 {
                        Some(c) => {
                            if contains_str(c.as_str(), "package main") {
                                assert(e.1 == Some(c@));
                                assert(go_main_candidate(es.deep_view()[i as int].0) && match es.deep_view()[i as int].1 {
                                    Some(c) => contains_text(c, "package main"@),
                                    None => false,
                                });
                                return true;
                            }
                        },
                        None => {},
                    }
                }
                i = i + 1;
            }
            false
        },
    }
}

/// The scripts of a Go project: run it when it has a module or a `main.go`;
/// tests, tidying and a build when it has a module.
pub open spec fn go_scripts_view(has_module: bool, main_go_exists: bool) -> Seq<ScriptView> {
    let run = if has_module {
        "go run ."@
    } else {
        "go run main.go"@
    };
    let a = if has_module || main_go_exists {
        seq![("start"@, run), ("dev"@, run)]
    } else {
        Seq::empty()
    };
    let b = if has_module {
        a + seq![("test"@, "go test ./..."@), ("tidy"@, "go mod tidy"@), ("build"@, "go build ."@)]
    } else {
        a
    };
    scripts_view(b, "go"@, if has_module { "go.mod"@ } else { "main.go"@ })
}

/// The scripts of a Go project.
pub fn go_scripts(has_module: bool, main_go_exists: bool) -> (r: Vec<ScriptInfo>)
    ensures
        r.deep_view() == go_scripts_view(has_module, main_go_exists),
{
    let source = if has_module {
        "go.mod"
    } else {
        "main.go"
    };
    let run_command = if has_module {
        "go run ."
    } else {
        "go run main.go"
    };
    let mut scripts: Vec<(&str, &str)> = Vec::new();
    if has_module || main_go_exists {
        scripts.push(("start", run_command));
        scripts.push(("dev", run_command));
    }
    if has_module {
        scripts.push(("test", "go test ./..."));
        scripts.push(("tidy", "go mod tidy"));
        scripts.push(("build", "go build ."));
    }
    let ghost run = if has_module {
        "go run ."@
    } else {
        "go run main.go"@
    };
    let ghost a = if has_module || main_go_exists {
        seq![("start"@, run), ("dev"@, run)]
    } else {
        Seq::empty()
    };
    let ghost b = if has_module {
        a + seq![("test"@, "go test ./..."@), ("tidy"@, "go mod tidy"@), ("build"@, "go build ."@)]
    } else {
        a
    };
    assert(scripts.deep_view() =~= b);
    script_list(scripts, "go", source)
}

/// The scripts of a folder with a `main.go` and no module.
pub fn go_main_scripts(main_go_exists: bool) -> (r: Vec<ScriptInfo>)
    ensures
        r.deep_view() == go_scripts_view(false, main_go_exists),
{
    go_scripts(false, main_go_exists)
}

/// The scripts of a Go module: without `start` and `dev` when it has no main
/// package.
pub open spec fn go_module_scripts_view(has_main_package: bool) -> Seq<ScriptView> {
    if has_main_package {
        go_scripts_view(true, false)
    } else {
        go_scripts_view(true, false).filter(not_named("start"@, "dev"@))
    }
}

/// A Go project read from the text of its `go.mod`.
pub fn read_go_project(
    project_path: String,
    p: Platform,
    project_dir: &str,
    content: &str,
    has_main_package: bool,
) -> (r: ProjectInfo)
    ensures
        r.name@ == go_module(p, project_dir@, content@),
        r.path@ == project_path@,
        r.scripts.deep_view() == go_module_scripts_view(has_main_package),
        r.package_manager@ == "go"@,
{
    let mut scripts = go_scripts(true, false);
    if !has_main_package {
        scripts = retain_not_named(scripts, "start", "dev");
    }
    ProjectInfo {
        name: go_module_name(p, project_dir, content),
        path: project_path,
        scripts,
        package_manager: owned("go"),
    }
}

/// The scripts a Go project offers to run.
pub open spec fn go_runnable_scripts(
    has_module: bool,
    main_go_exists: bool,
    has_main_package: bool,
) -> Seq<ScriptView> {
    if has_module {
        go_module_scripts_view(has_main_package)
    } else if main_go_exists {
        go_scripts_view(false, true)
    } else {
        Seq::empty()
    }
}

/// The command line of a Go project's script, or why there is none.
pub fn go_script_command_line(
    has_module: bool,
    main_go_exists: bool,
    has_main_package: bool,
    script_name: &str,
) -> (r: Result<String, String>)
    ensures
        match script_command_of(
            go_runnable_scripts(has_module, main_go_exists, has_main_package),
            script_name@,
        ) {
            Some(c) => r matches Ok(s) && s@ == c,
            None => r matches Err(e) && e@ == "Go script '"@ + script_name@ + "' was not found"@,
        },
{
    let mut scripts = if has_module {
        go_scripts(true, main_go_exists)
    } else if main_go_exists {
        go_main_scripts(main_go_exists)
    } else {
        Vec::new()
    };
    assert(go_scripts_view(true, main_go_exists) =~= go_scripts_view(true, false));
    if has_module && !has_main_package {
        scripts = retain_not_named(scripts, "start", "dev");
    }
    proof {
        if !has_module && !main_go_exists {
            assert(scripts.deep_view() =~= Seq::<ScriptView>::empty());
        }
    }
    match find_script_command(&scripts, script_name) {
        Some(c) => Ok(c),
        None => Err(concat3("Go script '", script_name, "' was not found")),
    }
}

} // verus!
