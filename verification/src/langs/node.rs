//! Node.js, JavaScript and TypeScript: npm's programs, framework scaffolds,
//! and `package.json` projects.

use vstd::prelude::*;
use crate::common::{creation_step, creation_step_from_strings, creation_step_with_display};
use crate::docs::{JsonValue, json_document, json_get, json_member, json_text, parse_json};
use crate::model::{
    CreationStep, Platform, ProjectFiles, ProjectInfo, ScriptInfo, ScriptView, StepView,
    command_step_view, script_info, script_view,
};
use crate::platform::{by_platform, parent_of, path_parent, pick};
use crate::text::{concat, concat3, owned, str_eq};

verus! {

/// npm's program.
pub fn npm_bin(p: Platform) -> (r: String)
    ensures
        r@ == npm_program(p),
{
    pick(p, "npm", "npm.cmd")
}

pub open spec fn npm_program(p: Platform) -> Seq<char> {
    by_platform(p, "npm"@, "npm.cmd"@)
}

/// npx's program.
pub fn npx_bin(p: Platform) -> (r: String)
    ensures
        r@ == npx_program(p),
{
    pick(p, "npx", "npx.cmd")
}

pub open spec fn npx_program(p: Platform) -> Seq<char> {
    by_platform(p, "npx"@, "npx.cmd"@)
}

/// Node's program.
pub fn node_bin() -> (r: String)
    ensures
        r@ == "node"@,
{
    owned("node")
}

/// The package manager a Node project's lockfiles point to: pnpm, then yarn,
/// then bun, and npm when there is none.
pub open spec fn node_package_manager_of(files: ProjectFiles) -> Seq<char> {
    if files.pnpm_lock_yaml {
        "pnpm"@
    } else if files.yarn_lock || files.yarnrc_yml {
        "yarn"@
    } else if files.bun_lockb || files.bun_lock {
        "bun"@
    } else {
        "npm"@
    }
}

/// The package manager a Node project's lockfiles point to.
pub fn preferred_node_package_manager(files: &ProjectFiles) -> (r: String)
    ensures
        r@ == node_package_manager_of(*files),
{
    if files.pnpm_lock_yaml {
        owned("pnpm")
    } else if files.yarn_lock || files.yarnrc_yml {
        owned("yarn")
    } else if files.bun_lockb || files.bun_lock {
        owned("bun")
    } else {
        owned("npm")
    }
}

/// The steps that create a Vite project from a template, then install its
/// dependencies.
pub open spec fn vite_steps_view(
    p: Platform,
    template: Seq<char>,
    project_name: Seq<char>,
    parent_dir: Seq<char>,
    target_dir: Seq<char>,
) -> Seq<StepView> {
    seq![
        command_step_view(
            "Create Vite project"@,
            npx_program(p),
            seq![
                "-y"@,
                "create-vite@latest"@,
                project_name,
                "--template"@,
                template,
                "--no-interactive"@,
            ],
            parent_dir,
            None,
        ),
        command_step_view("Install dependencies"@, npm_program(p), seq!["install"@], target_dir, None),
    ]
}

/// The steps that create a Vite project.
pub fn vite_steps(
    p: Platform,
    template: &str,
    project_name: &str,
    parent_dir: &str,
    target_dir: &str,
) -> (r: Vec<CreationStep>)
    ensures
        r.deep_view() == vite_steps_view(p, template@, project_name@, parent_dir@, target_dir@),
{
    let create_args = vec![
        "-y",
        "create-vite@latest",
        project_name,
        "--template",
        template,
        "--no-interactive",
    ];
    assert(create_args.deep_view() =~= seq![
        "-y"@,
        "create-vite@latest"@,
        project_name@,
        "--template"@,
        template@,
        "--no-interactive"@,
    ]);
    let install_args = vec!["install"];
    assert(install_args.deep_view() =~= seq!["install"@]);
    let r = vec![
        creation_step("Create Vite project", npx_bin(p), create_args, parent_dir),
        creation_step("Install dependencies", npm_bin(p), install_args, target_dir),
    ];
    assert(r.deep_view() =~= vite_steps_view(p, template@, project_name@, parent_dir@, target_dir@));
    r
}

/// The arguments of `create-next-app` for a version: TypeScript or
/// JavaScript, ESLint, Tailwind, the app router, a `src` folder, the `@/*`
/// alias and npm; past version 14 also no prompts and no git.
pub open spec fn next_args(version: Seq<char>, use_typescript: bool, project_name: Seq<char>) -> Seq<
    Seq<char>,
> {
    let package = if version == "latest"@ {
        "create-next-app@latest"@
    } else {
        "create-next-app@"@ + version
    };
    let base = seq![
        "-y"@,
        package,
        project_name,
        if use_typescript { "--ts"@ } else { "--js"@ },
        "--eslint"@,
        "--tailwind"@,
        "--app"@,
        "--src-dir"@,
        "--import-alias"@,
        "@/*"@,
        "--use-npm"@,
    ];
    if version != "14"@ {
        base + seq!["--yes"@, "--disable-git"@]
    } else {
        base
    }
}

/// The step that creates a Next.js project of a version.
pub open spec fn next_steps_view(
    p: Platform,
    version: Seq<char>,
    use_typescript: bool,
    project_name: Seq<char>,
    parent_dir: Seq<char>,
) -> Seq<StepView> {
    seq![
        command_step_view(
            "Create Next.js project"@,
            npx_program(p),
            next_args(version, use_typescript, project_name),
            parent_dir,
            None,
        ),
    ]
}

/// The step that creates a Next.js project of a version.
pub fn next_steps(
    p: Platform,
    version: &str,
    use_typescript: bool,
    project_name: &str,
    parent_dir: &str,
) -> (r: Vec<CreationStep>)
    ensures
        r.deep_view() == next_steps_view(p, version@, use_typescript, project_name@, parent_dir@),
{
    let package = if str_eq(version, "latest") {
        owned("create-next-app@latest")
    } else {
        concat("create-next-app@", version)
    };
    let language_flag = if use_typescript {
        "--ts"
    } else {
        "--js"
    };
    let mut args = vec![
        owned("-y"),
        package,
        owned(project_name),
        owned(language_flag),
        owned("--eslint"),
        owned("--tailwind"),
        owned("--app"),
        owned("--src-dir"),
        owned("--import-alias"),
        owned("@/*"),
        owned("--use-npm"),
    ];
    if !str_eq(version, "14") {
        args.push(owned("--yes"));
        args.push(owned("--disable-git"));
    }
    assert(args.deep_view() =~= next_args(version@, use_typescript, project_name@));
    let r = vec![creation_step_from_strings("Create Next.js project", npx_bin(p), args, parent_dir)];
    assert(r.deep_view() =~= seq![r@[0].deep_view()]);
    r
}

/// The arguments of `create-react-app`, with the TypeScript template when
/// asked for.
pub open spec fn cra_args(use_typescript: bool, project_name: Seq<char>) -> Seq<Seq<char>> {
    let base = seq!["-y"@, "create-react-app@latest"@, project_name];
    if use_typescript {
        base + seq!["--template"@, "typescript"@]
    } else {
        base
    }
}

/// The step that creates a React App project.
pub open spec fn cra_steps_view(
    p: Platform,
    use_typescript: bool,
    project_name: Seq<char>,
    parent_dir: Seq<char>,
) -> Seq<StepView> {
    seq![
        command_step_view(
            "Create React App project"@,
            npx_program(p),
            cra_args(use_typescript, project_name),
            parent_dir,
            None,
        ),
    ]
}

/// The step that creates a React App project.
pub fn cra_steps(p: Platform, use_typescript: bool, project_name: &str, parent_dir: &str) -> (r: Vec<
    CreationStep,
>)
    ensures
        r.deep_view() == cra_steps_view(p, use_typescript, project_name@, parent_dir@),
{
    let mut args = vec![owned("-y"), owned("create-react-app@latest"), owned(project_name)];
    if use_typescript {
        args.push(owned("--template"));
        args.push(owned("typescript"));
    }
    assert(args.deep_view() =~= cra_args(use_typescript, project_name@));
    let r = vec![
        creation_step_from_strings("Create React App project", npx_bin(p), args, parent_dir),
    ];
    assert(r.deep_view() =~= seq![r@[0].deep_view()]);
    r
}

/// The step that creates a Nuxt project from the minimal template, with npm
/// and without git.
pub open spec fn nuxt_steps_view(p: Platform, project_name: Seq<char>, parent_dir: Seq<char>) -> Seq<
    StepView,
> {
    seq![
        command_step_view(
            "Create Nuxt project"@,
            npx_program(p),
            seq![
                "-y"@,
                "nuxi@latest"@,
                "init"@,
                project_name,
                "--template"@,
                "minimal"@,
                "--packageManager"@,
                "npm"@,
                "--gitInit=false"@,
            ],
            parent_dir,
            None,
        ),
    ]
}

/// The step that creates a Nuxt project from the minimal template, with npm
/// and without git.
pub fn nuxt_steps(p: Platform, project_name: &str, parent_dir: &str) -> (r: Vec<CreationStep>)
    ensures
        r.deep_view() == nuxt_steps_view(p, project_name@, parent_dir@),
{
    let args = vec![
        "-y",
        "nuxi@latest",
        "init",
        project_name,
        "--template",
        "minimal",
        "--packageManager",
        "npm",
        "--gitInit=false",
    ];
    assert(args.deep_view() =~= seq![
        "-y"@,
        "nuxi@latest"@,
        "init"@,
        project_name@,
        "--template"@,
        "minimal"@,
        "--packageManager"@,
        "npm"@,
        "--gitInit=false"@,
    ]);
    let r = vec![creation_step("Create Nuxt project", npx_bin(p), args, parent_dir)];
    assert(r.deep_view() =~= seq![r@[0].deep_view()]);
    r
}

/// The arguments of the Angular CLI: a new project in its own folder, with
/// defaults, no prompts, npm, no git, CSS and no routing.
pub open spec fn angular_args(project_name: Seq<char>) -> Seq<Seq<char>> {
    seq![
        "-y"@,
        "@angular/cli@latest"@,
        "new"@,
        project_name,
        "--directory"@,
        project_name,
        "--defaults"@,
        "--interactive=false"@,
        "--package-manager"@,
        "npm"@,
        "--skip-git"@,
        "--style"@,
        "css"@,
        "--routing=false"@,
    ]
}

/// The step that creates an Angular project.
pub open spec fn angular_steps_view(p: Platform, project_name: Seq<char>, parent_dir: Seq<char>) -> Seq<
    StepView,
> {
    seq![
        command_step_view(
            "Create Angular project"@,
            npx_program(p),
            angular_args(project_name),
            parent_dir,
            None,
        ),
    ]
}

/// The step that creates an Angular project.
pub fn angular_steps(p: Platform, project_name: &str, parent_dir: &str) -> (r: Vec<CreationStep>)
    ensures
        r.deep_view() == angular_steps_view(p, project_name@, parent_dir@),
{
    let args = vec![
        "-y",
        "@angular/cli@latest",
        "new",
        project_name,
        "--directory",
        project_name,
        "--defaults",
        "--interactive=false",
        "--package-manager",
        "npm",
        "--skip-git",
        "--style",
        "css",
        "--routing=false",
    ];
    assert(args.deep_view() =~= angular_args(project_name@));
    let r = vec![creation_step("Create Angular project", npx_bin(p), args, parent_dir)];
    assert(r.deep_view() =~= seq![r@[0].deep_view()]);
    r
}

/// The Node script that writes a Node.js or Express starter. Its last four
/// arguments: the target folder, the project's name, the kind and the
/// language.
pub const NODE_BACKEND_SCAFFOLD_SCRIPT: &'static str = r#"
const fs = require("node:fs");
const path = require("node:path");

const [target, projectName, kind, language] = process.argv.slice(-4);
const isTypescript = language === "ts";
const isExpress = kind === "express";

if (!target || !projectName || !kind || !language) {
  console.error("Missing scaffold arguments");
  process.exit(1);
}

if (fs.existsSync(target)) {
  console.error(`Target folder already exists: ${target}`);
  process.exit(1);
}

fs.mkdirSync(path.join(target, "src"), { recursive: true });

const packageJson = {
  name: projectName,
  version: "0.1.0",
  private: true,
  type: "module",
  scripts: isTypescript
    ? {
        dev: "tsx watch src/index.ts",
        build: "tsc",
        start: "node dist/index.js"
      }
    : {
        dev: "node src/index.js",
        start: "node src/index.js"
      }
};

fs.writeFileSync(
  path.join(target, "package.json"),
  `${JSON.stringify(packageJson, null, 2)}\n`
);

if (isTypescript) {
  fs.writeFileSync(
    path.join(target, "tsconfig.json"),
    `${JSON.stringify(
      {
        compilerOptions: {
          target: "ES2022",
          module: "NodeNext",
          moduleResolution: "NodeNext",
          strict: true,
          esModuleInterop: true,
          skipLibCheck: true,
          forceConsistentCasingInFileNames: true,
          outDir: "dist",
          rootDir: "src"
        },
        include: ["src"]
      },
      null,
      2
    )}\n`
  );
}

const extension = isTypescript ? "ts" : "js";
const source = isExpress
  ? `import express from "express";

const app = express();
const port = Number(process.env.PORT ?? 3000);

app.get("/", (_req${isTypescript ? ": express.Request" : ""}, res${isTypescript ? ": express.Response" : ""}) => {
  res.json({ message: "Hello from Express" });
});

app.listen(port, () => {
  console.log(\`Express server running at http://localhost:\${port}\`);
});
`
  : `import http from "node:http";

const port = Number(process.env.PORT ?? 3000);

const server = http.createServer((_req, res) => {
  res.writeHead(200, { "content-type": "application/json" });
  res.end(JSON.stringify({ message: "Hello from Node.js" }));
});

server.listen(port, () => {
  console.log(\`Node server running at http://localhost:\${port}\`);
});
`;

fs.writeFileSync(path.join(target, "src", `index.${extension}`), source);
console.log(`${isExpress ? "Express" : "Node.js"} ${isTypescript ? "TypeScript" : "JavaScript"} starter files created`);
"#;

/// The Node script that writes a Node.js or Express starter.
pub fn node_backend_scaffold_script() -> (r: &'static str)
    ensures
        r@ == NODE_BACKEND_SCAFFOLD_SCRIPT@,
{
    NODE_BACKEND_SCAFFOLD_SCRIPT
}

/// The steps that create a Node.js or Express project: run the scaffold
/// script from the target's parent folder (`.` when it has none), then
/// install Express, or for plain JavaScript prepare the lockfile, and for
/// TypeScript install its tools.
pub open spec fn node_backend_steps_view(
    p: Platform,
    kind: Seq<char>,
    use_typescript: bool,
    project_name: Seq<char>,
    target_dir: Seq<char>,
) -> Seq<StepView> {
    let is_express = kind == "express"@;
    let language = if use_typescript { "ts"@ } else { "js"@ };
    let cwd = match parent_of(p, target_dir) {
        Some(d) => d,
        None => "."@,
    };
    let scaffold = command_step_view(
        if is_express {
            "Create Express starter files"@
        } else {
            "Create Node.js starter files"@
        },
        "node"@,
        seq!["-e"@, NODE_BACKEND_SCAFFOLD_SCRIPT@, target_dir, project_name, kind, language],
        cwd,
        Some(
            "$ node <ProLaunch scaffold> "@ + project_name + " "@ + if use_typescript {
                "typescript"@
            } else {
                "javascript"@
            },
        ),
    );
    let first = if is_express {
        seq![
            scaffold,
            command_step_view(
                "Install Express"@,
                npm_program(p),
                seq!["install"@, "express"@],
                target_dir,
                None,
            ),
        ]
    } else if !use_typescript {
        seq![
            scaffold,
            command_step_view(
                "Prepare npm lockfile"@,
                npm_program(p),
                seq!["install"@],
                target_dir,
                None,
            ),
        ]
    } else {
        seq![scaffold]
    };
    if use_typescript {
        let tools = seq!["install"@, "--save-dev"@, "typescript"@, "tsx"@, "@types/node"@];
        first.push(
            command_step_view(
                "Install TypeScript tools"@,
                npm_program(p),
                if is_express {
                    tools.push("@types/express"@)
                } else {
                    tools
                },
                target_dir,
                None,
            ),
        )
    } else {
        first
    }
}

/// The steps that create a Node.js or Express project in `target_dir`.
pub fn node_backend_steps(
    p: Platform,
    kind: &str,
    use_typescript: bool,
    project_name: &str,
    target_dir: &str,
) -> (r: Vec<CreationStep>)
    ensures
        r.deep_view() == node_backend_steps_view(p, kind@, use_typescript, project_name@, target_dir@),
{
    let is_express = str_eq(kind, "express");
    let language = if use_typescript {
        "ts"
    } else {
        "js"
    };
    let cwd = match path_parent(p, target_dir) {
        Some(d) => d,
        None => owned("."),
    };
    let args = vec![
        owned("-e"),
        owned(node_backend_scaffold_script()),
        owned(target_dir),
        owned(project_name),
        owned(kind),
        owned(language),
    ];
    let display = concat3(
        "$ node <ProLaunch scaffold> ",
        project_name,
        if use_typescript {
            " typescript"
        } else {
            " javascript"
        },
    );
    proof {
        reveal_strlit(" typescript");
        reveal_strlit(" javascript");
        reveal_strlit("typescript");
        reveal_strlit("javascript");
        reveal_strlit(" ");
        assert(" typescript"@ =~= " "@ + "typescript"@);
        assert(" javascript"@ =~= " "@ + "javascript"@);
        assert(display@ =~= "$ node <ProLaunch scaffold> "@ + project_name@ + " "@ + if use_typescript {
            "typescript"@
        } else {
            "javascript"@
        });
        assert(args.deep_view() =~= seq![
            "-e"@,
            NODE_BACKEND_SCAFFOLD_SCRIPT@,
            target_dir@,
            project_name@,
            kind@,
            language@,
        ]);
    }
    let mut steps = vec![
        creation_step_with_display(
            if is_express {
                "Create Express starter files"
            } else {
                "Create Node.js starter files"
            },
            node_bin(),
            args,
            cwd.as_str(),
            display,
        ),
    ];
    if is_express {
        let a = vec!["install", "express"];
        assert(a.deep_view() =~= seq!["install"@, "express"@]);
        steps.push(creation_step("Install Express", npm_bin(p), a, target_dir));
    } else if !use_typescript {
        let a = vec!["install"];
        assert(a.deep_view() =~= seq!["install"@]);
        steps.push(creation_step("Prepare npm lockfile", npm_bin(p), a, target_dir));
    }
    if use_typescript {
        let mut a = vec!["install", "--save-dev", "typescript", "tsx", "@types/node"];
        if is_express {
            a.push("@types/express");
        }
        assert(a.deep_view() =~= {
            let tools = seq!["install"@, "--save-dev"@, "typescript"@, "tsx"@, "@types/node"@];
            if is_express {
                tools.push("@types/express"@)
            } else {
                tools
            }
        });
        steps.push(creation_step("Install TypeScript tools", npm_bin(p), a, target_dir));
    }
    assert(steps.deep_view() =~= node_backend_steps_view(
        p,
        kind@,
        use_typescript,
        project_name@,
        target_dir@,
    ));
    steps
}

/// The arguments of the NestJS CLI: a new project with npm, no git, the
/// language, and strict mode for TypeScript.
pub open spec fn nest_args(use_typescript: bool, project_name: Seq<char>) -> Seq<Seq<char>> {
    let base = seq![
        "-y"@,
        "@nestjs/cli@latest"@,
        "new"@,
        project_name,
        "--package-manager"@,
        "npm"@,
        "--skip-git"@,
        "--language"@,
        if use_typescript { "TS"@ } else { "JS"@ },
    ];
    if use_typescript {
        base.push("--strict"@)
    } else {
        base
    }
}

/// The step that creates a NestJS project.
pub open spec fn nest_steps_view(
    p: Platform,
    use_typescript: bool,
    project_name: Seq<char>,
    parent_dir: Seq<char>,
) -> Seq<StepView> {
    seq![
        command_step_view(
            "Create NestJS project"@,
            npx_program(p),
            nest_args(use_typescript, project_name),
            parent_dir,
            None,
        ),
    ]
}

/// The step that creates a NestJS project.
pub fn nest_steps(p: Platform, use_typescript: bool, project_name: &str, parent_dir: &str) -> (r: Vec<
    CreationStep,
>)
    ensures
        r.deep_view() == nest_steps_view(p, use_typescript, project_name@, parent_dir@),
{
    let language = if use_typescript {
        "TS"
    } else {
        "JS"
    };
    let mut args = vec![
        owned("-y"),
        owned("@nestjs/cli@latest"),
        owned("new"),
        owned(project_name),
        owned("--package-manager"),
        owned("npm"),
        owned("--skip-git"),
        owned("--language"),
        owned(language),
    ];
    if use_typescript {
        args.push(owned("--strict"));
    }
    assert(args.deep_view() =~= nest_args(use_typescript, project_name@));
    let r = vec![creation_step_from_strings("Create NestJS project", npx_bin(p), args, parent_dir)];
    assert(r.deep_view() =~= seq![r@[0].deep_view()]);
    r
}

/// The text of a JSON value that is a string; empty for other values.
pub open spec fn text_or_empty(v: JsonValue) -> Seq<char> {
    match json_text(v) {
        Some(t) => t,
        None => Seq::empty(),
    }
}

/// The scripts of a `package.json` document: each entry of its `scripts`
/// object, in order, with its command text (empty when it is no string).
pub open spec fn node_scripts_view(doc: JsonValue, node_package_manager: Seq<char>) -> Seq<ScriptView> {
    match json_member(doc, "scripts"@) {
        Some(JsonValue::Object(es)) => es@.map_values(
            |e: (String, JsonValue)|
                script_view(e.0@, text_or_empty(e.1), node_package_manager, "package.json"@),
        ),
        _ => Seq::empty(),
    }
}

/// The name a `package.json` document gives, `Untitled Project` when it has
/// none that is a string.
pub open spec fn node_name_view(doc: JsonValue) -> Seq<char> {
    match json_member(doc, "name"@) {
        Some(JsonValue::Str(n)) => n@,
        _ => "Untitled Project"@,
    }
}

/// A Node project from its parsed `package.json`.
pub fn node_project_from_doc(
    project_path: String,
    doc: &JsonValue,
    node_package_manager: &str,
    package_manager: String,
) -> (r: ProjectInfo)
    ensures
        r.name@ == node_name_view(*doc),
        r.path@ == project_path@,
        r.scripts.deep_view() == node_scripts_view(*doc, node_package_manager@),
        r.package_manager@ == package_manager@,
{
    let name = match json_get(doc, "name") {
        Some(JsonValue::Str(n)) => n.clone(),
        _ => owned("Untitled Project"),
    };
    let mut scripts: Vec<ScriptInfo> = Vec::new();
    match json_get(doc, "scripts") {
        Some(JsonValue::Object(es)) => {
            let mut i: usize = 0;
            while i < es.len()
                invariant
                    i <= es@.len(),
                    scripts@.len() == i,
                    forall|k: int|
                        0 <= k < i ==> #[trigger] scripts@[k].deep_view() == script_view(
                            es@[k].0@,
                            text_or_empty(es@[k].1),
                            node_package_manager@,
                            "package.json"@,
                        ),
                decreases es@.len() - i,
            {
                let command = match &es[i].1 {
                    JsonValue::Str(c) => c.clone(),
                    _ => String::new(),
                };
                scripts.push(
                    script_info(
                        es[i].0.as_str(),
                        command.as_str(),
                        node_package_manager,
                        "package.json",
                    ),
                );
                i = i + 1;
            }
            assert(scripts.deep_view() =~= node_scripts_view(*doc, node_package_manager@));
        },
        _ => {
            assert(scripts.deep_view() =~= node_scripts_view(*doc, node_package_manager@));
        },
    }
    ProjectInfo { name, path: project_path, scripts, package_manager }
}

/// A Node project read from the text of its `package.json`: the document
/// serde_json makes of it, or the error that it is not valid JSON.
pub fn read_node_project(
    project_path: String,
    content: &str,
    node_package_manager: &str,
    package_manager: String,
) -> (r: Result<ProjectInfo, String>)
    ensures
        match json_document(content@) {
            Ok(doc) => r matches Ok(info) && info.name@ == node_name_view(doc) && info.path@
                == project_path@ && info.scripts.deep_view() == node_scripts_view(
                doc,
                node_package_manager@,
            ) && info.package_manager@ == package_manager@,
            Err(e) => r matches Err(m) && m@ == "Invalid package.json: "@ + e,
        },
{
    match parse_json(content) {
        Ok(doc) => Ok(node_project_from_doc(project_path, &doc, node_package_manager, package_manager)),
        Err(e) => Err(concat("Invalid package.json: ", e.as_str())),
    }
}

} // verus!
