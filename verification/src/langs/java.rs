//! Java: plain Java, Maven, Gradle and Spring Boot scaffolds, and how Java
//! projects are read and run.

use vstd::prelude::*;
use crate::common::{
    is_name_char, project_name_error, creation_step, file_entry, folder_project_name, python_folder_project_name, readme_content,
    readme_text, scaffold_display, scaffold_text, write_files_step,
};
use crate::model::{
    CreationStep, Platform, ProjectInfo, ScriptInfo, ScriptView, StepView, ToolCommand, ToolView,
    command_step_view, script_info, script_view, write_step_view,
};
use crate::platform::{
    by_platform, command_display, display_name, extension_of, file_name, file_stem, has_extension,
    join, join_path, join_with_spaces, join_words, name_stem, path_file_name, pick, shell_quote,
    shell_quoted, tool_command_line, command_words,
};
use crate::text::{CharClass, chars_from, chars_of, concat, concat3, contains_str, contains_text, filter_map_seq, find_exec, find_map, find_text, lemma_first_occurrence, occurs_at, lemma_filter_map_step, lemma_find_map_end, lemma_find_map_hit, lemma_find_map_skip, lemma_find_map_start, lemma_find_text_occurs, lemma_take_all, lemma_window_line, lines, lines_of, owned, starts_with, str_eq, string_of_range, trim, trim_class, trim_window, window_starts_with, window_texts};

verus! {

/// The Java runtime's program.
pub fn java_bin(p: Platform) -> (r: String)
    ensures
        r@ == java_program(p),
{
    pick(p, "java", "java.exe")
}

pub open spec fn java_program(p: Platform) -> Seq<char> {
    by_platform(p, "java"@, "java.exe"@)
}

/// The Java compiler's program.
pub fn javac_bin(p: Platform) -> (r: String)
    ensures
        r@ == javac_program(p),
{
    pick(p, "javac", "javac.exe")
}

pub open spec fn javac_program(p: Platform) -> Seq<char> {
    by_platform(p, "javac"@, "javac.exe"@)
}

/// Maven's program.
pub fn maven_bin(p: Platform) -> (r: String)
    ensures
        r@ == maven_program(p),
{
    pick(p, "mvn", "mvn.cmd")
}

pub open spec fn maven_program(p: Platform) -> Seq<char> {
    by_platform(p, "mvn"@, "mvn.cmd"@)
}

/// Gradle's program.
pub fn gradle_bin(p: Platform) -> (r: String)
    ensures
        r@ == gradle_program(p),
{
    pick(p, "gradle", "gradle.bat")
}

pub open spec fn gradle_program(p: Platform) -> Seq<char> {
    by_platform(p, "gradle"@, "gradle.bat"@)
}

/// The Spring Boot version that new Spring Boot projects use.
pub const SPRING_BOOT_VERSION: &'static str = "3.5.14";

/// The `Main.java` of a plain Java scaffold.
pub const JAVA_MAIN_SOURCE: &'static str = r#"public class Main {
    public static void main(String[] args) {
        System.out.println("Hello from Java");
    }
}
"#;

/// The steps that create a plain Java project: write `Main.java` and a
/// README.
pub open spec fn java_basic_steps_view(
    p: Platform,
    project_name: Seq<char>,
    parent_dir: Seq<char>,
    target_dir: Seq<char>,
) -> Seq<StepView> {
    seq![
        write_step_view(
            "Create Java starter files"@,
            seq![
                (join_path(p, target_dir, "Main.java"@), JAVA_MAIN_SOURCE@),
                (join_path(p, target_dir, "README.md"@), readme_text(project_name)),
            ],
            parent_dir,
            scaffold_text(project_name),
        ),
    ]
}

/// The steps that create a plain Java project.
pub fn java_basic_steps(p: Platform, project_name: &str, parent_dir: &str, target_dir: &str) -> (r:
    Vec<CreationStep>)
    ensures
        r.deep_view() == java_basic_steps_view(p, project_name@, parent_dir@, target_dir@),
{
    let files = vec![
        file_entry(p, target_dir, "Main.java", owned(JAVA_MAIN_SOURCE)),
        file_entry(p, target_dir, "README.md", readme_content(project_name)),
    ];
    assert(files.deep_view() =~= seq![
        (join_path(p, target_dir@, "Main.java"@), JAVA_MAIN_SOURCE@),
        (join_path(p, target_dir@, "README.md"@), readme_text(project_name@)),
    ]);
    let r = vec![
        write_files_step(
            "Create Java starter files",
            files,
            parent_dir,
            scaffold_display(project_name),
        ),
    ];
    assert(r.deep_view() =~= java_basic_steps_view(p, project_name@, parent_dir@, target_dir@));
    r
}

/// The `App.java` of Maven and Gradle scaffolds.
pub const MAVEN_APP_SOURCE: &'static str = r#"package com.prolaunch.app;

public class App {
    public static void main(String[] args) {
        System.out.println("Hello from Maven Java");
    }
}
"#;

/// The `App.java` of Maven and Gradle scaffolds.
pub fn maven_java_main_source() -> (r: &'static str)
    ensures
        r@ == MAVEN_APP_SOURCE@,
{
    MAVEN_APP_SOURCE
}

/// The part of a Maven scaffold's `pom.xml` before the project's name.
pub const MAVEN_POM_HEAD: &'static str = r#"<project xmlns="http://maven.apache.org/POM/4.0.0"
         xmlns:xsi="http://www.w3.org/2001/XMLSchema-instance"
         xsi:schemaLocation="http://maven.apache.org/POM/4.0.0 https://maven.apache.org/xsd/maven-4.0.0.xsd">
  <modelVersion>4.0.0</modelVersion>

  <groupId>com.prolaunch</groupId>
  <artifactId>"#;

/// The part of a Maven scaffold's `pom.xml` after the project's name.
pub const MAVEN_POM_TAIL: &'static str = r#"</artifactId>
  <version>0.1.0</version>

  <properties>
    <maven.compiler.source>17</maven.compiler.source>
    <maven.compiler.target>17</maven.compiler.target>
    <project.build.sourceEncoding>UTF-8</project.build.sourceEncoding>
  </properties>

  <build>
    <plugins>
      <plugin>
        <groupId>org.codehaus.mojo</groupId>
        <artifactId>exec-maven-plugin</artifactId>
        <version>3.5.0</version>
        <configuration>
          <mainClass>com.prolaunch.app.App</mainClass>
        </configuration>
      </plugin>
    </plugins>
  </build>
</project>
"#;

pub open spec fn maven_pom_text(project_name: Seq<char>) -> Seq<char> {
    MAVEN_POM_HEAD@ + project_name + MAVEN_POM_TAIL@
}

/// The `pom.xml` of a Maven scaffold, with the project's name as artifact.
pub fn maven_pom(project_name: &str) -> (r: String)
    ensures
        r@ == maven_pom_text(project_name@),
{
    concat3(MAVEN_POM_HEAD, project_name, MAVEN_POM_TAIL)
}

pub const APP_JAVA_PATH: &'static str = "src/main/java/com/prolaunch/app/App.java";

/// The steps that create a Maven project.
pub open spec fn maven_java_steps_view(
    p: Platform,
    project_name: Seq<char>,
    parent_dir: Seq<char>,
    target_dir: Seq<char>,
) -> Seq<StepView> {
    seq![
        write_step_view(
            "Create Maven starter files"@,
            seq![
                (join_path(p, target_dir, "pom.xml"@), maven_pom_text(project_name)),
                (join_path(p, target_dir, APP_JAVA_PATH@), MAVEN_APP_SOURCE@),
                (join_path(p, target_dir, "README.md"@), readme_text(project_name)),
            ],
            parent_dir,
            scaffold_text(project_name),
        ),
    ]
}

/// The steps that create a Maven project: `pom.xml`, `App.java` and a README.
pub fn maven_java_steps(p: Platform, project_name: &str, parent_dir: &str, target_dir: &str) -> (r:
    Vec<CreationStep>)
    ensures
        r.deep_view() == maven_java_steps_view(p, project_name@, parent_dir@, target_dir@),
{
    let files = vec![
        file_entry(p, target_dir, "pom.xml", maven_pom(project_name)),
        file_entry(p, target_dir, APP_JAVA_PATH, owned(maven_java_main_source())),
        file_entry(p, target_dir, "README.md", readme_content(project_name)),
    ];
    assert(files.deep_view() =~= seq![
        (join_path(p, target_dir@, "pom.xml"@), maven_pom_text(project_name@)),
        (join_path(p, target_dir@, APP_JAVA_PATH@), MAVEN_APP_SOURCE@),
        (join_path(p, target_dir@, "README.md"@), readme_text(project_name@)),
    ]);
    let r = vec![
        write_files_step(
            "Create Maven starter files",
            files,
            parent_dir,
            scaffold_display(project_name),
        ),
    ];
    assert(r.deep_view() =~= maven_java_steps_view(p, project_name@, parent_dir@, target_dir@));
    r
}

/// The `build.gradle` of a Gradle scaffold.
pub const GRADLE_BUILD_FILE: &'static str = r#"plugins {
    id 'application'
}

repositories {
    mavenCentral()
}

java {
    sourceCompatibility = JavaVersion.VERSION_17
    targetCompatibility = JavaVersion.VERSION_17
}

application {
    mainClass = 'com.prolaunch.app.App'
}
"#;

/// The `build.gradle` of a Gradle scaffold.
pub fn gradle_build_file() -> (r: &'static str)
    ensures
        r@ == GRADLE_BUILD_FILE@,
{
    GRADLE_BUILD_FILE
}

pub open spec fn gradle_settings_text(project_name: Seq<char>) -> Seq<char> {
    "rootProject.name = '"@ + project_name + "'\n"@
}

/// The `settings.gradle` of a Gradle scaffold.
pub fn gradle_settings(project_name: &str) -> (r: String)
    ensures
        r@ == gradle_settings_text(project_name@),
{
    concat3("rootProject.name = '", project_name, "'\n")
}

/// The steps that create a Gradle project.
pub open spec fn gradle_java_steps_view(
    p: Platform,
    project_name: Seq<char>,
    parent_dir: Seq<char>,
    target_dir: Seq<char>,
) -> Seq<StepView> {
    seq![
        write_step_view(
            "Create Gradle starter files"@,
            seq![
                (join_path(p, target_dir, "settings.gradle"@), gradle_settings_text(project_name)),
                (join_path(p, target_dir, "build.gradle"@), GRADLE_BUILD_FILE@),
                (join_path(p, target_dir, APP_JAVA_PATH@), MAVEN_APP_SOURCE@),
                (join_path(p, target_dir, "README.md"@), readme_text(project_name)),
            ],
            parent_dir,
            scaffold_text(project_name),
        ),
    ]
}

/// The steps that create a Gradle project: settings, build file, `App.java`
/// and a README.
pub fn gradle_java_steps(p: Platform, project_name: &str, parent_dir: &str, target_dir: &str) -> (r:
    Vec<CreationStep>)
    ensures
        r.deep_view() == gradle_java_steps_view(p, project_name@, parent_dir@, target_dir@),
{
    let files = vec![
        file_entry(p, target_dir, "settings.gradle", gradle_settings(project_name)),
        file_entry(p, target_dir, "build.gradle", owned(gradle_build_file())),
        file_entry(p, target_dir, APP_JAVA_PATH, owned(maven_java_main_source())),
        file_entry(p, target_dir, "README.md", readme_content(project_name)),
    ];
    assert(files.deep_view() =~= seq![
        (join_path(p, target_dir@, "settings.gradle"@), gradle_settings_text(project_name@)),
        (join_path(p, target_dir@, "build.gradle"@), GRADLE_BUILD_FILE@),
        (join_path(p, target_dir@, APP_JAVA_PATH@), MAVEN_APP_SOURCE@),
        (join_path(p, target_dir@, "README.md"@), readme_text(project_name@)),
    ]);
    let r = vec![
        write_files_step(
            "Create Gradle starter files",
            files,
            parent_dir,
            scaffold_display(project_name),
        ),
    ];
    assert(r.deep_view() =~= gradle_java_steps_view(p, project_name@, parent_dir@, target_dir@));
    r
}

/// The `App.java` of a Spring Boot scaffold.
pub const SPRING_BOOT_MAIN_SOURCE: &'static str = r#"package com.prolaunch.app;

import java.util.Map;

import org.springframework.boot.SpringApplication;
import org.springframework.boot.autoconfigure.SpringBootApplication;
import org.springframework.web.bind.annotation.GetMapping;
import org.springframework.web.bind.annotation.RestController;

@SpringBootApplication
@RestController
public class App {
    public static void main(String[] args) {
        SpringApplication.run(App.class, args);
    }

    @GetMapping("/")
    public Map<String, String> home() {
        return Map.of("message", "Hello from Spring Boot");
    }
}
"#;

/// The `App.java` of a Spring Boot scaffold.
pub fn spring_boot_main_source() -> (r: &'static str)
    ensures
        r@ == SPRING_BOOT_MAIN_SOURCE@,
{
    SPRING_BOOT_MAIN_SOURCE
}

/// The part of a Spring Boot `pom.xml` before the Spring Boot version.
pub const SPRING_POM_HEAD: &'static str = r#"<project xmlns="http://maven.apache.org/POM/4.0.0"
         xmlns:xsi="http://www.w3.org/2001/XMLSchema-instance"
         xsi:schemaLocation="http://maven.apache.org/POM/4.0.0 https://maven.apache.org/xsd/maven-4.0.0.xsd">
  <modelVersion>4.0.0</modelVersion>

  <parent>
    <groupId>org.springframework.boot</groupId>
    <artifactId>spring-boot-starter-parent</artifactId>
    <version>"#;

/// The part of a Spring Boot `pom.xml` between the version and the name.
pub const SPRING_POM_MIDDLE: &'static str = r#"</version>
    <relativePath/>
  </parent>

  <groupId>com.prolaunch</groupId>
  <artifactId>"#;

/// The part of a Spring Boot `pom.xml` after the project's name.
pub const SPRING_POM_TAIL: &'static str = r#"</artifactId>
  <version>0.1.0</version>

  <properties>
    <java.version>17</java.version>
  </properties>

  <dependencies>
    <dependency>
      <groupId>org.springframework.boot</groupId>
      <artifactId>spring-boot-starter-web</artifactId>
    </dependency>
  </dependencies>

  <build>
    <plugins>
      <plugin>
        <groupId>org.springframework.boot</groupId>
        <artifactId>spring-boot-maven-plugin</artifactId>
      </plugin>
    </plugins>
  </build>
</project>
"#;

pub open spec fn spring_boot_pom_text(project_name: Seq<char>) -> Seq<char> {
    SPRING_POM_HEAD@ + SPRING_BOOT_VERSION@ + SPRING_POM_MIDDLE@ + project_name + SPRING_POM_TAIL@
}

/// The `pom.xml` of a Spring Boot scaffold.
pub fn spring_boot_pom(project_name: &str) -> (r: String)
    ensures
        r@ == spring_boot_pom_text(project_name@),
{
    let mut r = concat3(SPRING_POM_HEAD, SPRING_BOOT_VERSION, SPRING_POM_MIDDLE);
    r.append(project_name);
    r.append(SPRING_POM_TAIL);
    r
}

/// The steps that create a Spring Boot project.
pub open spec fn spring_boot_steps_view(
    p: Platform,
    project_name: Seq<char>,
    parent_dir: Seq<char>,
    target_dir: Seq<char>,
) -> Seq<StepView> {
    seq![
        write_step_view(
            "Create Spring Boot starter files"@,
            seq![
                (join_path(p, target_dir, "pom.xml"@), spring_boot_pom_text(project_name)),
                (join_path(p, target_dir, APP_JAVA_PATH@), SPRING_BOOT_MAIN_SOURCE@),
                (join_path(p, target_dir, "README.md"@), readme_text(project_name)),
            ],
            parent_dir,
            scaffold_text(project_name),
        ),
        command_step_view(
            "Install Spring Boot dependencies"@,
            maven_program(p),
            seq!["-q"@, "dependency:resolve"@],
            target_dir,
            None,
        ),
    ]
}

/// The steps that create a Spring Boot project: its files, then resolving
/// its dependencies with Maven.
pub fn spring_boot_steps(p: Platform, project_name: &str, parent_dir: &str, target_dir: &str) -> (r:
    Vec<CreationStep>)
    ensures
        r.deep_view() == spring_boot_steps_view(p, project_name@, parent_dir@, target_dir@),
{
    let files = vec![
        file_entry(p, target_dir, "pom.xml", spring_boot_pom(project_name)),
        file_entry(p, target_dir, APP_JAVA_PATH, owned(spring_boot_main_source())),
        file_entry(p, target_dir, "README.md", readme_content(project_name)),
    ];
    assert(files.deep_view() =~= seq![
        (join_path(p, target_dir@, "pom.xml"@), spring_boot_pom_text(project_name@)),
        (join_path(p, target_dir@, APP_JAVA_PATH@), SPRING_BOOT_MAIN_SOURCE@),
        (join_path(p, target_dir@, "README.md"@), readme_text(project_name@)),
    ]);
    let args = vec!["-q", "dependency:resolve"];
    assert(args.deep_view() =~= seq!["-q"@, "dependency:resolve"@]);
    let r = vec![
        write_files_step(
            "Create Spring Boot starter files",
            files,
            parent_dir,
            scaffold_display(project_name),
        ),
        creation_step("Install Spring Boot dependencies", maven_bin(p), args, target_dir),
    ];
    assert(r.deep_view() =~= spring_boot_steps_view(p, project_name@, parent_dir@, target_dir@));
    r
}

/// Whether a folder entry is a Java source file.
pub fn is_java_source_name(file_name: &str) -> (r: bool)
    ensures
        r == (extension_of(file_name@) == Some("java"@)),
{
    has_extension(file_name, "java")
}

/// The name of a listed Java source that declares a `main` method.
pub open spec fn java_main_entry() -> spec_fn((Seq<char>, Option<Seq<char>>)) -> Option<Seq<char>> {
    |e: (Seq<char>, Option<Seq<char>>)|
        if extension_of(e.0) == Some("java"@) {
            match e.1 {
                Some(c) => if contains_text(c, "static void main"@) {
                    Some(e.0)
                } else {
                    None
                },
                None => None,
            }
        } else {
            None
        }
}

/// The file that runs a plain Java project: `Main.java` when it exists;
/// otherwise the first listed Java source whose text declares a `main`
/// method; none when the folder could not be listed.
pub open spec fn java_main_file_of(
    p: Platform,
    project_dir: Seq<char>,
    main_java_exists: bool,
    entries: Option<Seq<(Seq<char>, Option<Seq<char>>)>>,
) -> Option<Seq<char>> {
    if main_java_exists {
        Some(join_path(p, project_dir, "Main.java"@))
    } else {
        match entries {
            None => None,
            Some(es) => match find_map(es, java_main_entry()) {
                Some(name) => Some(join_path(p, project_dir, name)),
                None => None,
            },
        }
    }
}

/// The file that runs a plain Java project. The listing gives each file's
/// name and, for Java sources that could be read, its text.
pub fn find_java_main_file(
    p: Platform,
    project_dir: &str,
    main_java_exists: bool,
    entries: Option<&Vec<(String, Option<String>)>>,
) -> (r: Option<String>)
    ensures
        r.deep_view() == java_main_file_of(
            p,
            project_dir@,
            main_java_exists,
            match entries {
                Some(es) => Some(es.deep_view()),
                None => None,
            },
        ),
{
    if main_java_exists {
        return Some(join(p, project_dir, "Main.java"));
    }
    match entries {
        None => None,
        Some(es) => {
            let ghost f = java_main_entry();
            let ghost sv = es.deep_view();
            proof {
                lemma_find_map_start(sv, f);
            }
            let mut i: usize = 0;
            while i < es.len()
                invariant
                    entries == Some(es),
                    !main_java_exists,
                    f == java_main_entry(),
                    sv == es.deep_view(),
                    i <= es@.len(),
                    find_map(sv, f) == find_map(sv.skip(i as int), f),
                decreases es@.len() - i,
            {
                let ghost e = sv[i as int];
                assert(e.0 == es@[i as int].0@);
                assert(e.1 == es@[i as int].1.deep_view());
                let mut hit = false;
                if is_java_source_name(es[i].0.as_str()) {
                    match &es[i].1 {
                        Some(c) => {
                            hit = contains_str(c.as_str(), "static void main");
                        },
                        None => {},
                    }
                }
                assert(hit == f(e) is Some);
                if hit {
                    proof {
                        assert(f(e) == Some(es@[i as int].0@));
                        lemma_find_map_hit(sv, f, i as int);
                    }
                    return Some(join(p, project_dir, es[i].0.as_str()));
                }
                proof {
                    lemma_find_map_skip(sv, f, i as int);
                }
                i = i + 1;
            }
            proof {
                lemma_find_map_end(sv, f);
            }
            None
        },
    }
}

/// The class a main file runs: its file stem, `Main` when it has none.
pub open spec fn java_class_of(p: Platform, main_file: Seq<char>) -> Seq<char> {
    match file_stem(p, main_file) {
        Some(s) => s,
        None => "Main"@,
    }
}

/// The class a main file runs.
pub fn java_main_class(p: Platform, main_file: &str) -> (r: String)
    ensures
        r@ == java_class_of(p, main_file@),
{
    match path_file_name(p, main_file) {
        Some(n) => name_stem(n.as_str()),
        None => owned("Main"),
    }
}

/// A main file's name, `Main.java` when it has none.
pub open spec fn java_file_of(p: Platform, main_file: Seq<char>) -> Seq<char> {
    match file_name(p, main_file) {
        Some(n) => n,
        None => "Main.java"@,
    }
}

fn java_file_name(p: Platform, main_file: &str) -> (r: String)
    ensures
        r@ == java_file_of(p, main_file@),
{
    match path_file_name(p, main_file) {
        Some(n) => n,
        None => owned("Main.java"),
    }
}

/// The command a plain Java project's `start` script shows: compile the
/// main file, then run its class.
pub open spec fn java_command_text(p: Platform, main_file: Seq<char>) -> Seq<char> {
    "javac "@ + java_file_of(p, main_file) + " && java "@ + java_class_of(p, main_file)
}

/// The command a plain Java project's `start` script shows.
pub fn java_main_command(p: Platform, main_file: &str) -> (r: String)
    ensures
        r@ == java_command_text(p, main_file@),
{
    let file_name = java_file_name(p, main_file);
    let class_name = java_main_class(p, main_file);
    let mut r = concat("javac ", file_name.as_str());
    r.append(" && java ");
    r.append(class_name.as_str());
    r
}

/// The shell command line that compiles and runs a Java main file, every
/// word quoted.
pub open spec fn java_command_line_text(p: Platform, main_file: Seq<char>) -> Seq<char> {
    shell_quoted(p, javac_program(p)) + " "@ + shell_quoted(p, java_file_of(p, main_file))
        + " && "@ + shell_quoted(p, java_program(p)) + " "@ + shell_quoted(
        p,
        java_class_of(p, main_file),
    )
}

/// The shell command line that compiles and runs a Java main file.
pub fn java_main_command_line(p: Platform, main_file: &str) -> (r: String)
    ensures
        r@ == java_command_line_text(p, main_file@),
{
    let file_name = java_file_name(p, main_file);
    let class_name = java_main_class(p, main_file);
    let mut r = shell_quote(p, javac_bin(p).as_str());
    r.append(" ");
    r.append(shell_quote(p, file_name.as_str()).as_str());
    r.append(" && ");
    r.append(shell_quote(p, java_bin(p).as_str()).as_str());
    r.append(" ");
    r.append(shell_quote(p, class_name.as_str()).as_str());
    r
}

/// The one script of a plain Java project: `start`, read from its main file.
pub fn java_main_scripts(p: Platform, main_file: &str) -> (r: Vec<ScriptInfo>)
    ensures
        r.deep_view() == seq![
            script_view(
                "start"@,
                java_command_text(p, main_file@),
                "java"@,
                java_file_of(p, main_file@),
            ),
        ],
{
    let source = java_file_name(p, main_file);
    let command = java_main_command(p, main_file);
    let r = vec![script_info("start", command.as_str(), "java", source.as_str())];
    assert(r.deep_view() =~= seq![r@[0].deep_view()]);
    r
}

/// The trimmed text between the first `<tag>` and the next `</tag>`.
pub open spec fn xml_text(content: Seq<char>, tag: Seq<char>) -> Option<Seq<char>> {
    let open = "<"@ + tag + ">"@;
    let close = "</"@ + tag + ">"@;
    match find_text(content, open) {
        Some(a) => {
            let vs = a + open.len();
            match find_text(content.skip(vs), close) {
                Some(b) => Some(trim(content.subrange(vs, vs + b))),
                None => None,
            }
        },
        None => None,
    }
}

/// The text of the first `<tag>` element of an XML text.
#[verifier::rlimit(40)]
pub fn xml_first_text(content: &str, tag: &str) -> (r: Option<String>)
    ensures
        r.deep_view() == xml_text(content@, tag@),
{
    let open = concat3("<", tag, ">");
    let close = concat3("</", tag, ">");
    let cs = chars_of(content);
    let os = chars_of(open.as_str());
    let ls = chars_of(close.as_str());
    match find_exec(&cs, &os) {
        None => None,
        Some(a) => {
            proof {
                lemma_find_text_occurs(cs@, os@);
            }
            assert(cs@.len() == cs.len());
            let vs = a + os.len();
            let rest = chars_from(&cs, vs);
            match find_exec(&rest, &ls) {
                None => None,
                Some(b) => {
                    proof {
                        lemma_find_text_occurs(rest@, ls@);
                    }
                    assert(rest@.len() == rest.len());
                    assert(vs + b <= cs@.len());
                    let (x, y) = trim_window(&cs, vs, vs + b, CharClass::Whitespace);
                    Some(string_of_range(&cs, x, y))
                },
            }
        },
    }
}

/// The part of a `pom.xml` after its `</parent>` block, or all of it.
pub open spec fn pom_project_section(content: Seq<char>) -> Seq<char> {
    match find_text(content, "</parent>"@) {
        Some(i) => content.skip(i + 9),
        None => content,
    }
}

/// A Maven project's name: its own `artifactId`, or its folder's name.
pub open spec fn maven_name(p: Platform, project_dir: Seq<char>, content: Seq<char>) -> Seq<char> {
    match xml_text(pom_project_section(content), "artifactId"@) {
        Some(n) => n,
        None => folder_project_name(p, project_dir),
    }
}

/// A Maven project's name.
#[verifier::rlimit(40)]
pub fn maven_project_name(p: Platform, project_dir: &str, content: &str) -> (r: String)
    ensures
        r@ == maven_name(p, project_dir@, content@),
{
    let cs = chars_of(content);
    let ps = chars_of("</parent>");
    proof {
        reveal_strlit("</parent>");
    }
    let section = match find_exec(&cs, &ps) {
        Some(i) => {
            proof {
                lemma_find_text_occurs(cs@, ps@);
            }
            assert(cs@.len() == cs.len());
            let rest = chars_from(&cs, i + 9);
            crate::text::string_of_chars(&rest)
        },
        None => owned(content),
    };
    match xml_first_text(section.as_str(), "artifactId") {
        Some(n) => n,
        None => python_folder_project_name(p, project_dir),
    }
}

/// A valid project name holds no `<`, is not empty and has no surrounding
/// whitespace.
proof fn lemma_valid_name_shape(n: Seq<char>)
    requires
        project_name_error(n) is None,
    ensures
        n.len() > 0,
        trim(n) == n,
        forall|i: int| 0 <= i < n.len() ==> n[i] != '<',
{
    assert forall|i: int| 0 <= i < n.len() implies n[i] != '<' by {
        if n[i] == '<' {
            assert(!is_name_char(trim(n)[i]));
        }
    }
}

/// After a text without `<`, a tail that starts with `close` (which starts
/// with `<`) holds the first occurrence of `close` where the tail starts.
proof fn lemma_close_after_name(n: Seq<char>, tail: Seq<char>, close: Seq<char>)
    requires
        forall|i: int| 0 <= i < n.len() ==> n[i] != '<',
        close.len() > 0,
        close[0] == '<',
        starts_with(tail, close),
    ensures
        find_text(n + tail, close) == Some(n.len() as int),
{
    let s = n + tail;
    assert(s.subrange(n.len() as int, (n.len() + close.len()) as int) =~= tail.subrange(
        0,
        close.len() as int,
    ));
    assert forall|j: int| 0 <= j < n.len() implies !occurs_at(s, close, j) by {
        if occurs_at(s, close, j) {
            assert(s.subrange(j, j + close.len())[0] == close[0]);
            assert(s[j] == n[j]);
        }
    }
    lemma_first_occurrence(s, close, n.len() as int);
}

/// Where `<` stands in the head of a Maven scaffold's `pom.xml`: never
/// before `</pa`, nor before `<a` until its own `<artifactId>` at the end.
proof fn lemma_maven_head_shape()
    ensures
        MAVEN_POM_HEAD@.len() == 311,
        MAVEN_POM_HEAD@.subrange(299, 311) == "<"@ + "artifactId"@ + ">"@,
        forall|j: int|
            0 <= j < 311 && #[trigger] MAVEN_POM_HEAD@[j] == '<' ==> j + 3 < 311 && !(
            MAVEN_POM_HEAD@[j + 1] == '/' && MAVEN_POM_HEAD@[j + 2] == 'p' && MAVEN_POM_HEAD@[j + 3]
                == 'a') && (j < 299 ==> MAVEN_POM_HEAD@[j + 1] != 'a'),
{
    reveal_strlit(r#"<project xmlns="http://maven.apache.org/POM/4.0.0"
         xmlns:xsi="http://www.w3.org/2001/XMLSchema-instance"
         xsi:schemaLocation="http://maven.apache.org/POM/4.0.0 https://maven.apache.org/xsd/maven-4.0.0.xsd">
  <modelVersion>4.0.0</modelVersion>

  <groupId>com.prolaunch</groupId>
  <artifactId>"#);
    reveal_strlit("artifactId");
    reveal_strlit("<");
    reveal_strlit(">");
    let h = MAVEN_POM_HEAD@;
    assert(h.subrange(299, 311) =~= "<"@ + "artifactId"@ + ">"@);
    assert forall|j: int| 0 <= j < 311 && #[trigger] h[j] == '<' implies j + 3 < 311 && !(h[j + 1]
        == '/' && h[j + 2] == 'p' && h[j + 3] == 'a') && (j < 299 ==> h[j + 1] != 'a') by {}
}

/// Where `<` stands in the tail of a Maven scaffold's `pom.xml`: never
/// before `</pa`; the tail starts with `</artifactId>`.
proof fn lemma_maven_tail_shape()
    ensures
        starts_with(MAVEN_POM_TAIL@, "</"@ + "artifactId"@ + ">"@),
        forall|j: int|
            0 <= j < MAVEN_POM_TAIL@.len() && #[trigger] MAVEN_POM_TAIL@[j] == '<' ==> j + 3
                < MAVEN_POM_TAIL@.len() && !(MAVEN_POM_TAIL@[j + 1] == '/' && MAVEN_POM_TAIL@[j + 2]
                == 'p' && MAVEN_POM_TAIL@[j + 3] == 'a'),
{
    reveal_strlit(r#"</artifactId>
  <version>0.1.0</version>

  <properties>
    <maven.compiler.source>17</maven.compiler.source>
    <maven.compiler.target>17</maven.compiler.target>
    <project.build.sourceEncoding>UTF-8</project.build.sourceEncoding>
  </properties>

  <build>
    <plugins>
      <plugin>
        <groupId>org.codehaus.mojo</groupId>
        <artifactId>exec-maven-plugin</artifactId>
        <version>3.5.0</version>
        <configuration>
          <mainClass>com.prolaunch.app.App</mainClass>
        </configuration>
      </plugin>
    </plugins>
  </build>
</project>
"#);
    reveal_strlit("artifactId");
    reveal_strlit(">");
    reveal_strlit("</");
    let t = MAVEN_POM_TAIL@;
    assert(t.subrange(0, 13) =~= "</"@ + "artifactId"@ + ">"@);
    assert forall|j: int| 0 <= j < t.len() && #[trigger] t[j] == '<' implies j + 3 < t.len() && !(
    t[j + 1] == '/' && t[j + 2] == 'p' && t[j + 3] == 'a') by {}
}

/// The name that a Maven scaffold writes into its `pom.xml` is the one read
/// back from it.
proof fn lemma_maven_pom_name(p: Platform, project_dir: Seq<char>, n: Seq<char>)
    requires
        project_name_error(n) is None,
    ensures
        maven_name(p, project_dir, maven_pom_text(n)) == n,
{
    reveal_strlit("</parent>");
    reveal_strlit("artifactId");
    reveal_strlit("<");
    reveal_strlit(">");
    reveal_strlit("</");
    lemma_valid_name_shape(n);
    lemma_maven_head_shape();
    lemma_maven_tail_shape();
    let h = MAVEN_POM_HEAD@;
    let t = MAVEN_POM_TAIL@;
    let s = maven_pom_text(n);
    let hn = h.len() as int;
    let m = n.len() as int;
    let pp = "</parent>"@;
    assert forall|j: int| !occurs_at(s, pp, j) by {
        if occurs_at(s, pp, j) {
            let w = s.subrange(j, j + 9);
            assert(w[0] == '<' && w[1] == '/' && w[2] == 'p' && w[3] == 'a');
            if j < hn {
                assert(s[j] == h[j]);
                assert(s[j + 1] == h[j + 1] && s[j + 2] == h[j + 2] && s[j + 3] == h[j + 3]);
            } else if j < hn + m {
                assert(s[j] == n[j - hn]);
            } else {
                assert(s[j] == t[j - hn - m]);
                assert(s[j + 1] == t[j + 1 - hn - m] && s[j + 2] == t[j + 2 - hn - m] && s[j + 3]
                    == t[j + 3 - hn - m]);
            }
        }
    }
    reveal(find_text);
    assert(pom_project_section(s) == s);
    let open = "<"@ + "artifactId"@ + ">"@;
    let close = "</"@ + "artifactId"@ + ">"@;
    assert(s.subrange(299, 311) =~= h.subrange(299, 311));
    assert forall|j: int| 0 <= j < 299 implies !occurs_at(s, open, j) by {
        if occurs_at(s, open, j) {
            let w = s.subrange(j, j + 12);
            assert(w[0] == open[0] && w[1] == open[1]);
            assert(s[j] == h[j] && s[j + 1] == h[j + 1]);
        }
    }
    lemma_first_occurrence(s, open, 299);
    assert(s.skip(311) =~= n + t);
    lemma_close_after_name(n, t, close);
    assert(s.subrange(311, 311 + m) =~= n);
}

/// The name that a Spring Boot scaffold writes into its `pom.xml` is the one
/// read back from it: the starter parent's `artifactId` comes before
/// `</parent>` and is skipped.
proof fn lemma_spring_pom_name(p: Platform, project_dir: Seq<char>, n: Seq<char>)
    requires
        project_name_error(n) is None,
    ensures
        maven_name(p, project_dir, spring_boot_pom_text(n)) == n,
{
    reveal_strlit(r#"<project xmlns="http://maven.apache.org/POM/4.0.0"
         xmlns:xsi="http://www.w3.org/2001/XMLSchema-instance"
         xsi:schemaLocation="http://maven.apache.org/POM/4.0.0 https://maven.apache.org/xsd/maven-4.0.0.xsd">
  <modelVersion>4.0.0</modelVersion>

  <parent>
    <groupId>org.springframework.boot</groupId>
    <artifactId>spring-boot-starter-parent</artifactId>
    <version>"#);
    reveal_strlit("3.5.14");
    reveal_strlit(r#"</version>
    <relativePath/>
  </parent>

  <groupId>com.prolaunch</groupId>
  <artifactId>"#);
    reveal_strlit(r#"</artifactId>
  <version>0.1.0</version>

  <properties>
    <java.version>17</java.version>
  </properties>

  <dependencies>
    <dependency>
      <groupId>org.springframework.boot</groupId>
      <artifactId>spring-boot-starter-web</artifactId>
    </dependency>
  </dependencies>

  <build>
    <plugins>
      <plugin>
        <groupId>org.springframework.boot</groupId>
        <artifactId>spring-boot-maven-plugin</artifactId>
      </plugin>
    </plugins>
  </build>
</project>
"#);
    reveal_strlit("</parent>");
    reveal_strlit("artifactId");
    reveal_strlit("<");
    reveal_strlit(">");
    reveal_strlit("</");
    lemma_valid_name_shape(n);
    let x = SPRING_POM_HEAD@ + SPRING_BOOT_VERSION@ + SPRING_POM_MIDDLE@;
    let t = SPRING_POM_TAIL@;
    let s = spring_boot_pom_text(n);
    let m = n.len() as int;
    assert(s =~= x + n + t);
    assert(x.len() == 489);
    assert forall|j: int| 0 <= j < 429 && #[trigger] x[j] == '<' implies !(x[j + 1] == '/' && x[j
        + 2] == 'p' && x[j + 3] == 'a') by {}
    let pp = "</parent>"@;
    assert(s.subrange(429, 438) =~= pp);
    assert forall|j: int| 0 <= j < 429 implies !occurs_at(s, pp, j) by {
        if occurs_at(s, pp, j) {
            let w = s.subrange(j, j + 9);
            assert(w[0] == '<' && w[1] == '/' && w[2] == 'p' && w[3] == 'a');
            assert(s[j] == x[j] && s[j + 1] == x[j + 1] && s[j + 2] == x[j + 2] && s[j + 3] == x[j
                + 3]);
        }
    }
    lemma_first_occurrence(s, pp, 429);
    let y = x.skip(438);
    let sec = pom_project_section(s);
    assert(sec =~= y + n + t);
    assert(y.len() == 51);
    assert forall|j: int| 0 <= j < 39 && #[trigger] y[j] == '<' implies y[j + 1] != 'a' by {}
    let open = "<"@ + "artifactId"@ + ">"@;
    let close = "</"@ + "artifactId"@ + ">"@;
    assert(sec.subrange(39, 51) =~= open);
    assert forall|j: int| 0 <= j < 39 implies !occurs_at(sec, open, j) by {
        if occurs_at(sec, open, j) {
            let w = sec.subrange(j, j + 12);
            assert(w[0] == '<' && w[1] == 'a');
            assert(sec[j] == y[j] && sec[j + 1] == y[j + 1]);
        }
    }
    lemma_first_occurrence(sec, open, 39);
    assert(sec.skip(51) =~= n + t);
    assert(t.subrange(0, 13) =~= close);
    lemma_close_after_name(n, t, close);
    assert(sec.subrange(51, 51 + m) =~= n);
}

/// A Maven or Spring Boot scaffold reads back as the project it was created
/// for: the name written into its `pom.xml` is the name that the launcher
/// shows for the folder, whatever folder it lies in.
pub proof fn law_maven_name_round_trip(p: Platform, project_dir: Seq<char>, n: Seq<char>)
    requires
        project_name_error(n) is None,
    ensures
        maven_name(p, project_dir, maven_pom_text(n)) == n,
        maven_name(p, project_dir, spring_boot_pom_text(n)) == n,
{
    lemma_maven_pom_name(p, project_dir, n);
    lemma_spring_pom_name(p, project_dir, n);
}

/// The program that runs Maven in a project: its wrapper when it has one,
/// `mvn` otherwise.
pub open spec fn maven_tool_view(p: Platform, project_dir: Seq<char>, wrapper_exists: bool) -> ToolView {
    ToolView {
        program: if wrapper_exists {
            join_path(p, project_dir, by_platform(p, "mvnw"@, "mvnw.cmd"@))
        } else {
            maven_program(p)
        },
        args: Seq::empty(),
    }
}

/// The program that runs Maven in a project.
pub fn maven_command(p: Platform, project_dir: &str, wrapper_exists: bool) -> (r: ToolCommand)
    ensures
        r.deep_view() == maven_tool_view(p, project_dir@, wrapper_exists),
{
    let program = if wrapper_exists {
        join(p, project_dir, pick(p, "mvnw", "mvnw.cmd").as_str())
    } else {
        maven_bin(p)
    };
    let r = ToolCommand { program, args: Vec::new() };
    assert(r.deep_view().args =~= Seq::<Seq<char>>::empty());
    r
}

/// The program that runs Gradle in a project: its wrapper when it has one,
/// `gradle` otherwise.
pub open spec fn gradle_tool_view(p: Platform, project_dir: Seq<char>, wrapper_exists: bool) -> ToolView {
    ToolView {
        program: if wrapper_exists {
            join_path(p, project_dir, by_platform(p, "gradlew"@, "gradlew.bat"@))
        } else {
            gradle_program(p)
        },
        args: Seq::empty(),
    }
}

/// The program that runs Gradle in a project.
pub fn gradle_command(p: Platform, project_dir: &str, wrapper_exists: bool) -> (r: ToolCommand)
    ensures
        r.deep_view() == gradle_tool_view(p, project_dir@, wrapper_exists),
{
    let program = if wrapper_exists {
        join(p, project_dir, pick(p, "gradlew", "gradlew.bat").as_str())
    } else {
        gradle_bin(p)
    };
    let r = ToolCommand { program, args: Vec::new() };
    assert(r.deep_view().args =~= Seq::<Seq<char>>::empty());
    r
}

/// The Maven goals of a script: Spring Boot or exec plugin runs for `dev`
/// and `start`, and the goal of the same name for `test`, `package`, `clean`.
pub open spec fn maven_args_of(content: Seq<char>, script_name: Seq<char>) -> Option<Seq<Seq<char>>> {
    let is_spring = contains_text(content, "spring-boot-maven-plugin"@) || contains_text(
        content,
        "spring-boot-starter"@,
    ) || contains_text(content, "spring-boot"@);
    let has_exec = contains_text(content, "exec-maven-plugin"@);
    let run = script_name == "dev"@ || script_name == "start"@;
    if run && is_spring {
        Some(seq!["spring-boot:run"@])
    } else if run && has_exec {
        Some(seq!["exec:java"@])
    } else if script_name == "test"@ {
        Some(seq!["test"@])
    } else if script_name == "package"@ {
        Some(seq!["package"@])
    } else if script_name == "clean"@ {
        Some(seq!["clean"@])
    } else {
        None
    }
}

/// The Maven goals of a script, read from the text of `pom.xml`.
pub fn maven_script_args(content: &str, script_name: &str) -> (r: Option<Vec<&'static str>>)
    ensures
        r.deep_view() == maven_args_of(content@, script_name@),
{
    let is_spring = contains_str(content, "spring-boot-maven-plugin") || contains_str(
        content,
        "spring-boot-starter",
    ) || contains_str(content, "spring-boot");
    let has_exec = contains_str(content, "exec-maven-plugin");
    let run = str_eq(script_name, "dev") || str_eq(script_name, "start");
    let r = if run && is_spring {
        Some(vec!["spring-boot:run"])
    } else if run && has_exec {
        Some(vec!["exec:java"])
    } else if str_eq(script_name, "test") {
        Some(vec!["test"])
    } else if str_eq(script_name, "package") {
        Some(vec!["package"])
    } else if str_eq(script_name, "clean") {
        Some(vec!["clean"])
    } else {
        None
    };
    proof {
        if r is Some {
            assert(r->0.deep_view() =~= maven_args_of(content@, script_name@)->0);
        }
    }
    r
}

/// The script a named run gives: the tool's display name and its arguments.
pub open spec fn tool_script_of(
    display: Seq<char>,
    args: Option<Seq<Seq<char>>>,
    name: Seq<char>,
    package_manager: Seq<char>,
    source: Seq<char>,
) -> Option<ScriptView> {
    match args {
        Some(a) => Some(script_view(name, display + " "@ + join_words(a), package_manager, source)),
        None => None,
    }
}

/// The script names a Maven project can offer, in order.
pub open spec fn maven_script_names() -> Seq<Seq<char>> {
    seq!["dev"@, "start"@, "test"@, "package"@, "clean"@]
}

/// The scripts of a Maven project: each of `dev`, `start`, `test`,
/// `package`, `clean` that has goals, run by the project's Maven program.
pub open spec fn maven_scripts_view(
    p: Platform,
    project_dir: Seq<char>,
    wrapper_exists: bool,
    content: Seq<char>,
) -> Seq<ScriptView> {
    let display = display_name(p, maven_tool_view(p, project_dir, wrapper_exists));
    filter_map_seq(
        maven_script_names(),
        |n: Seq<char>| tool_script_of(display, maven_args_of(content, n), n, "maven"@, "pom.xml"@),
    )
}

fn owned_strs(v: Vec<&str>) -> (r: Vec<String>)
    ensures
        r.deep_view() == v.deep_view(),
{
    let mut out: Vec<String> = Vec::new();
    let mut i: usize = 0;
    while i < v.len()
        invariant
            i <= v@.len(),
            out@.len() == i,
            forall|k: int| 0 <= k < i ==> #[trigger] out@[k]@ == v@[k]@,
        decreases v@.len() - i,
    {
        out.push(owned(v[i]));
        i = i + 1;
    }
    assert(out.deep_view() =~= v.deep_view());
    out
}

/// The scripts of a Maven project.
pub fn maven_scripts(p: Platform, project_dir: &str, wrapper_exists: bool, content: &str) -> (r:
    Vec<ScriptInfo>)
    ensures
        r.deep_view() == maven_scripts_view(p, project_dir@, wrapper_exists, content@),
{
    let tool = maven_command(p, project_dir, wrapper_exists);
    let display = command_display(p, &tool);
    let names = vec!["dev", "start", "test", "package", "clean"];
    let ghost ns = maven_script_names();
    assert(names.deep_view() =~= ns);
    let ghost f = |n: Seq<char>|
        tool_script_of(display@, maven_args_of(content@, n), n, "maven"@, "pom.xml"@);
    let mut out: Vec<ScriptInfo> = Vec::new();
    let mut i: usize = 0;
    while i < names.len()
        invariant
            i <= names@.len(),
            names.deep_view() == ns,
            ns == maven_script_names(),
            f == (|n: Seq<char>|
                tool_script_of(display@, maven_args_of(content@, n), n, "maven"@, "pom.xml"@)),
            out.deep_view() == filter_map_seq(ns.take(i as int), f),
        decreases names@.len() - i,
    {
        proof {
            lemma_filter_map_step(ns, f, i as int);
            assert(ns[i as int] == names@[i as int]@);
        }
        match maven_script_args(content, names[i]) {
            Some(args) => {
                let words = owned_strs(args);
                let mut command = concat(display.as_str(), " ");
                command.append(join_with_spaces(&words).as_str());
                let ghost before = out.deep_view();
                let item = script_info(names[i], command.as_str(), "maven", "pom.xml");
                let ghost v = item.deep_view();
                out.push(item);
                assert(out.deep_view() =~= before.push(v));
            },
            None => {},
        }
        i = i + 1;
    }
    proof {
        lemma_take_all(ns);
    }
    out
}

/// A Maven project read from the text of its `pom.xml`.
pub fn read_maven_project(
    project_path: String,
    p: Platform,
    project_dir: &str,
    content: &str,
    wrapper_exists: bool,
) -> (r: ProjectInfo)
    ensures
        r.name@ == maven_name(p, project_dir@, content@),
        r.path@ == project_path@,
        r.scripts.deep_view() == maven_scripts_view(p, project_dir@, wrapper_exists, content@),
        r.package_manager@ == "maven"@,
{
    let name = maven_project_name(p, project_dir, content);
    ProjectInfo {
        name,
        path: project_path,
        scripts: maven_scripts(p, project_dir, wrapper_exists, content),
        package_manager: owned("maven"),
    }
}

/// The value a `rootProject.name = ...` line gives: after the first `=`,
/// trimmed and stripped of quotes.
pub open spec fn settings_line_value() -> spec_fn(Seq<char>) -> Option<Seq<char>> {
    |line: Seq<char>|
        {
            let t = trim(line);
            if starts_with(t, "rootProject.name"@) {
                let rest = t.skip(16);
                match find_text(rest, "="@) {
                    Some(k) => Some(trim_class(trim(rest.skip(k + 1)), CharClass::Quote)),
                    None => None,
                }
            } else {
                None
            }
        }
}

/// A Gradle project's name: the value of the first `rootProject.name` line
/// of its settings, when that is not empty; otherwise its folder's name.
pub open spec fn gradle_name(
    p: Platform,
    project_dir: Seq<char>,
    settings: Option<Seq<char>>,
) -> Seq<char> {
    let found = match settings {
        Some(c) => find_map(lines(c), settings_line_value()),
        None => None,
    };
    match found {
        Some(n) => if n.len() > 0 {
            n
        } else {
            folder_project_name(p, project_dir)
        },
        None => folder_project_name(p, project_dir),
    }
}

/// The first `=` in `cs[lo..hi]`, as a position in `cs`.
fn find_equals(cs: &Vec<char>, lo: usize, hi: usize) -> (r: Option<usize>)
    requires
        lo <= hi <= cs@.len(),
    ensures
        r matches Some(k) ==> lo <= k < hi && find_text(cs@.subrange(lo as int, hi as int), "="@)
            == Some(k - lo),
        r is None ==> find_text(cs@.subrange(lo as int, hi as int), "="@) is None,
{
    let w = crate::text::string_of_range(cs, lo, hi);
    let ws = chars_of(w.as_str());
    let eq = chars_of("=");
    proof {
        reveal_strlit("=");
    }
    match find_exec(&ws, &eq) {
        Some(k) => {
            proof {
                lemma_find_text_occurs(ws@, eq@);
            }
            Some(lo + k)
        },
        None => None,
    }
}

/// The value of the first `rootProject.name` line of a settings text.
fn settings_root_name(content: &str) -> (r: Option<String>)
    ensures
        r.deep_view() == find_map(lines(content@), settings_line_value()),
{
    let (cs, ws) = lines_of(content);
    let pre = chars_of("rootProject.name");
    proof {
        reveal_strlit("rootProject.name");
    }
    let ghost f = settings_line_value();
    let ghost ls = lines(content@);
    proof {
        lemma_find_map_start(ls, f);
    }
    let mut i: usize = 0;
    while i < ws.len()
        invariant
            cs@ == content@,
            pre@ == "rootProject.name"@,
            pre@.len() == 16,
            f == settings_line_value(),
            ls == lines(content@),
            forall|k: int| #![trigger ws@[k]] 0 <= k < ws@.len() ==> ws@[k].0 <= ws@[k].1 && ws@[k].1 <= cs@.len(),
            window_texts(cs@, ws@) == ls,
            i <= ws@.len(),
            find_map(ls, f) == find_map(ls.skip(i as int), f),
        decreases ws@.len() - i,
    {
        let (lo, hi) = ws[i];
        proof {
            lemma_window_line(cs@, ws@, i as int);
        }
        let ghost line = ls[i as int];
        let mut found: Option<String> = None;
        let (a, b) = trim_window(&cs, lo, hi, CharClass::Whitespace);
        if window_starts_with(&cs, a, b, &pre) {
            proof {
                assert(trim(line).skip(16) =~= cs@.subrange(a + 16, b as int));
            }
            match find_equals(&cs, a + 16, b) {
                Some(k) => {
                    let (c, d) = trim_window(&cs, k + 1, b, CharClass::Whitespace);
                    let (e, g) = trim_window(&cs, c, d, CharClass::Quote);
                    proof {
                        assert(cs@.subrange(a + 16, b as int).skip(k - (a + 16) + 1) =~= cs@.subrange(
                            k + 1,
                            b as int,
                        ));
                    }
                    found = Some(string_of_range(&cs, e, g));
                },
                None => {},
            }
        }
        proof {
            assert(found.deep_view() == f(line));
        }
        if found.is_some() {
            proof {
                lemma_find_map_hit(ls, f, i as int);
            }
            return found;
        }
        proof {
            lemma_find_map_skip(ls, f, i as int);
        }
        i = i + 1;
    }
    proof {
        reveal(window_texts);
        lemma_find_map_end(ls, f);
    }
    None
}

/// A Gradle project's name, from the text of its settings file when it could
/// be read.
pub fn gradle_project_name(p: Platform, project_dir: &str, settings: Option<&str>) -> (r: String)
    ensures
        r@ == gradle_name(
            p,
            project_dir@,
            match settings {
                Some(c) => Some(c@),
                None => None,
            },
        ),
{
    let found = match settings {
        Some(c) => settings_root_name(c),
        None => None,
    };
    match found {
        Some(n) => if n.as_str().unicode_len() > 0 {
            n
        } else {
            python_folder_project_name(p, project_dir)
        },
        None => python_folder_project_name(p, project_dir),
    }
}

/// The Gradle tasks of a script: Spring Boot or application runs for `dev`
/// and `start`, and the task of the same name for `test`, `build`, `clean`.
pub open spec fn gradle_args_of(content: Seq<char>, script_name: Seq<char>) -> Option<Seq<Seq<char>>> {
    let is_spring = contains_text(content, "org.springframework.boot"@) || contains_text(
        content,
        "spring-boot-starter"@,
    ) || contains_text(content, "bootRun"@);
    let has_application = contains_text(content, "application"@) || contains_text(
        content,
        "mainClass"@,
    );
    let run = script_name == "dev"@ || script_name == "start"@;
    if run && is_spring {
        Some(seq!["bootRun"@])
    } else if run && has_application {
        Some(seq!["run"@])
    } else if script_name == "test"@ {
        Some(seq!["test"@])
    } else if script_name == "build"@ {
        Some(seq!["build"@])
    } else if script_name == "clean"@ {
        Some(seq!["clean"@])
    } else {
        None
    }
}

/// The Gradle tasks of a script, read from the text of the build file.
pub fn gradle_script_args(content: &str, script_name: &str) -> (r: Option<Vec<&'static str>>)
    ensures
        r.deep_view() == gradle_args_of(content@, script_name@),
{
    let is_spring = contains_str(content, "org.springframework.boot") || contains_str(
        content,
        "spring-boot-starter",
    ) || contains_str(content, "bootRun");
    let has_application = contains_str(content, "application") || contains_str(
        content,
        "mainClass",
    );
    let run = str_eq(script_name, "dev") || str_eq(script_name, "start");
    let r = if run && is_spring {
        Some(vec!["bootRun"])
    } else if run && has_application {
        Some(vec!["run"])
    } else if str_eq(script_name, "test") {
        Some(vec!["test"])
    } else if str_eq(script_name, "build") {
        Some(vec!["build"])
    } else if str_eq(script_name, "clean") {
        Some(vec!["clean"])
    } else {
        None
    };
    proof {
        if r is Some {
            assert(r->0.deep_view() =~= gradle_args_of(content@, script_name@)->0);
        }
    }
    r
}

/// The script names a Gradle project can offer, in order.
pub open spec fn gradle_script_names() -> Seq<Seq<char>> {
    seq!["dev"@, "start"@, "test"@, "build"@, "clean"@]
}

/// The scripts of a Gradle project: each of `dev`, `start`, `test`, `build`,
/// `clean` that has tasks, run by the project's Gradle program.
pub open spec fn gradle_scripts_view(
    p: Platform,
    project_dir: Seq<char>,
    wrapper_exists: bool,
    content: Seq<char>,
    source: Seq<char>,
) -> Seq<ScriptView> {
    let display = display_name(p, gradle_tool_view(p, project_dir, wrapper_exists));
    filter_map_seq(
        gradle_script_names(),
        |n: Seq<char>| tool_script_of(display, gradle_args_of(content, n), n, "gradle"@, source),
    )
}

/// The scripts of a Gradle project.
pub fn gradle_scripts(
    p: Platform,
    project_dir: &str,
    wrapper_exists: bool,
    content: &str,
    source: &str,
) -> (r: Vec<ScriptInfo>)
    ensures
        r.deep_view() == gradle_scripts_view(p, project_dir@, wrapper_exists, content@, source@),
{
    let tool = gradle_command(p, project_dir, wrapper_exists);
    let display = command_display(p, &tool);
    let names = vec!["dev", "start", "test", "build", "clean"];
    let ghost ns = gradle_script_names();
    assert(names.deep_view() =~= ns);
    let ghost f = |n: Seq<char>|
        tool_script_of(display@, gradle_args_of(content@, n), n, "gradle"@, source@);
    let mut out: Vec<ScriptInfo> = Vec::new();
    let mut i: usize = 0;
    while i < names.len()
        invariant
            i <= names@.len(),
            names.deep_view() == ns,
            ns == gradle_script_names(),
            f == (|n: Seq<char>|
                tool_script_of(display@, gradle_args_of(content@, n), n, "gradle"@, source@)),
            out.deep_view() == filter_map_seq(ns.take(i as int), f),
        decreases names@.len() - i,
    {
        proof {
            lemma_filter_map_step(ns, f, i as int);
            assert(ns[i as int] == names@[i as int]@);
        }
        match gradle_script_args(content, names[i]) {
            Some(args) => {
                let words = owned_strs(args);
                let mut command = concat(display.as_str(), " ");
                command.append(join_with_spaces(&words).as_str());
                let ghost before = out.deep_view();
                let item = script_info(names[i], command.as_str(), "gradle", source);
                let ghost v = item.deep_view();
                out.push(item);
                assert(out.deep_view() =~= before.push(v));
            },
            None => {},
        }
        i = i + 1;
    }
    proof {
        lemma_take_all(ns);
    }
    out
}

/// The build file a Gradle project's scripts come from: the file name of its
/// path, `build.gradle` when it has none.
pub open spec fn gradle_source_of(p: Platform, build_path: Seq<char>) -> Seq<char> {
    match file_name(p, build_path) {
        Some(n) => n,
        None => "build.gradle"@,
    }
}

/// A Gradle project read from the text of its build file and, when it could
/// be read, of its settings file.
pub fn read_gradle_project(
    project_path: String,
    p: Platform,
    project_dir: &str,
    wrapper_exists: bool,
    build_path: &str,
    content: &str,
    settings: Option<&str>,
) -> (r: ProjectInfo)
    ensures
        r.name@ == gradle_name(
            p,
            project_dir@,
            match settings {
                Some(c) => Some(c@),
                None => None,
            },
        ),
        r.path@ == project_path@,
        r.scripts.deep_view() == gradle_scripts_view(
            p,
            project_dir@,
            wrapper_exists,
            content@,
            gradle_source_of(p, build_path@),
        ),
        r.package_manager@ == "gradle"@,
{
    let source = match path_file_name(p, build_path) {
        Some(n) => n,
        None => owned("build.gradle"),
    };
    ProjectInfo {
        name: gradle_project_name(p, project_dir, settings),
        path: project_path,
        scripts: gradle_scripts(p, project_dir, wrapper_exists, content, source.as_str()),
        package_manager: owned("gradle"),
    }
}

/// The command line of a plain Java project's script: only `start` exists,
/// and it needs a main file.
pub fn java_script_command_line(p: Platform, script_name: &str, main_file: Option<&str>) -> (r:
    Result<String, String>)
    ensures
        script_name@ != "start"@ ==> (r matches Err(e) && e@ == "Java script '"@ + script_name@
            + "' was not found"@),
        script_name@ == "start"@ ==> match main_file {
            Some(m) => r matches Ok(s) && s@ == java_command_line_text(p, m@),
            None => r matches Err(e) && e@ == "Java main file was not found"@,
        },
{
    if !str_eq(script_name, "start") {
        return Err(concat3("Java script '", script_name, "' was not found"));
    }
    match main_file {
        Some(m) => Ok(java_main_command_line(p, m)),
        None => Err(owned("Java main file was not found")),
    }
}

/// The command line of a Maven project's script: the project's Maven program
/// with the script's goals, every word quoted.
pub fn maven_script_command_line(
    p: Platform,
    project_dir: &str,
    wrapper_exists: bool,
    content: &str,
    script_name: &str,
) -> (r: Result<String, String>)
    ensures
        match maven_args_of(content@, script_name@) {
            Some(a) => r matches Ok(s) && s@ == crate::platform::join_words(
                command_words(p, maven_tool_view(p, project_dir@, wrapper_exists), a),
            ),
            None => r matches Err(e) && e@ == "Maven script '"@ + script_name@
                + "' was not found"@,
        },
{
    match maven_script_args(content, script_name) {
        None => Err(concat3("Maven script '", script_name, "' was not found")),
        Some(args) => {
            let tool = maven_command(p, project_dir, wrapper_exists);
            let words = owned_strs(args);
            Ok(tool_command_line(p, &tool, &words))
        },
    }
}

/// The command line of a Gradle project's script: the project's Gradle
/// program with the script's tasks, every word quoted.
pub fn gradle_script_command_line(
    p: Platform,
    project_dir: &str,
    wrapper_exists: bool,
    content: &str,
    script_name: &str,
) -> (r: Result<String, String>)
    ensures
        match gradle_args_of(content@, script_name@) {
            Some(a) => r matches Ok(s) && s@ == crate::platform::join_words(
                command_words(p, gradle_tool_view(p, project_dir@, wrapper_exists), a),
            ),
            None => r matches Err(e) && e@ == "Gradle script '"@ + script_name@
                + "' was not found"@,
        },
{
    match gradle_script_args(content, script_name) {
        None => Err(concat3("Gradle script '", script_name, "' was not found")),
        Some(args) => {
            let tool = gradle_command(p, project_dir, wrapper_exists);
            let words = owned_strs(args);
            Ok(tool_command_line(p, &tool, &words))
        },
    }
}

} // verus!
