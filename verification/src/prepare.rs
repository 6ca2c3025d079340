//! What creating a project does before its steps: the tools its template
//! needs are checked, in a fixed order, and Composer or Python are prepared
//! when it needs them.

use vstd::prelude::*;
use crate::langs::dart::{dart_bin, flutter_bin};
use crate::langs::go::{go_bin, go_program};
use crate::langs::java::{
    gradle_bin, gradle_program, java_bin, java_program, javac_bin, javac_program, maven_bin,
    maven_program,
};
use crate::langs::node::{node_bin, npm_bin, npm_program, npx_bin, npx_program};
use crate::langs::php::{composer_bin, composer_install_steps, composer_install_view, managed_composer_command, php_bin};
use crate::langs::python::{python_candidates, python_candidates_view, python_missing_error, python_missing_text, python_venv_python_path, venv_python_path};
use crate::model::{CreationStep, StepView, ToolCommand, ToolView};
use crate::platform::{join, join_path, package_manager_program, parent_of, path_parent};
use crate::langs::ruby::{bundle_bin, bundle_program, ruby_bin};
use crate::model::{Platform, ToolRequirement};
use crate::output::{first_line_text, first_output_line};
use crate::platform::by_platform;
use crate::project::{requirements_of, template_requirements, unknown_template_message};
use crate::text::{concat3, owned};

verus! {

/// A check that a tool runs: its name in messages, its program, and the
/// arguments that make it print its version.
pub struct ToolCheck {
    pub label: String,
    pub program: String,
    pub version_args: Vec<String>,
}

/// What creating a project does before its steps for one tool it needs.
pub enum Preparation {
    /// Check that the tool runs.
    Check(ToolCheck),
    /// Find or install Composer.
    Composer,
    /// Find a Python that can make virtual environments with pip.
    Python,
}

pub enum PreparationView {
    Check(Seq<char>, Seq<char>, Seq<Seq<char>>),
    Composer,
    Python,
}

impl DeepView for Preparation {
    type V = PreparationView;

    open spec fn deep_view(&self) -> PreparationView {
        match self {
            Preparation::Check(c) => PreparationView::Check(
                c.label@,
                c.program@,
                c.version_args.deep_view(),
            ),
            Preparation::Composer => PreparationView::Composer,
            Preparation::Python => PreparationView::Python,
        }
    }
}

/// The check of a tool that prints its version with `--version`.
pub open spec fn version_check(label: Seq<char>, program: Seq<char>) -> PreparationView {
    PreparationView::Check(label, program, seq!["--version"@])
}

/// What is done for one tool a template needs.
pub open spec fn preparation_of(p: Platform, r: ToolRequirement) -> PreparationView {
    match r {
        ToolRequirement::Node => version_check("Node.js"@, "node"@),
        ToolRequirement::Npm => version_check("npm"@, npm_program(p)),
        ToolRequirement::Npx => version_check("npx"@, npx_program(p)),
        ToolRequirement::Php => version_check("PHP CLI"@, "php"@),
        ToolRequirement::Composer => PreparationView::Composer,
        ToolRequirement::Python => PreparationView::Python,
        ToolRequirement::Dart => version_check("Dart SDK"@, by_platform(p, "dart"@, "dart.exe"@)),
        ToolRequirement::Flutter => version_check(
            "Flutter SDK"@,
            by_platform(p, "flutter"@, "flutter.bat"@),
        ),
        ToolRequirement::Go => PreparationView::Check("Go"@, go_program(p), seq!["version"@]),
        ToolRequirement::Java => version_check("Java"@, java_program(p)),
        ToolRequirement::Javac => version_check("Java compiler"@, javac_program(p)),
        ToolRequirement::Maven => version_check("Maven"@, maven_program(p)),
        ToolRequirement::Gradle => version_check("Gradle"@, gradle_program(p)),
        ToolRequirement::Ruby => version_check("Ruby"@, by_platform(p, "ruby"@, "ruby.exe"@)),
        ToolRequirement::Bundler => version_check("Bundler"@, bundle_program(p)),
    }
}

/// The check of a tool that prints its version with `--version`.
fn version_check_of(label: &str, program: String) -> (r: Preparation)
    ensures
        r.deep_view() == version_check(label@, program@),
{
    let version_args = vec![owned("--version")];
    assert(version_args.deep_view() =~= seq!["--version"@]);
    Preparation::Check(ToolCheck { label: owned(label), program, version_args })
}

/// What is done for one tool a template needs.
pub fn preparation(p: Platform, r: ToolRequirement) -> (x: Preparation)
    ensures
        x.deep_view() == preparation_of(p, r),
{
    match r {
        ToolRequirement::Node => version_check_of("Node.js", node_bin()),
        ToolRequirement::Npm => version_check_of("npm", npm_bin(p)),
        ToolRequirement::Npx => version_check_of("npx", npx_bin(p)),
        ToolRequirement::Php => version_check_of("PHP CLI", php_bin()),
        ToolRequirement::Composer => Preparation::Composer,
        ToolRequirement::Python => Preparation::Python,
        ToolRequirement::Dart => version_check_of("Dart SDK", dart_bin(p)),
        ToolRequirement::Flutter => version_check_of("Flutter SDK", flutter_bin(p)),
        ToolRequirement::Go => {
            let version_args = vec![owned("version")];
            assert(version_args.deep_view() =~= seq!["version"@]);
            Preparation::Check(ToolCheck { label: owned("Go"), program: go_bin(p), version_args })
        },
        ToolRequirement::Java => version_check_of("Java", java_bin(p)),
        ToolRequirement::Javac => version_check_of("Java compiler", javac_bin(p)),
        ToolRequirement::Maven => version_check_of("Maven", maven_bin(p)),
        ToolRequirement::Gradle => version_check_of("Gradle", gradle_bin(p)),
        ToolRequirement::Ruby => version_check_of("Ruby", ruby_bin(p)),
        ToolRequirement::Bundler => version_check_of("Bundler", bundle_bin(p)),
    }
}

/// The order in which the tools are checked.
pub open spec fn requirement_order() -> Seq<ToolRequirement> {
    seq![
        ToolRequirement::Node,
        ToolRequirement::Npm,
        ToolRequirement::Npx,
        ToolRequirement::Php,
        ToolRequirement::Composer,
        ToolRequirement::Python,
        ToolRequirement::Dart,
        ToolRequirement::Flutter,
        ToolRequirement::Go,
        ToolRequirement::Java,
        ToolRequirement::Javac,
        ToolRequirement::Maven,
        ToolRequirement::Gradle,
        ToolRequirement::Ruby,
        ToolRequirement::Bundler,
    ]
}

/// What is done for the tools of `order` that `reqs` names, in the order
/// of `order`.
pub open spec fn plan_of(p: Platform, order: Seq<ToolRequirement>, reqs: Seq<ToolRequirement>) -> Seq<
    PreparationView,
>
    decreases order.len(),
{
    if order.len() == 0 {
        Seq::empty()
    } else {
        let rest = plan_of(p, order.drop_last(), reqs);
        if reqs.contains(order.last()) {
            rest.push(preparation_of(p, order.last()))
        } else {
            rest
        }
    }
}

proof fn lemma_plan_covers(p: Platform, order: Seq<ToolRequirement>, reqs: Seq<ToolRequirement>, r: ToolRequirement)
    requires
        order.contains(r),
        reqs.contains(r),
    ensures
        plan_of(p, order, reqs).contains(preparation_of(p, r)),
    decreases order.len(),
{
    let rest = plan_of(p, order.drop_last(), reqs);
    if order.last() == r {
        assert(plan_of(p, order, reqs) == rest.push(preparation_of(p, r)));
        assert(rest.push(preparation_of(p, r))[rest.len() as int] == preparation_of(p, r));
    } else {
        let i = choose|i: int| 0 <= i < order.len() && order[i] == r;
        assert(i < order.len() - 1);
        assert(order.drop_last()[i] == r);
        lemma_plan_covers(p, order.drop_last(), reqs, r);
        let j = choose|j: int| 0 <= j < rest.len() && rest[j] == preparation_of(p, r);
        if reqs.contains(order.last()) {
            assert(rest.push(preparation_of(p, order.last()))[j] == preparation_of(p, r));
        }
    }
}

/// Every tool a template needs is checked or prepared before its steps.
pub proof fn law_every_requirement_prepared(p: Platform, reqs: Seq<ToolRequirement>, r: ToolRequirement)
    requires
        reqs.contains(r),
    ensures
        plan_of(p, requirement_order(), reqs).contains(preparation_of(p, r)),
{
    let o = requirement_order();
    assert(o[0] == ToolRequirement::Node && o[1] == ToolRequirement::Npm && o[2] == ToolRequirement::Npx);
    assert(o[3] == ToolRequirement::Php && o[4] == ToolRequirement::Composer && o[5] == ToolRequirement::Python);
    assert(o[6] == ToolRequirement::Dart && o[7] == ToolRequirement::Flutter && o[8] == ToolRequirement::Go);
    assert(o[9] == ToolRequirement::Java && o[10] == ToolRequirement::Javac && o[11] == ToolRequirement::Maven);
    assert(o[12] == ToolRequirement::Gradle && o[13] == ToolRequirement::Ruby && o[14] == ToolRequirement::Bundler);
    assert(o.contains(r));
    lemma_plan_covers(p, o, reqs, r);
}

/// Whether `reqs` names `r`.
fn names_requirement(reqs: &Vec<ToolRequirement>, r: ToolRequirement) -> (b: bool)
    ensures
        b == reqs@.contains(r),
{
    let mut i: usize = 0;
    while i < reqs.len()
        invariant
            i <= reqs@.len(),
            forall|j: int| 0 <= j < i ==> reqs@[j] != r,
        decreases reqs@.len() - i,
    {
        if reqs[i] == r {
            assert(reqs@[i as int] == r);
            return true;
        }
        i = i + 1;
    }
    false
}

/// What is done before the steps for the tools `reqs` names, in the fixed
/// order of the tools.
pub fn preparations(p: Platform, reqs: &Vec<ToolRequirement>) -> (r: Vec<Preparation>)
    ensures
        r.deep_view() == plan_of(p, requirement_order(), reqs@),
{
    let order = [
        ToolRequirement::Node,
        ToolRequirement::Npm,
        ToolRequirement::Npx,
        ToolRequirement::Php,
        ToolRequirement::Composer,
        ToolRequirement::Python,
        ToolRequirement::Dart,
        ToolRequirement::Flutter,
        ToolRequirement::Go,
        ToolRequirement::Java,
        ToolRequirement::Javac,
        ToolRequirement::Maven,
        ToolRequirement::Gradle,
        ToolRequirement::Ruby,
        ToolRequirement::Bundler,
    ];
    assert(order@ =~= requirement_order());
    let mut out: Vec<Preparation> = Vec::new();
    let mut i: usize = 0;
    while i < order.len()
        invariant
            i <= order@.len(),
            order@ == requirement_order(),
            out.deep_view() == plan_of(p, order@.take(i as int), reqs@),
        decreases order@.len() - i,
    {
        proof {
            assert(order@.take(i + 1).drop_last() =~= order@.take(i as int));
            assert(order@.take(i + 1).last() == order@[i as int]);
        }
        if names_requirement(reqs, order[i]) {
            let ghost before = out.deep_view();
            out.push(preparation(p, order[i]));
            assert(out.deep_view() =~= before.push(preparation_of(p, order@[i as int])));
        }
        i = i + 1;
    }
    assert(order@.take(order@.len() as int) =~= order@);
    out
}

/// What is done before the steps of a template, or that the template is
/// unknown.
pub fn creation_preparations(p: Platform, template_id: &str) -> (r: Result<Vec<Preparation>, String>)
    ensures
        match requirements_of(template_id@) {
            Some(reqs) => r matches Ok(v) && v.deep_view() == plan_of(p, requirement_order(), reqs),
            None => r matches Err(e) && e@ == unknown_template_message(template_id@),
        },
{
    match template_requirements(template_id) {
        Ok(reqs) => Ok(preparations(p, &reqs)),
        Err(e) => Err(e),
    }
}

/// The outcome of checking a tool from the outcome of running it: its
/// version, the first line it printed; or the message that it is missing,
/// with what running it reported.
pub fn tool_check_outcome(label: &str, outcome: Result<String, String>) -> (r: Result<String, String>)
    ensures
        match outcome {
            Ok(out) => r matches Ok(v) && v@ == first_line_text(out@),
            Err(details) => r matches Err(e) && e@ == label@
                + " is required for this template but was not found or could not run.\n"@
                + details@,
        },
{
    match outcome {
        Ok(out) => Ok(first_output_line(out.as_str())),
        Err(details) => {
            let head = concat3(
                label,
                " is required for this template but was not found or could not run.\n",
                details.as_str(),
            );
            Err(head)
        },
    }
}

/// The text of an outcome.
pub open spec fn outcome_view(r: Result<String, String>) -> Result<Seq<char>, Seq<char>> {
    match r {
        Ok(s) => Ok(s@),
        Err(e) => Err(e@),
    }
}

/// The texts of outcomes, in order.
pub open spec fn outcomes_view(rs: Seq<Result<String, String>>) -> Seq<Result<Seq<char>, Seq<char>>> {
    rs.map_values(|r: Result<String, String>| outcome_view(r))
}

/// The position of the first success.
pub open spec fn first_success(rs: Seq<Result<Seq<char>, Seq<char>>>) -> Option<int>
    decreases rs.len(),
{
    if rs.len() == 0 {
        None
    } else {
        match first_success(rs.drop_last()) {
            Some(i) => Some(i),
            None => if rs.last() is Ok {
                Some(rs.len() - 1)
            } else {
                None
            },
        }
    }
}

/// The position of the first failure.
pub open spec fn first_failure(rs: Seq<Result<Seq<char>, Seq<char>>>) -> Option<int>
    decreases rs.len(),
{
    if rs.len() == 0 {
        None
    } else {
        match first_failure(rs.drop_last()) {
            Some(i) => Some(i),
            None => if rs.last() is Err {
                Some(rs.len() - 1)
            } else {
                None
            },
        }
    }
}

proof fn lemma_first_success_bound(rs: Seq<Result<Seq<char>, Seq<char>>>)
    ensures
        first_success(rs) matches Some(i) ==> 0 <= i < rs.len() && rs[i] is Ok,
    decreases rs.len(),
{
    if rs.len() > 0 {
        lemma_first_success_bound(rs.drop_last());
    }
}

proof fn lemma_first_failure_bound(rs: Seq<Result<Seq<char>, Seq<char>>>)
    ensures
        first_failure(rs) matches Some(i) ==> 0 <= i < rs.len() && rs[i] is Err,
    decreases rs.len(),
{
    if rs.len() > 0 {
        lemma_first_failure_bound(rs.drop_last());
    }
}

/// The outcome of a Python's health check from the outcomes of its
/// commands, run in order until one fails: the first failure, or else the
/// version, the first line the first command printed.
pub open spec fn health_outcome_of(outcomes: Seq<Result<Seq<char>, Seq<char>>>) -> Result<Seq<char>, Seq<char>> {
    match first_failure(outcomes) {
        Some(i) => Err(outcomes[i]->Err_0),
        None => Ok(first_line_text(outcomes[0]->Ok_0)),
    }
}

/// The outcome of a Python's health check.
pub fn health_outcome(outcomes: &Vec<Result<String, String>>) -> (r: Result<String, String>)
    requires
        outcomes@.len() > 0,
    ensures
        outcome_view(r) == health_outcome_of(outcomes_view(outcomes@)),
{
    let ghost v = outcomes_view(outcomes@);
    let mut i: usize = 0;
    while i < outcomes.len()
        invariant
            i <= outcomes@.len(),
            v == outcomes_view(outcomes@),
            first_failure(v.take(i as int)) is None,
            forall|j: int| 0 <= j < i ==> outcomes@[j] is Ok,
        decreases outcomes@.len() - i,
    {
        proof {
            assert(v.take(i + 1).drop_last() =~= v.take(i as int));
            assert(v.take(i + 1).last() == outcome_view(outcomes@[i as int]));
        }
        match &outcomes[i] {
            Err(e) => {
                proof {
                    lemma_first_failure_bound(v.take(i as int));
                    let k = i as int;
                    assert forall|n: int| k + 1 <= n <= v.len() implies #[trigger] first_failure(
                        v.take(n),
                    ) == Some(k) by {
                        lemma_first_failure_extends(v, k, n);
                    }
                    assert(v.take(v.len() as int) =~= v);
                }
                return Err(e.clone());
            },
            Ok(_) => {},
        }
        i = i + 1;
    }
    assert(v.take(v.len() as int) =~= v);
    match &outcomes[0] {
        Ok(out) => Ok(first_output_line(out.as_str())),
        Err(e) => Err(e.clone()),
    }
}

/// Once a prefix has its first failure at `k`, every longer prefix does.
proof fn lemma_first_failure_extends(v: Seq<Result<Seq<char>, Seq<char>>>, k: int, n: int)
    requires
        0 <= k < v.len(),
        k + 1 <= n <= v.len(),
        first_failure(v.take(k)) is None,
        v[k] is Err,
    ensures
        first_failure(v.take(n)) == Some(k),
    decreases n,
{
    assert(v.take(n).drop_last() =~= v.take(n - 1));
    if n == k + 1 {
        assert(v.take(n).last() == v[k]);
    } else {
        lemma_first_failure_extends(v, k, n - 1);
    }
}

/// What looking for a working Python does next.
pub enum PythonStep {
    /// Check the candidate at this position.
    Check(usize),
    /// Use this interpreter, whose version is the text given.
    Use(ToolCommand, String),
    /// No candidate works; the message says what each reported.
    Missing(String),
}

pub enum PythonStepView {
    Check(int),
    Use(ToolView, Seq<char>),
    Missing(Seq<char>),
}

impl DeepView for PythonStep {
    type V = PythonStepView;

    open spec fn deep_view(&self) -> PythonStepView {
        match self {
            PythonStep::Check(i) => PythonStepView::Check(*i as int),
            PythonStep::Use(t, v) => PythonStepView::Use(t.deep_view(), v@),
            PythonStep::Missing(m) => PythonStepView::Missing(m@),
        }
    }
}

/// The next step of looking for a working Python, from the outcomes of the
/// health checks of the candidates tried so far, in order: use the first
/// that passed; else check the next candidate; else report them all.
pub open spec fn python_step_of(p: Platform, results: Seq<Result<Seq<char>, Seq<char>>>) -> PythonStepView {
    let cands = python_candidates_view(p);
    let tried = results.take(if results.len() < cands.len() { results.len() as int } else { cands.len() as int });
    match first_success(tried) {
        Some(i) => PythonStepView::Use(cands[i], tried[i]->Ok_0),
        None => if results.len() < cands.len() {
            PythonStepView::Check(results.len() as int)
        } else {
            PythonStepView::Missing(
                python_missing_text(
                    Seq::new(cands.len(), |i: int| (cands[i].program, results[i]->Err_0)),
                ),
            )
        },
    }
}

/// The next step of looking for a working Python.
pub fn python_search_step(p: Platform, results: &Vec<Result<String, String>>) -> (r: PythonStep)
    ensures
        r.deep_view() == python_step_of(p, outcomes_view(results@)),
{
    let cands = python_candidates(p);
    let ghost v = outcomes_view(results@);
    let n = if results.len() < cands.len() {
        results.len()
    } else {
        cands.len()
    };
    let ghost tried = v.take(n as int);
    assert(v.len() == results@.len());
    let mut i: usize = 0;
    while i < n
        invariant
            i <= n,
            n <= results@.len(),
            n <= cands@.len(),
            n == (if results@.len() < cands@.len() {
                results@.len()
            } else {
                cands@.len()
            }),
            v.len() == results@.len(),
            v == outcomes_view(results@),
            tried == v.take(n as int),
            first_success(tried.take(i as int)) is None,
            cands.deep_view() == python_candidates_view(p),
        decreases n - i,
    {
        proof {
            assert(tried.take(i + 1).drop_last() =~= tried.take(i as int));
            assert(tried.take(i + 1).last() == outcome_view(results@[i as int]));
        }
        match &results[i] {
            Ok(version) => {
                proof {
                    let k = i as int;
                    assert forall|m: int| k + 1 <= m <= tried.len() implies #[trigger] first_success(
                        tried.take(m),
                    ) == Some(k) by {
                        lemma_first_success_extends(tried, k, m);
                    }
                    assert(tried.take(tried.len() as int) =~= tried);
                }
                let c = ToolCommand { program: cands[i].program.clone(), args: crate::model::clone_strings(&cands[i].args) };
                proof {
                    assert(c.deep_view() == cands.deep_view()[i as int]);
                    assert(python_candidates_view(p).len() == cands@.len());
                    assert(tried[i as int] == outcome_view(results@[i as int]));
                    assert(first_success(tried.take(tried.len() as int)) == Some(i as int));
                    assert(first_success(tried) == Some(i as int));
                    let cv = python_candidates_view(p);
                    let spec_tried = v.take(
                        if v.len() < cv.len() {
                            v.len() as int
                        } else {
                            cv.len() as int
                        },
                    );
                    assert(spec_tried == tried);
                }
                let version_text = version.clone();
                assert(version_text@ == tried[i as int]->Ok_0);
                return PythonStep::Use(c, version_text);
            },
            Err(_) => {},
        }
        i = i + 1;
    }
    assert(tried.take(n as int) =~= tried);
    proof {
        lemma_no_success_all_failed(tried);
    }
    if results.len() < cands.len() {
        PythonStep::Check(results.len())
    } else {
        let mut failures: Vec<(String, String)> = Vec::new();
        let mut j: usize = 0;
        while j < cands.len()
            invariant
                j <= cands@.len(),
                cands@.len() <= results@.len(),
                n == cands@.len(),
                tried == v.take(n as int),
                forall|k: int| 0 <= k < tried.len() ==> tried[k] is Err,
                v == outcomes_view(results@),
                failures@.len() == j,
                forall|k: int| 0 <= k < j ==> (#[trigger] failures@[k]).0@ == cands@[k].program@
                    && failures@[k].1@ == v[k]->Err_0,
            decreases cands@.len() - j,
        {
            let e = match &results[j] {
                Ok(_) => String::new(),
                Err(e) => e.clone(),
            };
            proof {
                assert(v[j as int] == outcome_view(results@[j as int]));
                assert(tried[j as int] == v[j as int]);
                assert(tried[j as int] is Err);
            }
            failures.push((cands[j].program.clone(), e));
            j = j + 1;
        }
        assert(failures.deep_view() =~= Seq::new(
            python_candidates_view(p).len(),
            |k: int| (python_candidates_view(p)[k].program, v[k]->Err_0),
        ));
        PythonStep::Missing(python_missing_error(&failures))
    }
}

/// Outcomes without a first success all failed.
proof fn lemma_no_success_all_failed(v: Seq<Result<Seq<char>, Seq<char>>>)
    requires
        first_success(v) is None,
    ensures
        forall|k: int| 0 <= k < v.len() ==> v[k] is Err,
    decreases v.len(),
{
    if v.len() > 0 {
        lemma_no_success_all_failed(v.drop_last());
        assert forall|k: int| 0 <= k < v.len() implies v[k] is Err by {
            if k < v.len() - 1 {
                assert(v.drop_last()[k] == v[k]);
            }
        }
    }
}

/// Once a prefix has its first success at `k`, every longer prefix does.
proof fn lemma_first_success_extends(v: Seq<Result<Seq<char>, Seq<char>>>, k: int, n: int)
    requires
        0 <= k < v.len(),
        k + 1 <= n <= v.len(),
        first_success(v.take(k)) is None,
        v[k] is Ok,
    ensures
        first_success(v.take(n)) == Some(k),
    decreases n,
{
    assert(v.take(n).drop_last() =~= v.take(n - 1));
    if n == k + 1 {
        assert(v.take(n).last() == v[k]);
    } else {
        lemma_first_success_extends(v, k, n - 1);
    }
}

/// The position of the first `true`.
pub open spec fn first_true(bs: Seq<bool>) -> Option<int>
    decreases bs.len(),
{
    if bs.len() == 0 {
        None
    } else {
        match first_true(bs.drop_last()) {
            Some(i) => Some(i),
            None => if bs.last() {
                Some(bs.len() - 1)
            } else {
                None
            },
        }
    }
}

/// Once a prefix has its first `true` at `k`, every longer prefix does.
proof fn lemma_first_true_extends(v: Seq<bool>, k: int, n: int)
    requires
        0 <= k < v.len(),
        k + 1 <= n <= v.len(),
        first_true(v.take(k)) is None,
        v[k],
    ensures
        first_true(v.take(n)) == Some(k),
    decreases n,
{
    assert(v.take(n).drop_last() =~= v.take(n - 1));
    if n == k + 1 {
        assert(v.take(n).last() == v[k]);
    } else {
        lemma_first_true_extends(v, k, n - 1);
    }
}

/// What finding the Python that runs a project's scripts does next.
pub enum ProbeStep {
    /// Use this interpreter.
    Use(ToolCommand),
    /// Ask the candidate at this position for its version.
    Probe(usize),
    /// No Python answers.
    Fail(String),
}

pub enum ProbeStepView {
    Use(ToolView),
    Probe(int),
    Fail(Seq<char>),
}

impl DeepView for ProbeStep {
    type V = ProbeStepView;

    open spec fn deep_view(&self) -> ProbeStepView {
        match self {
            ProbeStep::Use(t) => ProbeStepView::Use(t.deep_view()),
            ProbeStep::Probe(i) => ProbeStepView::Probe(*i as int),
            ProbeStep::Fail(m) => ProbeStepView::Fail(m@),
        }
    }
}

/// The next step of finding the Python that runs a project's scripts: the
/// interpreter of the project's virtual environment when it is there; else
/// the first candidate that answered for its version; else ask the next
/// candidate; else fail.
pub open spec fn project_python_command_of(
    p: Platform,
    project_dir: Seq<char>,
    venv_exists: bool,
    answered: Seq<bool>,
) -> ProbeStepView {
    let cands = python_candidates_view(p);
    let tried = answered.take(if answered.len() < cands.len() { answered.len() as int } else { cands.len() as int });
    if venv_exists {
        ProbeStepView::Use(ToolView { program: venv_python_path(p, project_dir), args: Seq::empty() })
    } else {
        match first_true(tried) {
            Some(i) => ProbeStepView::Use(cands[i]),
            None => if answered.len() < cands.len() {
                ProbeStepView::Probe(answered.len() as int)
            } else {
                ProbeStepView::Fail("Python is required to run this script but was not found."@)
            },
        }
    }
}

/// The next step of finding the Python that runs a project's scripts.
/// `answered` tells, for the candidates asked so far in order, whether each
/// answered for its version.
pub fn project_python_command(p: Platform, project_dir: &str, venv_exists: bool, answered: &Vec<bool>) -> (r:
    ProbeStep)
    ensures
        r.deep_view() == project_python_command_of(p, project_dir@, venv_exists, answered@),
{
    if venv_exists {
        let t = ToolCommand { program: python_venv_python_path(p, project_dir), args: Vec::new() };
        assert(t.deep_view().args =~= Seq::<Seq<char>>::empty());
        return ProbeStep::Use(t);
    }
    let cands = python_candidates(p);
    let n = if answered.len() < cands.len() {
        answered.len()
    } else {
        cands.len()
    };
    let ghost tried = answered@.take(n as int);
    let mut i: usize = 0;
    while i < n
        invariant
            i <= n,
            n == (if answered@.len() < cands@.len() {
                answered@.len()
            } else {
                cands@.len()
            }),
            tried == answered@.take(n as int),
            !venv_exists,
            first_true(tried.take(i as int)) is None,
            cands.deep_view() == python_candidates_view(p),
        decreases n - i,
    {
        proof {
            assert(tried.take(i + 1).drop_last() =~= tried.take(i as int));
            assert(tried.take(i + 1).last() == answered@[i as int]);
        }
        if answered[i] {
            proof {
                let k = i as int;
                lemma_first_true_extends(tried, k, tried.len() as int);
                assert(tried.take(tried.len() as int) =~= tried);
                assert(python_candidates_view(p).len() == cands@.len());
                let cv = python_candidates_view(p);
                let spec_tried = answered@.take(
                    if answered@.len() < cv.len() {
                        answered@.len() as int
                    } else {
                        cv.len() as int
                    },
                );
                assert(spec_tried == tried);
                assert(first_true(spec_tried) == Some(k));
            }
            let c = ToolCommand { program: cands[i].program.clone(), args: crate::model::clone_strings(&cands[i].args) };
            assert(c.deep_view() == cands.deep_view()[i as int]);
            return ProbeStep::Use(c);
        }
        i = i + 1;
    }
    assert(tried.take(n as int) =~= tried);
    if answered.len() < cands.len() {
        ProbeStep::Probe(answered.len())
    } else {
        ProbeStep::Fail(crate::text::owned("Python is required to run this script but was not found."))
    }
}

/// How creating a PHP project gets its Composer.
pub enum ComposerPlan {
    /// Composer on the path answered.
    UseSystem(ToolCommand),
    /// The launcher's own Composer is there and answered.
    UseManaged(ToolCommand),
    /// Install the launcher's own Composer with these steps, then use it.
    Install(Vec<CreationStep>, ToolCommand),
}

pub enum ComposerPlanView {
    UseSystem(ToolView),
    UseManaged(ToolView),
    Install(Seq<StepView>, ToolView),
}

impl DeepView for ComposerPlan {
    type V = ComposerPlanView;

    open spec fn deep_view(&self) -> ComposerPlanView {
        match self {
            ComposerPlan::UseSystem(t) => ComposerPlanView::UseSystem(t.deep_view()),
            ComposerPlan::UseManaged(t) => ComposerPlanView::UseManaged(t.deep_view()),
            ComposerPlan::Install(s, t) => ComposerPlanView::Install(s.deep_view(), t.deep_view()),
        }
    }
}

/// How creating a PHP project gets its Composer: Composer on the path when
/// it answers; else the launcher's own when it is there and answers; else
/// the steps that install the launcher's own, which is then used. Installing
/// needs the folder of `composer_path`.
pub open spec fn composer_plan_of(
    p: Platform,
    system_answered: bool,
    managed_answered: bool,
    composer_path: Seq<char>,
) -> Result<ComposerPlanView, Seq<char>> {
    let managed = ToolView { program: "php"@, args: seq![composer_path] };
    if system_answered {
        Ok(ComposerPlanView::UseSystem(ToolView { program: package_manager_program(p, "composer"@), args: Seq::empty() }))
    } else if managed_answered {
        Ok(ComposerPlanView::UseManaged(managed))
    } else {
        match parent_of(p, composer_path) {
            Some(dir) => Ok(ComposerPlanView::Install(composer_install_view(dir, composer_path), managed)),
            None => Err("Failed to resolve Composer cache folder"@),
        }
    }
}

/// How creating a PHP project gets its Composer.
pub fn composer_plan(p: Platform, system_answered: bool, managed_answered: bool, composer_path: &str) -> (r:
    Result<ComposerPlan, String>)
    ensures
        match composer_plan_of(p, system_answered, managed_answered, composer_path@) {
            Ok(v) => r matches Ok(plan) && plan.deep_view() == v,
            Err(e) => r matches Err(m) && m@ == e,
        },
{
    if system_answered {
        let t = ToolCommand { program: composer_bin(p), args: Vec::new() };
        assert(t.deep_view().args =~= Seq::<Seq<char>>::empty());
        Ok(ComposerPlan::UseSystem(t))
    } else if managed_answered {
        Ok(ComposerPlan::UseManaged(managed_composer_command(composer_path)))
    } else {
        match composer_install_steps(p, composer_path) {
            Ok(steps) => Ok(ComposerPlan::Install(steps, managed_composer_command(composer_path))),
            Err(e) => Err(e),
        }
    }
}

/// The installer that installing Composer leaves next to it, to remove.
pub fn composer_installer_path(p: Platform, composer_path: &str) -> (r: Option<String>)
    ensures
        r.deep_view() == match parent_of(p, composer_path@) {
            Some(dir) => Some(join_path(p, dir, "composer-setup.php"@)),
            None => None,
        },
{
    match path_parent(p, composer_path) {
        Some(dir) => Some(join(p, dir.as_str(), "composer-setup.php")),
        None => None,
    }
}

} // verus!
