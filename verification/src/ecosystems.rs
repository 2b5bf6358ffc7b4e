//! Package ecosystems: how a project's packages are managed, and what the
//! tools of an ecosystem tell about a package.

use crate::syntax::opt_text;
use crate::text::{
    chars_of, concat, contains, find_char, first_index_of, has_infix, has_prefix, join, join_of,
    lines, lines_of, rows, slice_of, split, split_on, starts_with, string_of, strings_of,
    strip_all_prefix, text_is, texts, trim, trim_start_matches, trimmed,
};
use vstd::prelude::*;

verus! {

/// A feature of a package.
#[derive(Debug, Clone)]
pub struct Feature {
    pub name: String,
    pub description: Option<String>,
    /// What the feature switches on.
    pub dependencies: Vec<String>,
}

/// What a feature holds: the model of `Feature`.
pub struct FeatureModel {
    pub name: Seq<char>,
    pub description: Option<Seq<char>>,
    pub dependencies: Seq<Seq<char>>,
}

impl View for Feature {
    type V = FeatureModel;

    open spec fn view(&self) -> FeatureModel {
        FeatureModel {
            name: self.name@,
            description: opt_text(self.description),
            dependencies: texts(self.dependencies@),
        }
    }
}

/// The models of the features of `v`.
pub open spec fn feature_views(v: Seq<Feature>) -> Seq<FeatureModel> {
    v.map_values(|f: Feature| f@)
}

/// A package that a package depends on.
#[derive(Debug, Clone)]
pub struct Dependency {
    pub name: String,
    /// The versions that are asked for; any where none are named.
    pub version_req: Option<String>,
    pub optional: bool,
}

/// What a dependency holds: the model of `Dependency`.
pub struct DependencyModel {
    pub name: Seq<char>,
    pub version_req: Option<Seq<char>>,
    pub optional: bool,
}

impl View for Dependency {
    type V = DependencyModel;

    open spec fn view(&self) -> DependencyModel {
        DependencyModel {
            name: self.name@,
            version_req: opt_text(self.version_req),
            optional: self.optional,
        }
    }
}

/// The models of the dependencies of `v`.
pub open spec fn dependency_views(v: Seq<Dependency>) -> Seq<DependencyModel> {
    v.map_values(|d: Dependency| d@)
}

/// What is known of a package.
#[derive(Debug, Clone)]
pub struct PackageInfo {
    pub name: String,
    pub version: String,
    pub description: Option<String>,
    pub license: Option<String>,
    pub homepage: Option<String>,
    pub repository: Option<String>,
    pub features: Vec<Feature>,
    pub dependencies: Vec<Dependency>,
}

/// What is known of a package: the model of `PackageInfo`.
pub struct InfoModel {
    pub name: Seq<char>,
    pub version: Seq<char>,
    pub description: Option<Seq<char>>,
    pub license: Option<Seq<char>>,
    pub homepage: Option<Seq<char>>,
    pub repository: Option<Seq<char>>,
    pub features: Seq<FeatureModel>,
    pub dependencies: Seq<DependencyModel>,
}

impl View for PackageInfo {
    type V = InfoModel;

    open spec fn view(&self) -> InfoModel {
        InfoModel {
            name: self.name@,
            version: self.version@,
            description: opt_text(self.description),
            license: opt_text(self.license),
            homepage: opt_text(self.homepage),
            repository: opt_text(self.repository),
            features: feature_views(self.features@),
            dependencies: dependency_views(self.dependencies@),
        }
    }
}

/// Why nothing is known of a package.
#[derive(Debug, Clone)]
pub enum PackageError {
    /// The registry has no package of this name.
    NotFound(String),
    /// None of the tools of the ecosystem is installed.
    NoToolFound,
    /// The tool failed, or there is no such tool; with what it said.
    ToolFailed(String),
    /// The output of the tool could not be read; with the reason.
    ParseError(String),
}

/// Why nothing is known of a package: the model of `PackageError`.
pub enum ErrorModel {
    NotFound(Seq<char>),
    NoToolFound,
    ToolFailed(Seq<char>),
    ParseError(Seq<char>),
}

impl View for PackageError {
    type V = ErrorModel;

    open spec fn view(&self) -> ErrorModel {
        match self {
            PackageError::NotFound(s) => ErrorModel::NotFound(s@),
            PackageError::NoToolFound => ErrorModel::NoToolFound,
            PackageError::ToolFailed(s) => ErrorModel::ToolFailed(s@),
            PackageError::ParseError(s) => ErrorModel::ParseError(s@),
        }
    }
}

/// The model of what a query for a package returns.
pub open spec fn result_view(r: Result<PackageInfo, PackageError>) -> Result<InfoModel, ErrorModel> {
    match r {
        Ok(info) => Ok(info@),
        Err(e) => Err(e@),
    }
}

/// A lockfile and the tool that writes it.
#[derive(Debug, Clone, Copy)]
pub struct LockfileManager {
    pub filename: &'static str,
    pub manager: &'static str,
}

/// What a tool printed, and whether it succeeded.
#[derive(Debug, Clone)]
pub struct ToolOutput {
    pub success: bool,
    pub stdout: String,
    pub stderr: String,
}

/// Those of the first `n` pieces that are not empty once the white space
/// around them is gone, so shortened.
pub open spec fn named_pieces(pieces: Seq<Seq<char>>, n: int) -> Seq<Seq<char>>
    decreases n,
{
    if n <= 0 {
        Seq::empty()
    } else {
        let rest = named_pieces(pieces, n - 1);
        if trimmed(pieces[n - 1]).len() > 0 {
            rest.push(trimmed(pieces[n - 1]))
        } else {
            rest
        }
    }
}

/// What a text in square brackets lists: its pieces between commas that
/// are not empty; nothing for a text that is not in square brackets.
pub open spec fn listed(text: Seq<char>) -> Seq<Seq<char>> {
    if text.len() >= 2 && text[0] == '[' && text.last() == ']' {
        let pieces = split_on(text.subrange(1, text.len() - 1), ',');
        named_pieces(pieces, pieces.len() as int)
    } else {
        Seq::empty()
    }
}

/// A line without the white space around it and without one `+` in front.
pub open spec fn feature_text(line: Seq<char>) -> Seq<char> {
    let t = trimmed(line);
    if t.len() > 0 && t[0] == '+' {
        t.drop_first()
    } else {
        t
    }
}

/// The feature that a line of the form `name = [a, b]` declares, where a
/// `+` may stand in front of the name: the name is what stands before the
/// first `=`, and the dependencies are what the rest lists. A line without
/// `=` declares none.
pub open spec fn feature_of(line: Seq<char>) -> Option<FeatureModel> {
    let t = feature_text(line);
    let eq = first_index_of(t, '=', 0);
    if eq >= t.len() {
        None
    } else {
        Some(
            FeatureModel {
                name: trimmed(t.take(eq)),
                description: None,
                dependencies: listed(trimmed(t.skip(eq + 1))),
            },
        )
    }
}

/// Reads a line that declares a feature.
pub fn parse_feature_line(line: &str) -> (r: Option<Feature>)
    ensures
        r is Some == feature_of(line@) is Some,
        r is Some ==> r->0@ == feature_of(line@)->0,
{
    let t = trim(&chars_of(line));
    let t = if t.len() > 0 && t[0] == '+' {
        let rest = slice_of(&t, 1, t.len());
        assert(rest@ =~= t@.drop_first());
        rest
    } else {
        t
    };
    let eq = find_char(&t, '=');
    if eq >= t.len() {
        return None;
    }
    let before = slice_of(&t, 0, eq);
    assert(before@ =~= t@.take(eq as int));
    let after = slice_of(&t, eq + 1, t.len());
    assert(after@ =~= t@.skip(eq + 1));
    let name = trim(&before);
    let text = trim(&after);
    let mut deps: Vec<String> = Vec::new();
    assert(texts(deps@) =~= Seq::<Seq<char>>::empty());
    if text.len() >= 2 && text[0] == '[' && text[text.len() - 1] == ']' {
        let inner = slice_of(&text, 1, text.len() - 1);
        let pieces = split(&inner, ',');
        let mut i: usize = 0;
        assert(texts(deps@) =~= named_pieces(rows(pieces@), 0));
        while i < pieces.len()
            invariant
                i <= pieces.len(),
                texts(deps@) == named_pieces(rows(pieces@), i as int),
            decreases pieces.len() - i,
        {
            assert(rows(pieces@)[i as int] == pieces@[i as int]@);
            let piece = trim(&pieces[i]);
            if piece.len() > 0 {
                let ghost so_far = texts(deps@);
                deps.push(string_of(&piece));
                assert(texts(deps@) =~= so_far.push(piece@));
            }
            i += 1;
        }
    }
    Some(Feature { name: string_of(&name), description: None, dependencies: deps })
}

/// What has been read of the output of `cargo info`.
pub struct InfoState {
    pub version: Seq<char>,
    pub license: Option<Seq<char>>,
    pub homepage: Option<Seq<char>>,
    pub repository: Option<Seq<char>>,
    pub features: Seq<FeatureModel>,
    pub in_features: bool,
}

/// What follows `word` on a line that begins with it, without white space
/// around it.
pub open spec fn value_after(line: Seq<char>, word: Seq<char>) -> Seq<char> {
    trimmed(strip_all_prefix(line, word))
}

/// What is known after one more line. A line that begins with `version:`,
/// `license:`, `homepage:` or `repository:` gives that value; `features:`
/// opens the list of features and `note:` closes it; inside the list, a
/// line that begins with a space and declares a feature adds it.
pub open spec fn info_step(s: InfoState, line: Seq<char>) -> InfoState {
    if has_prefix(line, "version:"@) {
        InfoState { version: value_after(line, "version:"@), ..s }
    } else if has_prefix(line, "license:"@) {
        InfoState { license: Some(value_after(line, "license:"@)), ..s }
    } else if has_prefix(line, "homepage:"@) {
        InfoState { homepage: Some(value_after(line, "homepage:"@)), ..s }
    } else if has_prefix(line, "repository:"@) {
        InfoState { repository: Some(value_after(line, "repository:"@)), ..s }
    } else if has_prefix(line, "features:"@) {
        InfoState { in_features: true, ..s }
    } else if has_prefix(line, "note:"@) {
        InfoState { in_features: false, ..s }
    } else if s.in_features && has_prefix(line, " "@) && feature_of(line) is Some {
        InfoState { features: s.features.push(feature_of(line)->0), ..s }
    } else {
        s
    }
}

/// What is known after the first `n` lines, of which the first two say
/// nothing here.
pub open spec fn info_after(lines: Seq<Seq<char>>, n: int) -> InfoState
    decreases n,
{
    if n <= 2 {
        InfoState {
            version: Seq::empty(),
            license: None,
            homepage: None,
            repository: None,
            features: Seq::empty(),
            in_features: false,
        }
    } else {
        info_step(info_after(lines, n - 1), lines[n - 1])
    }
}

/// The description that the output gives: its second line, unless that is
/// empty or begins with `version:`.
pub open spec fn description_of(lines: Seq<Seq<char>>) -> Option<Seq<char>> {
    if lines.len() >= 2 && lines[1].len() > 0 && !has_prefix(lines[1], "version:"@) {
        Some(lines[1])
    } else {
        None
    }
}

/// What the output of `cargo info` tells of a package: the first line is
/// passed over, the second is the description, and the lines after it give
/// the rest. Output that names no version cannot be read.
pub open spec fn cargo_info_of(output: Seq<char>, package: Seq<char>) -> Result<
    InfoModel,
    ErrorModel,
> {
    let lines = lines_of(output);
    let state = info_after(lines, if lines.len() >= 2 {
        lines.len() as int
    } else {
        2
    });
    if state.version.len() == 0 {
        Err(ErrorModel::ParseError("could not find version in output"@))
    } else {
        Ok(
            InfoModel {
                name: package,
                version: state.version,
                description: description_of(lines),
                license: state.license,
                homepage: state.homepage,
                repository: state.repository,
                features: state.features,
                dependencies: Seq::empty(),
            },
        )
    }
}

/// What follows `word` on a line, without white space around it.
fn read_value(line: &Vec<char>, word: &str) -> (r: Vec<char>)
    ensures
        r@ == value_after(line@, word@),
{
    let w = chars_of(word);
    trim(&trim_start_matches(line, &w))
}

/// Tests whether a line begins with `word`.
fn begins_with(line: &Vec<char>, word: &str) -> (r: bool)
    ensures
        r == has_prefix(line@, word@),
{
    let w = chars_of(word);
    starts_with(line, &w)
}

/// A string of the text, if there is one.
fn opt_string(o: &Option<Vec<char>>) -> (r: Option<String>)
    ensures
        r is Some == *o is Some,
        r is Some ==> r->0@ == o->0@,
{
    match o {
        Some(v) => Some(string_of(v)),
        None => None,
    }
}

/// Reads the output of `cargo info` for the package `package`.
pub fn parse_cargo_info(output: &str, package: &str) -> (r: Result<PackageInfo, PackageError>)
    ensures
        result_view(r) == cargo_info_of(output@, package@),
{
    let all = lines(&chars_of(output));
    let ghost texts_of_lines = rows(all@);
    assert(texts_of_lines.len() == all.len());
    let mut description: Option<Vec<char>> = None;
    if all.len() >= 2 {
        assert(texts_of_lines[1] == all@[1]@);
        if all[1].len() > 0 && !begins_with(&all[1], "version:") {
            description = Some(slice_of(&all[1], 0, all[1].len()));
            assert(description->0@ =~= all@[1]@);
        }
    }
    let mut version: Vec<char> = Vec::new();
    let mut license: Option<Vec<char>> = None;
    let mut homepage: Option<Vec<char>> = None;
    let mut repository: Option<Vec<char>> = None;
    let mut features: Vec<Feature> = Vec::new();
    let mut in_features = false;
    let mut i: usize = 2;
    assert(feature_views(features@) =~= Seq::<FeatureModel>::empty());
    assert(version@ =~= Seq::<char>::empty());
    while i < all.len()
        invariant
            2 <= i,
            i <= all.len() || all.len() < 2,
            all.len() < 2 ==> i == 2,
            texts_of_lines.len() == all.len(),
            texts_of_lines == rows(all@),
            texts_of_lines == lines_of(output@),
            description is Some == description_of(texts_of_lines) is Some,
            description is Some ==> description->0@ == description_of(texts_of_lines)->0,
            version@ == info_after(texts_of_lines, i as int).version,
            license is Some == info_after(texts_of_lines, i as int).license is Some,
            license is Some ==> license->0@ == info_after(texts_of_lines, i as int).license->0,
            homepage is Some == info_after(texts_of_lines, i as int).homepage is Some,
            homepage is Some ==> homepage->0@ == info_after(texts_of_lines, i as int).homepage->0,
            repository is Some == info_after(texts_of_lines, i as int).repository is Some,
            repository is Some ==> repository->0@ == info_after(
                texts_of_lines,
                i as int,
            ).repository->0,
            feature_views(features@) == info_after(texts_of_lines, i as int).features,
            in_features == info_after(texts_of_lines, i as int).in_features,
        decreases all.len() - i,
    {
        let line = &all[i];
        assert(texts_of_lines[i as int] == line@);
        if begins_with(line, "version:") {
            version = read_value(line, "version:");
        } else if begins_with(line, "license:") {
            license = Some(read_value(line, "license:"));
        } else if begins_with(line, "homepage:") {
            homepage = Some(read_value(line, "homepage:"));
        } else if begins_with(line, "repository:") {
            repository = Some(read_value(line, "repository:"));
        } else if begins_with(line, "features:") {
            in_features = true;
        } else if begins_with(line, "note:") {
            in_features = false;
        } else if in_features && begins_with(line, " ") {
            let text = string_of(line);
            match parse_feature_line(text.as_str()) {
                Some(feature) => {
                    let ghost so_far = feature_views(features@);
                    features.push(feature);
                    assert(feature_views(features@) =~= so_far.push(feature@));
                },
                None => {},
            }
        }
        i += 1;
    }
    if version.len() == 0 {
        return Err(PackageError::ParseError("could not find version in output".to_owned()));
    }
    let dependencies: Vec<Dependency> = Vec::new();
    assert(dependency_views(dependencies@) =~= Seq::<DependencyModel>::empty());
    Ok(
        PackageInfo {
            name: package.to_owned(),
            version: string_of(&version),
            description: opt_string(&description),
            license: opt_string(&license),
            homepage: opt_string(&homepage),
            repository: opt_string(&repository),
            features,
            dependencies,
        },
    )
}

/// What a run of `cargo info` tells of a package: what its output says if
/// it succeeded; else that the package was not found, if the tool said
/// `could not find`, and else that the tool failed, with what it said.
pub open spec fn cargo_answer_of(
    success: bool,
    stdout: Seq<char>,
    stderr: Seq<char>,
    package: Seq<char>,
) -> Result<InfoModel, ErrorModel> {
    if success {
        cargo_info_of(stdout, package)
    } else if has_infix(stderr, "could not find"@) {
        Err(ErrorModel::NotFound(package))
    } else {
        Err(ErrorModel::ToolFailed(stderr))
    }
}

/// The Cargo ecosystem of Rust.
pub struct Cargo;

impl Cargo {
    /// The name of the ecosystem: `cargo`.
    pub fn name(&self) -> (r: &'static str)
        ensures
            r@ == "cargo"@,
    {
        "cargo"
    }

    /// The files that show that a project belongs to the ecosystem.
    pub fn manifest_files(&self) -> (r: Vec<&'static str>)
        ensures
            r@.len() == 1,
            r@[0]@ == "Cargo.toml"@,
    {
        vec!["Cargo.toml"]
    }

    /// The lockfiles of the ecosystem, each with the tool that writes it.
    pub fn lockfiles(&self) -> (r: Vec<LockfileManager>)
        ensures
            r@.len() == 1,
            r@[0].filename@ == "Cargo.lock"@,
            r@[0].manager@ == "cargo"@,
    {
        vec![LockfileManager { filename: "Cargo.lock", manager: "cargo" }]
    }

    /// The tools that can tell about a package.
    pub fn tools(&self) -> (r: Vec<&'static str>)
        ensures
            r@.len() == 1,
            r@[0]@ == "cargo"@,
    {
        vec!["cargo"]
    }

    /// What the run `output` of the tool `tool` tells of a package. Only
    /// the tool `cargo` is known; any other fails with `unknown tool: ` and
    /// its name.
    pub fn fetch_info(&self, package: &str, tool: &str, output: &ToolOutput) -> (r: Result<
        PackageInfo,
        PackageError,
    >)
        ensures
            tool@ == "cargo"@ ==> result_view(r) == cargo_answer_of(
                output.success,
                output.stdout@,
                output.stderr@,
                package@,
            ),
            tool@ != "cargo"@ ==> result_view(r) == Err::<InfoModel, ErrorModel>(
                ErrorModel::ToolFailed("unknown tool: "@ + tool@),
            ),
    {
        if text_is(tool, "cargo") {
            interpret_cargo_output(package, output)
        } else {
            let message = concat(&chars_of("unknown tool: "), &chars_of(tool));
            Err(PackageError::ToolFailed(string_of(&message)))
        }
    }
}

/// What a run of `cargo info` tells of a package.
pub fn interpret_cargo_output(package: &str, output: &ToolOutput) -> (r: Result<
    PackageInfo,
    PackageError,
>)
    ensures
        result_view(r) == cargo_answer_of(
            output.success,
            output.stdout@,
            output.stderr@,
            package@,
        ),
{
    if output.success {
        parse_cargo_info(output.stdout.as_str(), package)
    } else {
        let said = chars_of(output.stderr.as_str());
        if contains(&said, &chars_of("could not find")) {
            Err(PackageError::NotFound(package.to_owned()))
        } else {
            Err(PackageError::ToolFailed(output.stderr.clone()))
        }
    }
}

/// An ecosystem that this library knows.
#[derive(Debug, Clone, Copy, PartialEq, Eq, Structural)]
pub enum Ecosystem {
    Cargo,
}

/// Whether one of `files` is called `name`.
pub open spec fn has_file(files: Seq<String>, name: Seq<char>) -> bool {
    exists|i: int| 0 <= i < files.len() && (#[trigger] files[i])@ == name
}

/// The ecosystem of a project, told by the names of the files in its root:
/// Cargo where a `Cargo.toml` is among them.
pub fn detect(root_files: &Vec<String>) -> (r: Option<Ecosystem>)
    ensures
        r == if has_file(root_files@, "Cargo.toml"@) {
            Some(Ecosystem::Cargo)
        } else {
            None
        },
{
    let mut i: usize = 0;
    while i < root_files.len()
        invariant
            i <= root_files.len(),
            forall|k: int| 0 <= k < i ==> (#[trigger] root_files@[k])@ != "Cargo.toml"@,
        decreases root_files.len() - i,
    {
        if text_is(root_files[i].as_str(), "Cargo.toml") {
            return Some(Ecosystem::Cargo);
        }
        i += 1;
    }
    None
}

/// Every ecosystem that this library knows.
pub fn all() -> (r: Vec<Ecosystem>)
    ensures
        r@ == seq![Ecosystem::Cargo],
{
    vec![Ecosystem::Cargo]
}


impl Ecosystem {
    /// The name of the ecosystem.
    pub open spec fn name_of(&self) -> Seq<char> {
        match self {
            Ecosystem::Cargo => "cargo"@,
        }
    }

    /// The name of the ecosystem.
    pub fn name(&self) -> (r: &'static str)
        ensures
            r@ == self.name_of(),
    {
        match self {
            Ecosystem::Cargo => Cargo.name(),
        }
    }
}

/// The ecosystem called `name`, if this library knows one.
pub fn find_ecosystem_by_name(name: &str) -> (r: Option<Ecosystem>)
    ensures
        r == if name@ == "cargo"@ {
            Some(Ecosystem::Cargo)
        } else {
            None
        },
{
    let known = all();
    let mut i: usize = 0;
    while i < known.len()
        invariant
            i <= known.len(),
            known@ == seq![Ecosystem::Cargo],
            forall|k: int| 0 <= k < i ==> (#[trigger] known@[k]).name_of() != name@,
        decreases known.len() - i,
    {
        if text_is(known[i].name(), name) {
            return Some(known[i]);
        }
        i += 1;
    }
    assert(known@[0].name_of() != name@);
    None
}

/// The names of the ecosystems that this library knows.
pub fn available_ecosystems() -> (r: Vec<&'static str>)
    ensures
        r@.len() == 1,
        r@[0]@ == "cargo"@,
{
    let known = all();
    let mut out: Vec<&'static str> = Vec::new();
    let mut i: usize = 0;
    while i < known.len()
        invariant
            i <= known.len(),
            known@ == seq![Ecosystem::Cargo],
            out.len() == i,
            forall|k: int| 0 <= k < i ==> (#[trigger] out@[k])@ == known@[k].name_of(),
        decreases known.len() - i,
    {
        out.push(known[i].name());
        i += 1;
    }
    out
}

/// The line for a feature: its name and, where it switches anything on,
/// what it switches on in square brackets.
pub open spec fn feature_line(f: FeatureModel) -> Seq<char> {
    if f.dependencies.len() == 0 {
        "  "@ + f.name
    } else {
        "  "@ + f.name + " = ["@ + join_of(f.dependencies, ", "@) + "]"@
    }
}

/// The lines for the first `n` features.
pub open spec fn feature_lines(features: Seq<FeatureModel>, n: int) -> Seq<Seq<char>>
    decreases n,
{
    if n <= 0 {
        Seq::empty()
    } else {
        feature_lines(features, n - 1).push(feature_line(features[n - 1]))
    }
}

/// The line for a dependency: its name, the versions asked for or a star,
/// and whether it is optional.
pub open spec fn dependency_line(d: DependencyModel) -> Seq<char> {
    "  "@ + d.name + " "@ + match d.version_req {
        Some(v) => v,
        None => "*"@,
    } + if d.optional {
        " (optional)"@
    } else {
        ""@
    }
}

/// The lines for the first `n` dependencies.
pub open spec fn dependency_lines(deps: Seq<DependencyModel>, n: int) -> Seq<Seq<char>>
    decreases n,
{
    if n <= 0 {
        Seq::empty()
    } else {
        dependency_lines(deps, n - 1).push(dependency_line(deps[n - 1]))
    }
}

/// A line, if there is a value for it: the label and the value.
pub open spec fn labelled(label: Seq<char>, value: Option<Seq<char>>) -> Seq<Seq<char>> {
    match value {
        Some(v) => seq![label + v],
        None => Seq::empty(),
    }
}

/// What is shown of a package to a reader: its name, version and
/// ecosystem; its description; after an empty line its license, homepage
/// and repository; and, each after an empty line and a title, its
/// features and its dependencies, where it has any.
pub open spec fn info_lines(info: InfoModel, ecosystem: Seq<char>) -> Seq<Seq<char>> {
    seq![info.name + " "@ + info.version + " ("@ + ecosystem + ")"@] + labelled(
        Seq::empty(),
        info.description,
    ) + seq![Seq::empty()] + labelled("license: "@, info.license) + labelled(
        "homepage: "@,
        info.homepage,
    ) + labelled("repository: "@, info.repository) + if info.features.len() > 0 {
        seq![Seq::empty(), "features:"@] + feature_lines(info.features, info.features.len() as int)
    } else {
        Seq::empty()
    } + if info.dependencies.len() > 0 {
        seq![Seq::empty(), "dependencies:"@] + dependency_lines(
            info.dependencies,
            info.dependencies.len() as int,
        )
    } else {
        Seq::empty()
    }
}

/// Adds the line for a value, if there is one.
fn push_labelled(out: &mut Vec<Vec<char>>, label: &str, value: &Option<String>)
    ensures
        rows(final(out)@) == rows(old(out)@) + labelled(label@, opt_text(*value)),
{
    let ghost start = rows(out@);
    match value {
        Some(v) => {
            let line = concat(&chars_of(label), &chars_of(v.as_str()));
            out.push(line);
            assert(rows(out@) =~= start + seq![label@ + v@]);
        },
        None => {
            assert(rows(out@) =~= start + Seq::<Seq<char>>::empty());
        },
    }
}

/// The texts of `v` as characters.
fn chars_of_all(v: &Vec<String>) -> (r: Vec<Vec<char>>)
    ensures
        rows(r@) == texts(v@),
{
    let mut out: Vec<Vec<char>> = Vec::new();
    let mut i: usize = 0;
    while i < v.len()
        invariant
            i <= v.len(),
            out.len() == i,
            forall|k: int| 0 <= k < i ==> (#[trigger] out@[k])@ == v@[k]@,
        decreases v.len() - i,
    {
        out.push(chars_of(v[i].as_str()));
        i += 1;
    }
    assert(rows(out@) =~= texts(v@));
    out
}

/// What is shown of a package to a reader, line by line.
pub fn print_human(info: &PackageInfo, ecosystem: &str) -> (r: Vec<String>)
    ensures
        texts(r@) == info_lines(info@, ecosystem@),
{
    let mut out: Vec<Vec<char>> = Vec::new();
    let a = concat(&chars_of(info.name.as_str()), &chars_of(" "));
    let b = concat(&a, &chars_of(info.version.as_str()));
    let c = concat(&b, &chars_of(" ("));
    let d = concat(&c, &chars_of(ecosystem));
    let title = concat(&d, &chars_of(")"));
    out.push(title);
    assert(rows(out@) =~= seq![info@.name + " "@ + info@.version + " ("@ + ecosystem@ + ")"@]);
    proof {
        reveal_strlit("");
        assert(""@ =~= Seq::<char>::empty());
    }
    push_labelled(&mut out, "", &info.description);
    let ghost before_gap = rows(out@);
    out.push(Vec::new());
    assert(rows(out@) =~= before_gap + seq![Seq::<char>::empty()]);
    push_labelled(&mut out, "license: ", &info.license);
    push_labelled(&mut out, "homepage: ", &info.homepage);
    push_labelled(&mut out, "repository: ", &info.repository);
    let ghost head = rows(out@);
    assert(info@.features.len() == info.features.len());
    assert(info@.dependencies.len() == info.dependencies.len());
    if info.features.len() > 0 {
        out.push(Vec::new());
        out.push(chars_of("features:"));
        assert(rows(out@) =~= head + seq![Seq::<char>::empty(), "features:"@]);
        let ghost titled = rows(out@);
        let mut i: usize = 0;
        assert(rows(out@) =~= titled + feature_lines(info@.features, 0));
        while i < info.features.len()
            invariant
                i <= info.features.len(),
                rows(out@) == titled + feature_lines(info@.features, i as int),
            decreases info.features.len() - i,
        {
            let feature = &info.features[i];
            assert(info@.features[i as int] == feature@);
            let named = concat(&chars_of("  "), &chars_of(feature.name.as_str()));
            assert(feature@.dependencies.len() == feature.dependencies.len());
            let line = if feature.dependencies.len() == 0 {
                named
            } else {
                let deps = join(&chars_of_all(&feature.dependencies), &chars_of(", "));
                concat(&concat(&concat(&named, &chars_of(" = [")), &deps), &chars_of("]"))
            };
            assert(line@ == feature_line(feature@));
            let ghost so_far = rows(out@);
            out.push(line);
            assert(rows(out@) =~= so_far.push(feature_line(feature@)));
            assert(rows(out@) =~= titled + feature_lines(info@.features, i + 1));
            i += 1;
        }
    }
    let ghost with_features = rows(out@);
    assert(with_features =~= head + if info@.features.len() > 0 {
        seq![Seq::<char>::empty(), "features:"@] + feature_lines(
            info@.features,
            info@.features.len() as int,
        )
    } else {
        Seq::<Seq<char>>::empty()
    });
    if info.dependencies.len() > 0 {
        out.push(Vec::new());
        out.push(chars_of("dependencies:"));
        assert(rows(out@) =~= with_features + seq![Seq::<char>::empty(), "dependencies:"@]);
        let ghost titled = rows(out@);
        let mut i: usize = 0;
        assert(rows(out@) =~= titled + dependency_lines(info@.dependencies, 0));
        while i < info.dependencies.len()
            invariant
                i <= info.dependencies.len(),
                rows(out@) == titled + dependency_lines(info@.dependencies, i as int),
            decreases info.dependencies.len() - i,
        {
            let dep = &info.dependencies[i];
            assert(info@.dependencies[i as int] == dep@);
            let version: Vec<char> = match &dep.version_req {
                Some(v) => chars_of(v.as_str()),
                None => chars_of("*"),
            };
            let optional = if dep.optional {
                chars_of(" (optional)")
            } else {
                chars_of("")
            };
            let a = concat(&chars_of("  "), &chars_of(dep.name.as_str()));
            let b = concat(&a, &chars_of(" "));
            let c = concat(&b, &version);
            let line = concat(&c, &optional);
            assert(line@ == dependency_line(dep@));
            let ghost so_far = rows(out@);
            out.push(line);
            assert(rows(out@) =~= so_far.push(dependency_line(dep@)));
            assert(rows(out@) =~= titled + dependency_lines(info@.dependencies, i + 1));
            i += 1;
        }
    }
    assert(rows(out@) =~= info_lines(info@, ecosystem@));
    strings_of(&out)
}

} // verus!
