//! Bot descriptors and the commands derived from them.

use crate::config::{
    field, fields_of, find, items_of, lemma_view, member, parse_document, toml_document,
    ConfigEntry, ConfigValue, ValueModel,
};
use crate::registry::{has_key, Registry};
use crate::paths;
use crate::text::{copy_strings, has_whitespace, opt_view, opt_views, views};
use vstd::prelude::*;

verus! {

broadcast use vstd::string::group_string_axioms;

/// An unstarted command: what to run, with which arguments, where, and with
/// which additions to the environment.
#[derive(Debug, PartialEq, Eq)]
pub struct CommandSpec {
    pub program: String,
    pub args: Vec<String>,
    pub current_dir: Option<String>,
    pub env: Vec<(String, String)>,
}

/// The mathematical content of a [`CommandSpec`].
pub struct CommandSpecModel {
    pub program: Seq<char>,
    pub args: Seq<Seq<char>>,
    pub current_dir: Option<Seq<char>>,
    pub env: Seq<(Seq<char>, Seq<char>)>,
}

impl View for CommandSpec {
    type V = CommandSpecModel;

    open spec fn view(&self) -> CommandSpecModel {
        CommandSpecModel {
            program: self.program@,
            args: views(self.args@),
            current_dir: opt_view(self.current_dir),
            env: Seq::new(self.env@.len(), |i: int| (self.env@[i].0@, self.env@[i].1@)),
        }
    }
}

/// The two paths of a bot: its repository, if it has one, and its
/// executable.
#[derive(Debug, PartialEq, Eq)]
pub struct BotPaths {
    pub repo: Option<String>,
    pub executable: String,
}

/// The mathematical content of a [`BotPaths`].
pub struct BotPathsModel {
    pub repo: Option<Seq<char>>,
    pub executable: Seq<char>,
}

impl View for BotPaths {
    type V = BotPathsModel;

    open spec fn view(&self) -> BotPathsModel {
        BotPathsModel { repo: opt_view(self.repo), executable: self.executable@ }
    }
}

/// What the file system says of a bot's paths: whether the repository opens
/// as one under version control, and whether the executable path leads to a
/// file.
#[derive(Clone, Copy, Debug, PartialEq, Eq, Structural)]
pub struct PathProbe {
    pub repo_is_git: bool,
    pub executable_is_file: bool,
}

/// The validated description of one bot.
#[derive(Debug)]
pub struct Bot {
    name: String,
    repo_path: Option<String>,
    executable_path: String,
    build_args: Option<Vec<String>>,
    run_args: Option<Vec<String>>,
    token: Option<String>,
}

/// The mathematical content of a [`Bot`].
pub struct BotModel {
    pub name: Seq<char>,
    pub repo_path: Option<Seq<char>>,
    pub executable_path: Seq<char>,
    pub build_args: Option<Seq<Seq<char>>>,
    pub run_args: Option<Seq<Seq<char>>>,
    pub token: Option<Seq<char>>,
}

impl BotModel {
    /// What every descriptor satisfies: the name is not empty and holds no
    /// whitespace, and build arguments come only with a repository.
    pub open spec fn valid(self) -> bool {
        &&& self.name.len() > 0
        &&& !has_whitespace(self.name)
        &&& self.build_args is Some ==> self.repo_path is Some
    }
}

/// The message of every command that needs a repository and finds none.
pub open spec fn no_repo_message() -> Seq<char> {
    "Target bot doesn't have a repo_path!"@
}

/// The paths of the bot.
pub open spec fn paths_of(bot: BotModel) -> BotPathsModel {
    BotPathsModel { repo: bot.repo_path, executable: bot.executable_path }
}

/// The command that starts the bot.
pub open spec fn run_command(bot: BotModel) -> CommandSpecModel {
    CommandSpecModel {
        program: bot.executable_path,
        args: match bot.run_args {
            Some(args) => args,
            None => Seq::empty(),
        },
        current_dir: bot.repo_path,
        env: match bot.token {
            Some(token) => seq![("DISCORD_TOKEN"@, token)],
            None => Seq::empty(),
        },
    }
}

/// The command `program` with `args`, run in `repo`.
pub open spec fn repo_command(program: Seq<char>, args: Seq<Seq<char>>, repo: Seq<char>) -> CommandSpecModel {
    CommandSpecModel { program, args, current_dir: Some(repo), env: Seq::empty() }
}

/// The command that builds the bot: with the descriptor's build arguments,
/// or as a release build where it has none.
pub open spec fn build_command(bot: BotModel) -> Result<CommandSpecModel, Seq<char>> {
    match bot.repo_path {
        Some(repo) => Ok(
            repo_command(
                "cargo"@,
                seq!["build"@] + match bot.build_args {
                    Some(args) => args,
                    None => seq!["--release"@],
                },
                repo,
            ),
        ),
        None => Err(no_repo_message()),
    }
}

/// The command that updates the bot's sources.
pub open spec fn pull_command(bot: BotModel) -> Result<CommandSpecModel, Seq<char>> {
    match bot.repo_path {
        Some(repo) => Ok(repo_command("git"@, seq!["pull"@], repo)),
        None => Err(no_repo_message()),
    }
}

/// The command that removes everything the build left.
pub open spec fn clean_all_command(bot: BotModel) -> Result<CommandSpecModel, Seq<char>> {
    match bot.repo_path {
        Some(repo) => Ok(repo_command("cargo"@, seq!["clean"@], repo)),
        None => Err(no_repo_message()),
    }
}

/// The shell script that cleans a repository around the executable at
/// `executable`: it moves the executable aside, cleans, and moves it back.
pub open spec fn keeping_script(executable: Seq<char>) -> Seq<char> {
    "(export EXEC_PATH="@ + executable
        + "; (export DCBOTHUB_TMP_EXEC_PATH=\"dcbothub_tmp_exec_$(echo $RANDOM)\"; mv $EXEC_PATH $DCBOTHUB_TMP_EXEC_PATH && cargo clean && mkdir -p \"$(dirname $EXEC_PATH)\" && mv $DCBOTHUB_TMP_EXEC_PATH $EXEC_PATH;))"@
}

/// The command that cleans the repository at `repo`: around the executable
/// where it lies inside the repository, plainly where it does not.
pub open spec fn clean_in_command(bot: BotModel, repo: Seq<char>, executable_inside: bool) -> CommandSpecModel {
    if executable_inside {
        repo_command("bash"@, seq!["-c"@, keeping_script(bot.executable_path)], repo)
    } else {
        repo_command("cargo"@, seq!["clean"@], repo)
    }
}

/// The command that cleans the bot's repository without losing its
/// executable: around the executable where it lies inside the repository,
/// plainly where it does not.
pub open spec fn clean_command(bot: BotModel) -> Result<CommandSpecModel, Seq<char>> {
    match bot.repo_path {
        Some(repo) => Ok(
            clean_in_command(bot, repo, paths::path_starts_with(bot.executable_path, repo)),
        ),
        None => Err(no_repo_message()),
    }
}

/// The outcome of checking a descriptor's paths: the repository, if there
/// is one, must be under version control, and the executable must be a file.
pub open spec fn verify_outcome(bot: BotModel, repo_is_git: bool, executable_is_file: bool) -> Result<
    (),
    Seq<char>,
> {
    if bot.repo_path is Some && !repo_is_git {
        Err("bot.repo_path should lead to a git directiory!"@)
    } else if !executable_is_file {
        Err("Given executable_path doesn't lead to a executable file!"@)
    } else {
        Ok(())
    }
}

/// The view of a result that carries a command or a message.
pub open spec fn command_result(r: Result<CommandSpec, String>) -> Result<CommandSpecModel, Seq<char>> {
    match r {
        Ok(command) => Ok(command@),
        Err(message) => Err(message@),
    }
}

/// The view of a result that carries nothing or a message.
pub open spec fn unit_result(r: Result<(), String>) -> Result<(), Seq<char>> {
    match r {
        Ok(_) => Ok(()),
        Err(message) => Err(message@),
    }
}

/// The command `program` with `args`, run in `repo`.
fn repo_command_in(program: &str, args: Vec<String>, repo: &String) -> (r: CommandSpec)
    ensures
        r@ == repo_command(program@, views(args@), repo@),
{
    let command = CommandSpec {
        program: program.to_string(),
        args,
        current_dir: Some(repo.clone()),
        env: Vec::new(),
    };
    assert(command@.env =~= Seq::empty());
    command
}

impl View for Bot {
    type V = BotModel;

    closed spec fn view(&self) -> BotModel {
        BotModel {
            name: self.name@,
            repo_path: opt_view(self.repo_path),
            executable_path: self.executable_path@,
            build_args: opt_views(self.build_args),
            run_args: opt_views(self.run_args),
            token: opt_view(self.token),
        }
    }
}

impl Bot {
    /// What every descriptor satisfies.
    #[verifier::type_invariant]
    spec fn well_formed(&self) -> bool {
        self@.valid()
    }

    /// The bot's name.
    pub fn name(&self) -> (r: &str)
        ensures
            r@ == self@.name,
            self@.valid(),
    {
        proof {
            use_type_invariant(self);
        }
        self.name.as_str()
    }

    /// Whether the bot has a repository.
    pub fn has_repo(&self) -> (r: bool)
        ensures
            r == (self@.repo_path is Some),
    {
        self.repo_path.is_some()
    }

    /// The bot's paths.
    pub fn paths(&self) -> (r: BotPaths)
        ensures
            r@ == paths_of(self@),
    {
        BotPaths { repo: self.repo_path.clone(), executable: self.executable_path.clone() }
    }

    /// The outcome of checking the bot's paths, given whether its repository
    /// opens as one under version control and whether its executable path
    /// leads to a file.
    pub fn verify(&self, repo_is_git: bool, executable_is_file: bool) -> (r: Result<(), String>)
        ensures
            unit_result(r) == verify_outcome(self@, repo_is_git, executable_is_file),
    {
        if self.repo_path.is_some() && !repo_is_git {
            return Err("bot.repo_path should lead to a git directiory!".to_string());
        }
        if !executable_is_file {
            return Err("Given executable_path doesn't lead to a executable file!".to_string());
        }
        Ok(())
    }

    /// The command that cleans the repository at `repo`, around the
    /// executable if `executable_inside` says that it lies in there.
    pub fn clean_in(&self, repo: &String, executable_inside: bool) -> (r: CommandSpec)
        ensures
            r@ == clean_in_command(self@, repo@, executable_inside),
    {
        if executable_inside {
            let mut script = "(export EXEC_PATH=".to_string();
            script.append(self.executable_path.as_str());
            script.append(
                "; (export DCBOTHUB_TMP_EXEC_PATH=\"dcbothub_tmp_exec_$(echo $RANDOM)\"; mv $EXEC_PATH $DCBOTHUB_TMP_EXEC_PATH && cargo clean && mkdir -p \"$(dirname $EXEC_PATH)\" && mv $DCBOTHUB_TMP_EXEC_PATH $EXEC_PATH;))",
            );
            let mut args: Vec<String> = Vec::new();
            args.push("-c".to_string());
            args.push(script);
            assert(views(args@) =~= seq!["-c"@, keeping_script(self@.executable_path)]);
            repo_command_in("bash", args, repo)
        } else {
            let mut args: Vec<String> = Vec::new();
            args.push("clean".to_string());
            assert(views(args@) =~= seq!["clean"@]);
            repo_command_in("cargo", args, repo)
        }
    }

    /// The command that cleans the bot's repository without losing its
    /// executable.
    pub fn clean(&self) -> (r: Result<CommandSpec, String>)
        ensures
            command_result(r) == clean_command(self@),
    {
        match &self.repo_path {
            Some(repo) => {
                let inside = paths::starts_with(self.executable_path.as_str(), repo.as_str());
                Ok(self.clean_in(repo, inside))
            },
            None => Err("Target bot doesn't have a repo_path!".to_string()),
        }
    }

    /// The descriptor with `executable_path` for its executable and
    /// everything else as it is.
    pub fn with_executable(self, executable_path: String) -> (r: Bot)
        ensures
            r@ == (BotModel { executable_path: executable_path@, ..self@ }),
    {
        proof {
            use_type_invariant(&self);
        }
        Bot {
            name: self.name,
            repo_path: self.repo_path,
            executable_path,
            build_args: self.build_args,
            run_args: self.run_args,
            token: self.token,
        }
    }

    /// The command that removes everything the build left.
    pub fn clean_all(&self) -> (r: Result<CommandSpec, String>)
        ensures
            command_result(r) == clean_all_command(self@),
    {
        match &self.repo_path {
            Some(repo) => {
                let mut args: Vec<String> = Vec::new();
                args.push("clean".to_string());
                assert(views(args@) =~= seq!["clean"@]);
                Ok(repo_command_in("cargo", args, repo))
            },
            None => Err("Target bot doesn't have a repo_path!".to_string()),
        }
    }

    /// The command that builds the bot.
    pub fn build(&self) -> (r: Result<CommandSpec, String>)
        ensures
            command_result(r) == build_command(self@),
    {
        match &self.repo_path {
            Some(repo) => {
                let mut args: Vec<String> = Vec::new();
                args.push("build".to_string());
                match &self.build_args {
                    Some(build_args) => {
                        let mut i: usize = 0;
                        while i < build_args.len()
                            invariant
                                i <= build_args.len(),
                                args@.len() == i + 1,
                                args@[0]@ == "build"@,
                                forall|k: int|
                                    0 <= k < i ==> (#[trigger] args@[k + 1])@ == build_args@[k]@,
                            decreases build_args.len() - i,
                        {
                            args.push(build_args[i].clone());
                            i = i + 1;
                        }
                        assert(views(args@) =~= seq!["build"@] + views(build_args@)) by {
                            assert forall|k: int| 1 <= k < args@.len() implies views(args@)[k]
                                == views(build_args@)[k - 1] by {
                                assert(args@[(k - 1) + 1]@ == build_args@[k - 1]@);
                            }
                        }
                    },
                    None => {
                        args.push("--release".to_string());
                        assert(views(args@) =~= seq!["build"@] + seq!["--release"@]);
                    },
                }
                Ok(repo_command_in("cargo", args, repo))
            },
            None => Err("Target bot doesn't have a repo_path!".to_string()),
        }
    }

    /// The command that updates the bot's sources.
    pub fn pull(&self) -> (r: Result<CommandSpec, String>)
        ensures
            command_result(r) == pull_command(self@),
    {
        match &self.repo_path {
            Some(repo) => {
                let mut args: Vec<String> = Vec::new();
                args.push("pull".to_string());
                assert(views(args@) =~= seq!["pull"@]);
                Ok(repo_command_in("git", args, repo))
            },
            None => Err("Target bot doesn't have a repo_path!".to_string()),
        }
    }

    /// The command that starts the bot: its executable with the run
    /// arguments, in the repository if there is one, with the token in
    /// `DISCORD_TOKEN` if there is one.
    pub fn run(&self) -> (r: CommandSpec)
        ensures
            r@ == run_command(self@),
    {
        let args = match &self.run_args {
            Some(run_args) => copy_strings(run_args),
            None => Vec::new(),
        };
        let mut env: Vec<(String, String)> = Vec::new();
        match &self.token {
            Some(token) => {
                env.push(("DISCORD_TOKEN".to_string(), token.clone()));
            },
            None => {},
        }
        let command = CommandSpec {
            program: self.executable_path.clone(),
            args,
            current_dir: self.repo_path.clone(),
            env,
        };
        assert(command@.env =~= run_command(self@).env);
        assert(command@.args =~= run_command(self@).args);
        command
    }
}

/// The name that a table gives its bot: a text that is not empty and holds
/// no whitespace.
pub open spec fn name_of(fields: Seq<(Seq<char>, ValueModel)>) -> Result<Seq<char>, Seq<char>> {
    match field(fields, "name"@) {
        Some(ValueModel::Text(name)) => if has_whitespace(name) {
            Err("bot.name should contain no whitespace!"@)
        } else if name.len() == 0 {
            Err("bot.name should not be empty!"@)
        } else {
            Ok(name)
        },
        Some(_) => Err("bot.name should be a string!"@),
        None => Err("Given bot doesn't have a name!"@),
    }
}

/// The repository that a table gives its bot, given what the path resolves
/// to (`None` where it does not resolve).
pub open spec fn repo_of(
    fields: Seq<(Seq<char>, ValueModel)>,
    resolved_repo: Option<Seq<char>>,
) -> Result<Option<Seq<char>>, Seq<char>> {
    match field(fields, "repo_path"@) {
        Some(ValueModel::Text(_)) => match resolved_repo {
            Some(path) => Ok(Some(path)),
            None => Err("bot.repo_path should be resolvable to a directory!"@),
        },
        Some(_) => Err("bot.repo_path should be a string!"@),
        None => Ok(None),
    }
}

/// Where the executable of a bot is found: at a path as it stands, or at a
/// path below the repository.
#[derive(Debug, PartialEq, Eq)]
pub enum ExecutableSource {
    Given(String),
    UnderRepo { repo: String, path: String },
}

/// The mathematical content of an [`ExecutableSource`].
pub enum ExecutableSourceModel {
    Given(Seq<char>),
    UnderRepo { repo: Seq<char>, path: Seq<char> },
}

impl View for ExecutableSource {
    type V = ExecutableSourceModel;

    open spec fn view(&self) -> ExecutableSourceModel {
        match self {
            ExecutableSource::Given(path) => ExecutableSourceModel::Given(path@),
            ExecutableSource::UnderRepo { repo, path } => ExecutableSourceModel::UnderRepo {
                repo: repo@,
                path: path@,
            },
        }
    }
}

/// Where a table puts the executable of the bot `name` with the repository
/// `repo`. A path that is given counts from the repository if there is one
/// and the path is relative, which `relative` says; where none is given,
/// the executable is the release build of the repository.
pub open spec fn executable_source(
    fields: Seq<(Seq<char>, ValueModel)>,
    name: Seq<char>,
    repo: Option<Seq<char>>,
    relative: bool,
) -> Result<ExecutableSourceModel, Seq<char>> {
    match field(fields, "executable_path"@) {
        Some(ValueModel::Text(path)) => match repo {
            Some(repo) => if relative {
                Ok(ExecutableSourceModel::UnderRepo { repo, path })
            } else {
                Ok(ExecutableSourceModel::Given(path))
            },
            None => Ok(ExecutableSourceModel::Given(path)),
        },
        Some(_) => Err("bot.executable_path should be a string!"@),
        None => match repo {
            Some(repo) => Ok(
                ExecutableSourceModel::UnderRepo { repo, path: "target/release/"@ + name },
            ),
            None => Err("None of repo_path or executable_path is presented!"@),
        },
    }
}

/// Whether the executable path that a table gives is relative; `false`
/// where it gives none.
pub open spec fn executable_is_relative(fields: Seq<(Seq<char>, ValueModel)>) -> bool {
    match field(fields, "executable_path"@) {
        Some(ValueModel::Text(path)) => paths::is_relative_path(path),
        _ => false,
    }
}

/// The executable path of the bot `name` with the repository `repo`.
pub open spec fn executable_of(
    fields: Seq<(Seq<char>, ValueModel)>,
    name: Seq<char>,
    repo: Option<Seq<char>>,
) -> Result<Seq<char>, Seq<char>> {
    match executable_source(fields, name, repo, executable_is_relative(fields)) {
        Ok(ExecutableSourceModel::Given(path)) => Ok(path),
        Ok(ExecutableSourceModel::UnderRepo { repo, path }) => Ok(paths::joined_path(repo, path)),
        Err(message) => Err(message),
    }
}

/// The texts of a list whose items are all texts.
pub open spec fn strings_of(items: Seq<ValueModel>) -> Option<Seq<Seq<char>>> {
    if forall|i: int| 0 <= i < items.len() ==> (#[trigger] items[i]) is Text {
        Some(Seq::new(items.len(), |i: int| items[i]->Text_0))
    } else {
        None
    }
}

/// The build arguments that a table gives: a list of texts, which only a
/// bot with a repository may have.
pub open spec fn build_args_of(fields: Seq<(Seq<char>, ValueModel)>, repo: Option<Seq<char>>) -> Result<
    Option<Seq<Seq<char>>>,
    Seq<char>,
> {
    match field(fields, "build_args"@) {
        Some(ValueModel::List(items)) => if repo is None {
            Err("bot.build_args is presented although repo_path isn't!"@)
        } else {
            match strings_of(items) {
                Some(args) => Ok(Some(args)),
                None => Err("element of bot.build_args should be a string!"@),
            }
        },
        Some(_) => Err("bot.build_args should be a array!"@),
        None => Ok(None),
    }
}

/// The run arguments that a table gives: a list of texts.
pub open spec fn run_args_of(fields: Seq<(Seq<char>, ValueModel)>) -> Result<
    Option<Seq<Seq<char>>>,
    Seq<char>,
> {
    match field(fields, "run_args"@) {
        Some(ValueModel::List(items)) => match strings_of(items) {
            Some(args) => Ok(Some(args)),
            None => Err("element of bot.run_args should be a string!"@),
        },
        Some(_) => Err("bot.run_args should be a array!"@),
        None => Ok(None),
    }
}

/// The token that a table gives: a text.
pub open spec fn token_of(fields: Seq<(Seq<char>, ValueModel)>) -> Result<
    Option<Seq<char>>,
    Seq<char>,
> {
    match field(fields, "token"@) {
        Some(ValueModel::Text(token)) => Ok(Some(token)),
        Some(_) => Err("bot.token should be a string!"@),
        None => Ok(None),
    }
}

/// The descriptor with the given name, repository and executable, and with
/// the arguments and the token that the table gives.
pub open spec fn completed(
    fields: Seq<(Seq<char>, ValueModel)>,
    name: Seq<char>,
    repo_path: Option<Seq<char>>,
    executable_path: Seq<char>,
) -> Result<BotModel, Seq<char>> {
    match build_args_of(fields, repo_path) {
        Err(message) => Err(message),
        Ok(build_args) => match run_args_of(fields) {
            Err(message) => Err(message),
            Ok(run_args) => match token_of(fields) {
                Err(message) => Err(message),
                Ok(token) => Ok(
                    BotModel { name, repo_path, executable_path, build_args, run_args, token },
                ),
            },
        },
    }
}

/// The descriptor that a table yields, or the message of the first thing
/// wrong with it: name, repository, executable, build arguments, run
/// arguments and token are looked at in this order.
pub open spec fn descriptor_of(
    fields: Seq<(Seq<char>, ValueModel)>,
    resolved_repo: Option<Seq<char>>,
) -> Result<BotModel, Seq<char>> {
    match name_of(fields) {
        Err(message) => Err(message),
        Ok(name) => match repo_of(fields, resolved_repo) {
            Err(message) => Err(message),
            Ok(repo) => match executable_of(fields, name, repo) {
                Err(message) => Err(message),
                Ok(executable) => completed(fields, name, repo, executable),
            },
        },
    }
}

/// The view of a result that carries a text or a message.
pub open spec fn text_result(r: Result<String, String>) -> Result<Seq<char>, Seq<char>> {
    match r {
        Ok(text) => Ok(text@),
        Err(message) => Err(message@),
    }
}

/// The view of a result that carries an optional text or a message.
pub open spec fn opt_text_result(r: Result<Option<String>, String>) -> Result<
    Option<Seq<char>>,
    Seq<char>,
> {
    match r {
        Ok(text) => Ok(opt_view(text)),
        Err(message) => Err(message@),
    }
}

/// The view of a result that carries an optional list of texts or a
/// message.
pub open spec fn opt_list_result(r: Result<Option<Vec<String>>, String>) -> Result<
    Option<Seq<Seq<char>>>,
    Seq<char>,
> {
    match r {
        Ok(list) => Ok(opt_views(list)),
        Err(message) => Err(message@),
    }
}

/// The view of a result that carries an executable source or a message.
pub open spec fn source_result(r: Result<ExecutableSource, String>) -> Result<
    ExecutableSourceModel,
    Seq<char>,
> {
    match r {
        Ok(source) => Ok(source@),
        Err(message) => Err(message@),
    }
}

/// The view of a result that carries a descriptor or a message.
pub open spec fn bot_result(r: Result<Bot, String>) -> Result<BotModel, Seq<char>> {
    match r {
        Ok(bot) => Ok(bot@),
        Err(message) => Err(message@),
    }
}

/// Reads the bot's name from its table.
pub fn bot_name(table: &Vec<ConfigEntry>) -> (r: Result<String, String>)
    ensures
        text_result(r) == name_of(fields_of(table@)),
{
    match find(table, "name") {
        Some(ConfigValue::Text(name)) => {
            if crate::text::contains_whitespace(name.as_str()) {
                Err("bot.name should contain no whitespace!".to_string())
            } else if name.as_str().unicode_len() == 0 {
                Err("bot.name should not be empty!".to_string())
            } else {
                Ok(name.clone())
            }
        },
        Some(_) => Err("bot.name should be a string!".to_string()),
        None => Err("Given bot doesn't have a name!".to_string()),
    }
}

/// Reads the bot's repository from its table, given what the path resolves
/// to.
pub fn bot_repo(table: &Vec<ConfigEntry>, resolved_repo: &Option<String>) -> (r: Result<
    Option<String>,
    String,
>)
    ensures
        opt_text_result(r) == repo_of(fields_of(table@), opt_view(*resolved_repo)),
{
    match find(table, "repo_path") {
        Some(ConfigValue::Text(_)) => match resolved_repo {
            Some(path) => Ok(Some(path.clone())),
            None => Err("bot.repo_path should be resolvable to a directory!".to_string()),
        },
        Some(_) => Err("bot.repo_path should be a string!".to_string()),
        None => Ok(None),
    }
}

/// Decides where the bot's executable is found. `relative` says whether the
/// path that the table gives is relative; it is not looked at where the
/// table gives none.
pub fn bot_executable_source(
    table: &Vec<ConfigEntry>,
    name: &str,
    repo: &Option<String>,
    relative: bool,
) -> (r: Result<ExecutableSource, String>)
    ensures
        source_result(r) == executable_source(fields_of(table@), name@, opt_view(*repo), relative),
{
    match find(table, "executable_path") {
        Some(ConfigValue::Text(path)) => match repo {
            Some(repo) => {
                if relative {
                    Ok(ExecutableSource::UnderRepo { repo: repo.clone(), path: path.clone() })
                } else {
                    Ok(ExecutableSource::Given(path.clone()))
                }
            },
            None => Ok(ExecutableSource::Given(path.clone())),
        },
        Some(_) => Err("bot.executable_path should be a string!".to_string()),
        None => match repo {
            Some(repo) => {
                let mut path = "target/release/".to_string();
                path.append(name);
                Ok(ExecutableSource::UnderRepo { repo: repo.clone(), path })
            },
            None => Err("None of repo_path or executable_path is presented!".to_string()),
        },
    }
}

/// Finds the bot's executable path.
fn bot_executable(table: &Vec<ConfigEntry>, name: &str, repo: &Option<String>) -> (r: Result<
    String,
    String,
>)
    ensures
        text_result(r) == executable_of(fields_of(table@), name@, opt_view(*repo)),
{
    let relative = match find(table, "executable_path") {
        Some(ConfigValue::Text(path)) => paths::is_relative(path.as_str()),
        _ => false,
    };
    match bot_executable_source(table, name, repo, relative) {
        Ok(ExecutableSource::Given(path)) => Ok(path),
        Ok(ExecutableSource::UnderRepo { repo, path }) => Ok(
            paths::join(repo.as_str(), path.as_str()),
        ),
        Err(message) => Err(message),
    }
}

/// The texts of a list, if all its items are texts.
fn string_list(items: &Vec<ConfigValue>) -> (r: Option<Vec<String>>)
    ensures
        opt_views(r) == strings_of(items_of(items@)),
{
    let mut out: Vec<String> = Vec::new();
    let mut i: usize = 0;
    while i < items.len()
        invariant
            i <= items.len(),
            out@.len() == i,
            forall|k: int| 0 <= k < i ==> (#[trigger] items_of(items@)[k]) is Text,
            forall|k: int| 0 <= k < i ==> (#[trigger] out@[k])@ == items_of(items@)[k]->Text_0,
        decreases items.len() - i,
    {
        match &items[i] {
            ConfigValue::Text(text) => {
                out.push(text.clone());
            },
            _ => {
                assert(!(items_of(items@)[i as int] is Text));
                return None;
            },
        }
        i = i + 1;
    }
    assert(views(out@) =~= strings_of(items_of(items@))->0);
    Some(out)
}

/// Reads an optional list of texts from the value under a key.
fn bot_args(value: Option<&ConfigValue>, not_a_list: &str, not_a_text: &str) -> (r: Result<
    Option<Vec<String>>,
    String,
>)
    ensures
        opt_list_result(r) == match crate::config::opt_value(value) {
            Some(ValueModel::List(items)) => match strings_of(items) {
                Some(args) => Ok(Some(args)),
                None => Err(not_a_text@),
            },
            Some(_) => Err(not_a_list@),
            None => Ok(None),
        },
{
    match value {
        Some(ConfigValue::List(items)) => {
            proof {
                lemma_view(*value->0);
            }
            match string_list(items) {
                Some(args) => Ok(Some(args)),
                None => Err(not_a_text.to_string()),
            }
        },
        Some(_) => Err(not_a_list.to_string()),
        None => Ok(None),
    }
}

impl Bot {
    /// Completes a descriptor with the arguments and the token of `table`.
    fn complete(
        table: &Vec<ConfigEntry>,
        name: String,
        repo_path: Option<String>,
        executable_path: String,
    ) -> (r: Result<Bot, String>)
        requires
            name@.len() > 0,
            !has_whitespace(name@),
        ensures
            bot_result(r) == completed(
                fields_of(table@),
                name@,
                opt_view(repo_path),
                executable_path@,
            ),
    {
        let given = find(table, "build_args");
        let build_args = match given {
            Some(ConfigValue::List(_)) => {
                if repo_path.is_none() {
                    return Err("bot.build_args is presented although repo_path isn't!".to_string());
                }
                match bot_args(
                    given,
                    "bot.build_args should be a array!",
                    "element of bot.build_args should be a string!",
                ) {
                    Ok(args) => args,
                    Err(message) => {
                        return Err(message);
                    },
                }
            },
            Some(_) => {
                return Err("bot.build_args should be a array!".to_string());
            },
            None => None,
        };
        let run_args = match bot_args(
            find(table, "run_args"),
            "bot.run_args should be a array!",
            "element of bot.run_args should be a string!",
        ) {
            Ok(args) => args,
            Err(message) => {
                return Err(message);
            },
        };
        let token = match find(table, "token") {
            Some(ConfigValue::Text(token)) => Some(token.clone()),
            Some(_) => {
                return Err("bot.token should be a string!".to_string());
            },
            None => None,
        };
        Ok(Bot { name, repo_path, executable_path, build_args, run_args, token })
    }

    /// Reads a descriptor from the table of one bot, given what the
    /// repository path of the table resolves to (`None` where it does not
    /// resolve or the table has none).
    pub fn from_toml_table(table: &Vec<ConfigEntry>, resolved_repo: &Option<String>) -> (r: Result<
        Bot,
        String,
    >)
        ensures
            bot_result(r) == descriptor_of(fields_of(table@), opt_view(*resolved_repo)),
            r matches Ok(bot) ==> bot@.valid(),
    {
        let name = match bot_name(table) {
            Ok(name) => name,
            Err(message) => {
                return Err(message);
            },
        };
        let repo = match bot_repo(table, resolved_repo) {
            Ok(repo) => repo,
            Err(message) => {
                return Err(message);
            },
        };
        let executable = match bot_executable(table, name.as_str(), &repo) {
            Ok(executable) => executable,
            Err(message) => {
                return Err(message);
            },
        };
        match Bot::complete(table, name, repo, executable) {
            Ok(bot) => {
                proof {
                    use_type_invariant(&bot);
                }
                Ok(bot)
            },
            Err(message) => Err(message),
        }
    }
}

/// What the file system says of one entry of the configuration: what the
/// repository path of the entry resolves to, what the executable path of
/// the descriptor that the entry yields resolves to (`None` where a path
/// does not resolve), and what was found at the descriptor's paths.
#[derive(Debug, PartialEq, Eq)]
pub struct EntryProbe {
    pub resolved_repo: Option<String>,
    pub resolved_executable: Option<String>,
    pub paths: PathProbe,
}

/// The mathematical content of an [`EntryProbe`].
pub struct EntryProbeModel {
    pub resolved_repo: Option<Seq<char>>,
    pub resolved_executable: Option<Seq<char>>,
    pub paths: PathProbe,
}

impl View for EntryProbe {
    type V = EntryProbeModel;

    open spec fn view(&self) -> EntryProbeModel {
        EntryProbeModel {
            resolved_repo: opt_view(self.resolved_repo),
            resolved_executable: opt_view(self.resolved_executable),
            paths: self.paths,
        }
    }
}

/// The contents of a list of probes.
pub open spec fn probe_models(probes: Seq<EntryProbe>) -> Seq<EntryProbeModel> {
    Seq::new(probes.len(), |i: int| probes[i]@)
}

/// The probe of entry `i`; an entry without a probe counts as one of which
/// nothing resolves and nothing is found.
pub open spec fn probe_at(probes: Seq<EntryProbeModel>, i: int) -> EntryProbeModel {
    if 0 <= i < probes.len() {
        probes[i]
    } else {
        EntryProbeModel {
            resolved_repo: None,
            resolved_executable: None,
            paths: PathProbe { repo_is_git: false, executable_is_file: false },
        }
    }
}

/// The message for a list of bots that is no list of tables.
pub open spec fn not_tables_message() -> Seq<char> {
    "bot in bots.toml should be a array of table!"@
}

/// The message for a control bot that is no text or names none of the bots.
pub open spec fn control_message() -> Seq<char> {
    "control_bot should contain a bot name presented in a bot table"@
}

/// The descriptor that one entry of the configuration yields: the entry
/// must be a table that describes a bot whose paths check out, and the
/// descriptor holds what its executable path resolves to. An executable
/// path that does not resolve counts as one that leads to no file.
pub open spec fn entry_outcome(entry: ValueModel, probe: EntryProbeModel) -> Result<
    BotModel,
    Seq<char>,
> {
    match entry {
        ValueModel::Table(fields) => match descriptor_of(fields, probe.resolved_repo) {
            Err(message) => Err("Failed to parse bot in bots.toml:\n\t"@ + message),
            Ok(bot) => match verify_outcome(
                bot,
                probe.paths.repo_is_git,
                probe.paths.executable_is_file && probe.resolved_executable is Some,
            ) {
                Err(message) => Err(
                    "Failed on verifying paths for "@ + bot.name + ":\n\t"@ + message,
                ),
                Ok(_) => Ok(
                    BotModel { executable_path: probe.resolved_executable->0, ..bot },
                ),
            },
        },
        _ => Err(not_tables_message()),
    }
}

/// The descriptors of the entries from `i` on, added to `bots` under their
/// names, or the message of the first entry that is wrong or repeats a
/// name.
pub open spec fn loaded_from(
    entries: Seq<ValueModel>,
    probes: Seq<EntryProbeModel>,
    i: int,
    bots: Seq<(Seq<char>, BotModel)>,
) -> Result<Seq<(Seq<char>, BotModel)>, Seq<char>>
    decreases entries.len() - i,
{
    if i < 0 || i >= entries.len() {
        Ok(bots)
    } else {
        match entry_outcome(entries[i], probe_at(probes, i)) {
            Err(message) => Err(message),
            Ok(bot) => if has_key(bots, bot.name) {
                Err("Multiple bots in bots.toml have identical name!"@)
            } else {
                loaded_from(entries, probes, i + 1, bots.push((bot.name, bot)))
            },
        }
    }
}

/// The control bot that a document names: one of `bots`, or none.
pub open spec fn control_of(document: ValueModel, bots: Seq<(Seq<char>, BotModel)>) -> Result<
    Option<Seq<char>>,
    Seq<char>,
> {
    match member(document, "control_bot"@) {
        Some(ValueModel::Text(name)) => if has_key(bots, name) {
            Ok(Some(name))
        } else {
            Err(control_message())
        },
        Some(_) => Err(control_message()),
        None => Ok(None),
    }
}

/// The configuration that a document yields: the descriptors of its bots,
/// by name and in the document's order, and the control bot if it names
/// one; or the message of the first thing wrong with it.
pub open spec fn load_outcome(document: ValueModel, probes: Seq<EntryProbeModel>) -> Result<
    (Seq<(Seq<char>, BotModel)>, Option<Seq<char>>),
    Seq<char>,
> {
    match member(document, "bot"@) {
        Some(ValueModel::List(entries)) => match loaded_from(entries, probes, 0, Seq::empty()) {
            Err(message) => Err(message),
            Ok(bots) => match control_of(document, bots) {
                Err(message) => Err(message),
                Ok(control_bot) => Ok((bots, control_bot)),
            },
        },
        Some(_) => Err(not_tables_message()),
        None => Err("No bot is presented in bots.toml!"@),
    }
}

/// The configuration that a text yields: that of the document it parses
/// to, or a message with the parser's complaint.
pub open spec fn parse_outcome(text: Seq<char>, probes: Seq<EntryProbeModel>) -> Result<
    (Seq<(Seq<char>, BotModel)>, Option<Seq<char>>),
    Seq<char>,
> {
    match toml_document(text) {
        Err(message) => Err("Failed to parse bots.toml as a valid toml file:\n\t"@ + message),
        Ok(document) => load_outcome(document, probes),
    }
}

/// Whether every descriptor of `bots` stands under its own name and is
/// valid.
pub open spec fn well_named(bots: Seq<(Seq<char>, BotModel)>) -> bool {
    forall|i: int|
        0 <= i < bots.len() ==> (#[trigger] bots[i]).0 == bots[i].1.name && bots[i].1.valid()
}

/// The entries of a document's list of bots; none where it has no such
/// list.
pub open spec fn entries_of(document: ValueModel) -> Seq<ValueModel> {
    match member(document, "bot"@) {
        Some(ValueModel::List(entries)) => entries,
        _ => Seq::empty(),
    }
}

/// The repository path that a table gives, where it gives one as a text.
pub open spec fn repo_text(fields: Seq<(Seq<char>, ValueModel)>) -> Option<Seq<char>> {
    match field(fields, "repo_path"@) {
        Some(ValueModel::Text(path)) => Some(path),
        _ => None,
    }
}

/// The repository path that an entry gives, where it is a table that gives
/// one as a text.
pub open spec fn entry_repo_text(entry: ValueModel) -> Option<Seq<char>> {
    match entry {
        ValueModel::Table(fields) => repo_text(fields),
        _ => None,
    }
}

/// The repository paths of a document, one for each entry of its list of
/// bots and in its order; `None` for an entry that gives none.
pub open spec fn repo_paths_of(document: ValueModel) -> Seq<Option<Seq<char>>> {
    Seq::new(entries_of(document).len(), |i: int| entry_repo_text(entries_of(document)[i]))
}

/// The text at place `i` of `list`; `None` where the list has no such
/// place.
pub open spec fn opt_text_at(list: Seq<Option<Seq<char>>>, i: int) -> Option<Seq<char>> {
    if 0 <= i < list.len() {
        list[i]
    } else {
        None
    }
}

/// The paths of the descriptor that an entry yields, given what its
/// repository path resolves to; `None` where it yields none.
pub open spec fn entry_paths(entry: ValueModel, resolved_repo: Option<Seq<char>>) -> Option<
    BotPathsModel,
> {
    match entry {
        ValueModel::Table(fields) => match descriptor_of(fields, resolved_repo) {
            Ok(bot) => Some(paths_of(bot)),
            Err(_) => None,
        },
        _ => None,
    }
}

/// The paths of the descriptors of a document, one for each entry of its
/// list of bots and in its order, given what the repository paths resolve
/// to.
pub open spec fn descriptor_paths_of(
    document: ValueModel,
    resolved_repos: Seq<Option<Seq<char>>>,
) -> Seq<Option<BotPathsModel>> {
    Seq::new(
        entries_of(document).len(),
        |i: int| entry_paths(entries_of(document)[i], opt_text_at(resolved_repos, i)),
    )
}

/// The views of a list of optional strings.
pub open spec fn opt_texts(list: Seq<Option<String>>) -> Seq<Option<Seq<char>>> {
    Seq::new(list.len(), |i: int| opt_view(list[i]))
}

/// The views of a list of optional paths.
pub open spec fn opt_paths(list: Seq<Option<BotPaths>>) -> Seq<Option<BotPathsModel>> {
    Seq::new(
        list.len(),
        |i: int|
            match list[i] {
                Some(paths) => Some(paths@),
                None => None,
            },
    )
}

/// The view of an optional reference to a string.
pub open spec fn opt_ref_view(text: Option<&String>) -> Option<Seq<char>> {
    match text {
        Some(text) => Some(text@),
        None => None,
    }
}

/// The repository path that the table of a bot gives, where it gives one
/// as a text.
pub fn repo_path_of(table: &Vec<ConfigEntry>) -> (r: Option<&String>)
    ensures
        opt_ref_view(r) == repo_text(fields_of(table@)),
{
    match find(table, "repo_path") {
        Some(ConfigValue::Text(path)) => Some(path),
        _ => None,
    }
}

/// The entries of the document's list of bots.
fn bot_entries(document: &ConfigValue) -> (r: Option<&Vec<ConfigValue>>)
    ensures
        match r {
            Some(entries) => member(document@, "bot"@) == Some(
                ValueModel::List(items_of(entries@)),
            ),
            None => !(member(document@, "bot"@) is Some && member(document@, "bot"@)->0 is List),
        },
{
    match document.get("bot") {
        Some(ConfigValue::List(entries)) => {
            proof {
                lemma_view(ConfigValue::List(*entries));
            }
            Some(entries)
        },
        _ => None,
    }
}

/// The repository paths that the entries of a document give, one for each
/// entry of its list of bots and in its order. These are the paths to
/// resolve before the descriptors can be read.
pub fn repo_paths(document: &ConfigValue) -> (r: Vec<Option<String>>)
    ensures
        opt_texts(r@) == repo_paths_of(document@),
{
    let mut out: Vec<Option<String>> = Vec::new();
    match bot_entries(document) {
        Some(entries) => {
            let mut i: usize = 0;
            while i < entries.len()
                invariant
                    i <= entries.len(),
                    out@.len() == i,
                    entries_of(document@) == items_of(entries@),
                    forall|k: int|
                        0 <= k < i ==> opt_view(#[trigger] out@[k]) == entry_repo_text(
                            items_of(entries@)[k],
                        ),
                decreases entries.len() - i,
            {
                let path = match &entries[i] {
                    ConfigValue::Table(fields) => {
                        proof {
                            lemma_view(entries@[i as int]);
                        }
                        match repo_path_of(fields) {
                            Some(path) => Some(path.clone()),
                            None => None,
                        }
                    },
                    _ => None,
                };
                out.push(path);
                i = i + 1;
            }
        },
        None => {},
    }
    assert(opt_texts(out@) =~= repo_paths_of(document@));
    out
}

/// The paths of the descriptors that the entries of a document yield, one
/// for each entry of its list of bots and in its order, given what the
/// repository paths of [`repo_paths`] resolve to. These are the paths to
/// look at before the configuration can be loaded.
pub fn descriptor_paths(document: &ConfigValue, resolved_repos: &Vec<Option<String>>) -> (r: Vec<
    Option<BotPaths>,
>)
    ensures
        opt_paths(r@) == descriptor_paths_of(document@, opt_texts(resolved_repos@)),
{
    let mut out: Vec<Option<BotPaths>> = Vec::new();
    let unresolved: Option<String> = None;
    match bot_entries(document) {
        Some(entries) => {
            let mut i: usize = 0;
            while i < entries.len()
                invariant
                    i <= entries.len(),
                    out@.len() == i,
                    unresolved is None,
                    entries_of(document@) == items_of(entries@),
                    forall|k: int|
                        0 <= k < i ==> (#[trigger] opt_paths(out@)[k]) == entry_paths(
                            items_of(entries@)[k],
                            opt_text_at(opt_texts(resolved_repos@), k),
                        ),
                decreases entries.len() - i,
            {
                let resolved = if i < resolved_repos.len() {
                    &resolved_repos[i]
                } else {
                    &unresolved
                };
                let paths = match &entries[i] {
                    ConfigValue::Table(fields) => {
                        proof {
                            lemma_view(entries@[i as int]);
                        }
                        match Bot::from_toml_table(fields, resolved) {
                            Ok(bot) => Some(bot.paths()),
                            Err(_) => None,
                        }
                    },
                    _ => None,
                };
                let ghost before = out@;
                out.push(paths);
                assert forall|k: int| 0 <= k < i + 1 implies (#[trigger] opt_paths(out@)[k])
                    == entry_paths(
                    items_of(entries@)[k],
                    opt_text_at(opt_texts(resolved_repos@), k),
                ) by {
                    if k < i {
                        assert(opt_paths(before)[k] == opt_paths(out@)[k]);
                    }
                }
                i = i + 1;
            }
        },
        None => {},
    }
    assert(opt_paths(out@) =~= descriptor_paths_of(document@, opt_texts(resolved_repos@)));
    out
}

/// The view of a result that carries a configuration or a message.
pub open spec fn load_result(r: Result<(Registry<Bot>, Option<String>), String>) -> Result<
    (Seq<(Seq<char>, BotModel)>, Option<Seq<char>>),
    Seq<char>,
> {
    match r {
        Ok((bots, control_bot)) => Ok((bots@, opt_view(control_bot))),
        Err(message) => Err(message@),
    }
}

/// Reads the descriptor of one entry of the configuration.
fn load_entry(entry: &ConfigValue, probe: &EntryProbe) -> (r: Result<Bot, String>)
    ensures
        bot_result(r) == entry_outcome(entry@, probe@),
{
    match entry {
        ConfigValue::Table(fields) => {
            proof {
                lemma_view(*entry);
            }
            match Bot::from_toml_table(fields, &probe.resolved_repo) {
                Err(reason) => {
                    let mut message = "Failed to parse bot in bots.toml:\n\t".to_string();
                    message.append(reason.as_str());
                    Err(message)
                },
                Ok(bot) => match bot.verify(
                    probe.paths.repo_is_git,
                    probe.paths.executable_is_file && probe.resolved_executable.is_some(),
                ) {
                    Err(reason) => {
                        let mut message = "Failed on verifying paths for ".to_string();
                        message.append(bot.name());
                        message.append(":\n\t");
                        message.append(reason.as_str());
                        Err(message)
                    },
                    Ok(_) => match &probe.resolved_executable {
                        Some(executable) => Ok(bot.with_executable(executable.clone())),
                        None => Ok(bot),
                    },
                },
            }
        },
        _ => Err("bot in bots.toml should be a array of table!".to_string()),
    }
}

/// Reads the configuration from a parsed document. `probes` holds, for each
/// entry of the document's list of bots and in its order, what the file
/// system says of it.
pub fn load_bots(document: &ConfigValue, probes: &Vec<EntryProbe>) -> (r: Result<
    (Registry<Bot>, Option<String>),
    String,
>)
    ensures
        load_result(r) == load_outcome(document@, probe_models(probes@)),
        r matches Ok((bots, control_bot)) ==> well_named(bots@) && (control_bot matches Some(name)
            ==> has_key(bots@, name@)),
{
    let entries = match document.get("bot") {
        Some(ConfigValue::List(entries)) => entries,
        Some(_) => {
            return Err("bot in bots.toml should be a array of table!".to_string());
        },
        None => {
            return Err("No bot is presented in bots.toml!".to_string());
        },
    };
    proof {
        lemma_view(ConfigValue::List(*entries));
    }
    let nothing = EntryProbe {
        resolved_repo: None,
        resolved_executable: None,
        paths: PathProbe { repo_is_git: false, executable_is_file: false },
    };
    let mut bots: Registry<Bot> = Registry::new();
    let mut i: usize = 0;
    while i < entries.len()
        invariant
            i <= entries.len(),
            nothing@ == probe_at(probe_models(probes@), -1),
            member(document@, "bot"@) == Some(ValueModel::List(items_of(entries@))),
            well_named(bots@),
            loaded_from(items_of(entries@), probe_models(probes@), 0, Seq::empty()) == loaded_from(
                items_of(entries@),
                probe_models(probes@),
                i as int,
                bots@,
            ),
        decreases entries.len() - i,
    {
        let probe = if i < probes.len() {
            &probes[i]
        } else {
            &nothing
        };
        let bot = match load_entry(&entries[i], probe) {
            Ok(bot) => bot,
            Err(message) => {
                return Err(message);
            },
        };
        let name = bot.name().to_string();
        if bots.contains_key(&name) {
            return Err("Multiple bots in bots.toml have identical name!".to_string());
        }
        let ghost before = bots@;
        bots.insert(name, bot);
        assert(bots@ == before.push((name@, bot@)));
        i = i + 1;
    }
    let control_bot = match document.get("control_bot") {
        Some(ConfigValue::Text(name)) => {
            if !bots.contains_key(name) {
                return Err(
                    "control_bot should contain a bot name presented in a bot table".to_string(),
                );
            }
            Some(name.clone())
        },
        Some(_) => {
            return Err(
                "control_bot should contain a bot name presented in a bot table".to_string(),
            );
        },
        None => None,
    };
    Ok((bots, control_bot))
}

/// Reads the configuration from the text of a configuration file. `probes`
/// is as for [`load_bots`].
pub fn parse_bots(text: &str, probes: &Vec<EntryProbe>) -> (r: Result<
    (Registry<Bot>, Option<String>),
    String,
>)
    ensures
        load_result(r) == parse_outcome(text@, probe_models(probes@)),
        r matches Ok((bots, control_bot)) ==> well_named(bots@) && (control_bot matches Some(name)
            ==> has_key(bots@, name@)),
{
    match parse_document(text) {
        Err(reason) => {
            let mut message = "Failed to parse bots.toml as a valid toml file:\n\t".to_string();
            message.append(reason.as_str());
            Err(message)
        },
        Ok(document) => load_bots(&document, probes),
    }
}

} // verus!
