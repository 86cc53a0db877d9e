//! The command line as data: the commands, their options and their examples,
//! and what each command does.
//!
//! Commands form a tree of two levels: a command stands at the top, or below a
//! command of the top, its namespace.

use crate::commands::cmd_editors::Editor;
use crate::commands::{LlmVerb, ModelArg};
use crate::output;
use crate::text;
use vstd::prelude::*;

verus! {

/// What the value of an option is.
#[derive(Clone, Copy, Debug, PartialEq, Eq, Structural)]
pub enum ValueType {
    Text,
    Int,
    Int64,
    UInt,
    Float,
    Double,
}

/// Whether an option takes a value.
#[derive(Clone, Copy, Debug, PartialEq, Eq, Structural)]
pub enum OptKind {
    Flag,
    Value(ValueType),
}

/// What is asked of a value before a command runs.
#[derive(Clone, Debug)]
pub enum Validator {
    /// Between two numbers, both included.
    Range(i64, i64),
    /// One of some words.
    IsMember(Vec<String>),
    /// The path of a file that exists.
    ExistingFile,
    /// A number above zero.
    PositiveNumber,
}

/// A validator as a value.
pub enum ValidatorView {
    Range(i64, i64),
    IsMember(Seq<Seq<char>>),
    ExistingFile,
    PositiveNumber,
}

/// See [`ValidatorView`].
pub open spec fn validator_view(v: Validator) -> ValidatorView {
    match v {
        Validator::Range(lo, hi) => ValidatorView::Range(lo, hi),
        Validator::IsMember(words) => ValidatorView::IsMember(output::strings_view(words@)),
        Validator::ExistingFile => ValidatorView::ExistingFile,
        Validator::PositiveNumber => ValidatorView::PositiveNumber,
    }
}

/// One option, flag or positional argument of a command.
#[derive(Clone, Debug)]
pub struct Opt {
    /// Its names, with commas between them; a positional has no dashes.
    pub names: String,
    pub kind: OptKind,
    pub description: String,
    pub required: bool,
    pub multi: bool,
    pub check: Option<Validator>,
    pub default_val: Option<String>,
    /// The heading it stands under in help.
    pub group: Option<String>,
    /// The numbers that its type holds, where they are fewer than usual.
    pub bounds: Option<(i128, i128)>,
}

/// An option as a value.
pub struct OptView {
    pub names: Seq<char>,
    pub kind: OptKind,
    pub description: Seq<char>,
    pub required: bool,
    pub multi: bool,
    pub check: Option<ValidatorView>,
    pub default_val: Option<Seq<char>>,
    pub group: Option<Seq<char>>,
    pub bounds: Option<(i128, i128)>,
}

/// A bare option.
pub open spec fn opt(names: Seq<char>, value_type: ValueType, description: Seq<char>) -> OptView {
    OptView {
        names,
        kind: OptKind::Value(value_type),
        description,
        required: false,
        multi: false,
        check: None,
        default_val: None,
        group: None,
        bounds: None,
    }
}

/// A bare flag.
pub open spec fn flag(names: Seq<char>, description: Seq<char>) -> OptView {
    OptView { kind: OptKind::Flag, ..opt(names, ValueType::Text, description) }
}

impl OptView {
    pub open spec fn required(self) -> OptView {
        OptView { required: true, ..self }
    }

    pub open spec fn multi(self) -> OptView {
        OptView { multi: true, ..self }
    }

    pub open spec fn check(self, v: ValidatorView) -> OptView {
        OptView { check: Some(v), ..self }
    }

    pub open spec fn default_val(self, value: Seq<char>) -> OptView {
        OptView { default_val: Some(value), ..self }
    }

    pub open spec fn group(self, heading: Seq<char>) -> OptView {
        OptView { group: Some(heading), ..self }
    }

    pub open spec fn int_bounds(self, lo: i128, hi: i128) -> OptView {
        OptView { bounds: Some((lo, hi)), ..self }
    }
}

impl View for Opt {
    type V = OptView;

    open spec fn view(&self) -> OptView {
        OptView {
            names: self.names@,
            kind: self.kind,
            description: self.description@,
            required: self.required,
            multi: self.multi,
            check: match self.check {
                Some(v) => Some(validator_view(v)),
                None => None,
            },
            default_val: match self.default_val {
                Some(s) => Some(s@),
                None => None,
            },
            group: match self.group {
                Some(s) => Some(s@),
                None => None,
            },
            bounds: self.bounds,
        }
    }
}

impl Opt {
    /// An option that takes a value.
    pub fn value(names: &str, value_type: ValueType, description: &str) -> (r: Opt)
        ensures
            r@ == opt(names@, value_type, description@),
    {
        Opt {
            names: text::owned(names),
            kind: OptKind::Value(value_type),
            description: text::owned(description),
            required: false,
            multi: false,
            check: None,
            default_val: None,
            group: None,
            bounds: None,
        }
    }

    /// An option that takes none.
    pub fn flag(names: &str, description: &str) -> (r: Opt)
        ensures
            r@ == flag(names@, description@),
    {
        let mut r = Opt::value(names, ValueType::Text, description);
        r.kind = OptKind::Flag;
        r
    }

    /// An option that must be given.
    pub fn required(self) -> (r: Opt)
        ensures
            r@ == self@.required(),
    {
        let mut r = self;
        r.required = true;
        r
    }

    /// An option that may be given several times.
    pub fn multi(self) -> (r: Opt)
        ensures
            r@ == self@.multi(),
    {
        let mut r = self;
        r.multi = true;
        r
    }

    /// An option whose value is checked.
    pub fn check(self, v: Validator) -> (r: Opt)
        ensures
            r@ == self@.check(validator_view(v)),
    {
        let mut r = self;
        r.check = Some(v);
        r
    }

    /// An option with a value of its own where none is given.
    pub fn default_val(self, value: &str) -> (r: Opt)
        ensures
            r@ == self@.default_val(value@),
    {
        let mut r = self;
        r.default_val = Some(text::owned(value));
        r
    }

    /// An option under a heading of its own.
    pub fn group(self, heading: &str) -> (r: Opt)
        ensures
            r@ == self@.group(heading@),
    {
        let mut r = self;
        r.group = Some(text::owned(heading));
        r
    }

    /// An option whose type holds fewer numbers than usual.
    pub fn int_bounds(self, lo: i128, hi: i128) -> (r: Opt)
        ensures
            r@ == self@.int_bounds(lo, hi),
    {
        let mut r = self;
        r.bounds = Some((lo, hi));
        r
    }
}

/// What a command does.
#[derive(Clone, Copy, Debug, PartialEq, Eq, Structural)]
pub enum Action {
    About,
    AccountLogin,
    AccountLogout,
    AccountWhoami,
    AccountUsage,
    /// The agent at that place of the table of agents.
    Agent(usize),
    AuthLogin,
    Backends,
    Bench,
    DefaultModel,
    Diarize,
    Editor(Editor),
    Embed,
    Help,
    ImageGenerate,
    Info,
    Llm(LlmVerb, ModelArg),
    LoraApply,
    LoraCatalog,
    LoraList,
    LoraRemove,
    ModelsDelete,
    ModelsDownload,
    ModelsGet,
    ModelsList,
    ModelsLoad,
    ModelsRegister,
    ModelsState,
    ModelsUnload,
    Opencode,
    RagQuery,
    RagSearch,
    Rerank,
    Segment,
    Serve,
    ServeUnavailable,
    Stt,
    TelemetryBlast,
    TelemetryEmit,
    ToolCall,
    Tts,
    Uninstall,
    Update,
    Vad,
    Version,
    VlmGenerate,
    Voice,
}

/// One command.
#[derive(Clone, Debug)]
pub struct Command {
    /// The namespace it stands in; empty at the top.
    pub parent: String,
    pub name: String,
    pub description: String,
    pub options: Vec<Opt>,
    pub aliases: Vec<String>,
    /// Invocations and what they are good for.
    pub examples: Vec<(String, String)>,
    /// The heading it stands under in help; an empty one keeps it out.
    pub group: Option<String>,
    /// How many commands of its namespace have to follow, and may.
    pub min_subcommands: usize,
    pub max_subcommands: usize,
    /// Whether what it does not know is handed to its namespace.
    pub fallthrough: bool,
    /// Whether everything after its own options belongs to another program.
    pub prefix_command: bool,
    pub action: Option<Action>,
}

/// A command as a value.
pub struct CommandView {
    pub parent: Seq<char>,
    pub name: Seq<char>,
    pub description: Seq<char>,
    pub options: Seq<OptView>,
    pub aliases: Seq<Seq<char>>,
    pub examples: Seq<(Seq<char>, Seq<char>)>,
    pub group: Option<Seq<char>>,
    pub min_subcommands: int,
    pub max_subcommands: int,
    pub fallthrough: bool,
    pub prefix_command: bool,
    pub action: Option<Action>,
}

/// A bare command.
pub open spec fn command(parent: Seq<char>, name: Seq<char>, description: Seq<char>) -> CommandView {
    CommandView {
        parent,
        name,
        description,
        options: Seq::empty(),
        aliases: Seq::empty(),
        examples: Seq::empty(),
        group: None,
        min_subcommands: 0,
        max_subcommands: 0,
        fallthrough: false,
        prefix_command: false,
        action: None,
    }
}

/// A bare command at the top.
pub open spec fn top(name: Seq<char>, description: Seq<char>) -> CommandView {
    command(Seq::empty(), name, description)
}

impl CommandView {
    pub open spec fn option(self, o: OptView) -> CommandView {
        CommandView { options: self.options.push(o), ..self }
    }

    pub open spec fn alias(self, name: Seq<char>) -> CommandView {
        CommandView { aliases: self.aliases.push(name), ..self }
    }

    pub open spec fn example(self, invocation: Seq<char>, note: Seq<char>) -> CommandView {
        CommandView { examples: self.examples.push((invocation, note)), ..self }
    }

    pub open spec fn group(self, heading: Seq<char>) -> CommandView {
        CommandView { group: Some(heading), ..self }
    }

    pub open spec fn require_subcommand(self, min: int, max: int) -> CommandView {
        CommandView { min_subcommands: min, max_subcommands: max, ..self }
    }

    pub open spec fn falls_through(self) -> CommandView {
        CommandView { fallthrough: true, ..self }
    }

    pub open spec fn prefix_command(self) -> CommandView {
        CommandView { prefix_command: true, ..self }
    }

    pub open spec fn action(self, action: Action) -> CommandView {
        CommandView { action: Some(action), ..self }
    }
}

impl View for Command {
    type V = CommandView;

    open spec fn view(&self) -> CommandView {
        CommandView {
            parent: self.parent@,
            name: self.name@,
            description: self.description@,
            options: self.options@.map_values(|o: Opt| o@),
            aliases: output::strings_view(self.aliases@),
            examples: self.examples@.map_values(|e: (String, String)| (e.0@, e.1@)),
            group: match self.group {
                Some(g) => Some(g@),
                None => None,
            },
            min_subcommands: self.min_subcommands as int,
            max_subcommands: self.max_subcommands as int,
            fallthrough: self.fallthrough,
            prefix_command: self.prefix_command,
            action: self.action,
        }
    }
}

impl Command {
    /// A command at the top, or in a namespace.
    pub fn new(parent: &str, name: &str, description: &str) -> (r: Command)
        ensures
            r@ == command(parent@, name@, description@),
    {
        let r = Command {
            parent: text::owned(parent),
            name: text::owned(name),
            description: text::owned(description),
            options: Vec::new(),
            aliases: Vec::new(),
            examples: Vec::new(),
            group: None,
            min_subcommands: 0,
            max_subcommands: 0,
            fallthrough: false,
            prefix_command: false,
            action: None,
        };
        assert(r@.options =~= Seq::empty());
        assert(r@.aliases =~= Seq::empty());
        assert(r@.examples =~= Seq::empty());
        r
    }

    /// A command at the top.
    pub fn top(name: &str, description: &str) -> (r: Command)
        ensures
            r@ == top(name@, description@),
    {
        let none = String::new();
        Command::new(none.as_str(), name, description)
    }

    /// Adds an option, a flag or a positional argument.
    pub fn add_option(&mut self, o: Opt)
        ensures
            final(self)@ == old(self)@.option(o@),
    {
        let ghost before = self@;
        self.options.push(o);
        assert(self@.options =~= before.options.push(o@));
    }

    /// Adds another name.
    pub fn alias(&mut self, name: &str)
        ensures
            final(self)@ == old(self)@.alias(name@),
    {
        let ghost before = self@;
        self.aliases.push(text::owned(name));
        assert(self@.aliases =~= before.aliases.push(name@));
    }

    /// Adds an example to its help.
    pub fn example(&mut self, invocation: &str, note: &str)
        ensures
            final(self)@ == old(self)@.example(invocation@, note@),
    {
        let ghost before = self@;
        self.examples.push((text::owned(invocation), text::owned(note)));
        assert(self@.examples =~= before.examples.push((invocation@, note@)));
    }

    /// Puts it under a heading.
    pub fn group(&mut self, heading: &str)
        ensures
            final(self)@ == old(self)@.group(heading@),
    {
        self.group = Some(text::owned(heading));
    }

    /// Makes it a namespace.
    pub fn require_subcommand(&mut self, min: usize, max: usize)
        ensures
            final(self)@ == old(self)@.require_subcommand(min as int, max as int),
    {
        self.min_subcommands = min;
        self.max_subcommands = max;
    }

    /// Hands what it does not know to its namespace.
    pub fn falls_through(&mut self)
        ensures
            final(self)@ == old(self)@.falls_through(),
    {
        self.fallthrough = true;
    }

    /// Leaves everything after its own options to another program.
    pub fn prefix_command(&mut self)
        ensures
            final(self)@ == old(self)@.prefix_command(),
    {
        self.prefix_command = true;
    }

    /// Says what it does.
    pub fn callback(&mut self, action: Action)
        ensures
            final(self)@ == old(self)@.action(action),
    {
        self.action = Some(action);
    }
}

/// Two words.
pub fn words2(a: &str, b: &str) -> (r: Vec<String>)
    ensures
        output::strings_view(r@) == seq![a@, b@],
{
    let mut r: Vec<String> = Vec::new();
    r.push(text::owned(a));
    r.push(text::owned(b));
    assert(output::strings_view(r@) =~= seq![a@, b@]);
    r
}

/// Three words.
pub fn words3(a: &str, b: &str, c: &str) -> (r: Vec<String>)
    ensures
        output::strings_view(r@) == seq![a@, b@, c@],
{
    let mut r = words2(a, b);
    let ghost two = output::strings_view(r@);
    r.push(text::owned(c));
    assert(output::strings_view(r@) =~= two.push(c@));
    assert(output::strings_view(r@) =~= seq![a@, b@, c@]);
    r
}

/// The whole command line.
#[derive(Clone, Debug)]
pub struct App {
    pub description: String,
    pub name: String,
    pub commands: Vec<Command>,
}

/// A command line as a value.
#[verifier::ext_equal]
pub struct AppView {
    pub description: Seq<char>,
    pub name: Seq<char>,
    pub commands: Seq<CommandView>,
}

impl AppView {
    /// The same command line with one more command.
    pub open spec fn push(self, c: CommandView) -> AppView {
        AppView { commands: self.commands.push(c), ..self }
    }

    /// The same command line with more commands.
    pub open spec fn extend(self, more: Seq<CommandView>) -> AppView {
        AppView { commands: self.commands + more, ..self }
    }
}

impl View for App {
    type V = AppView;

    open spec fn view(&self) -> AppView {
        AppView {
            description: self.description@,
            name: self.name@,
            commands: self.commands@.map_values(|c: Command| c@),
        }
    }
}

/// Registering commands changes neither the name nor the description of a command
/// line, and leaves the commands before them where they were.
pub proof fn registering_keeps_the_rest(app: AppView, more: Seq<CommandView>, i: int)
    requires
        0 <= i < app.commands.len(),
    ensures
        app.extend(more).name == app.name,
        app.extend(more).description == app.description,
        app.extend(more).commands[i] == app.commands[i],
        more.len() == 1 ==> app.extend(more) == app.push(more[0]),
{
    if more.len() == 1 {
        assert(app.extend(more).commands =~= app.push(more[0]).commands);
    }
}

/// Whether there is a command of that name at the top, or in a namespace.
pub open spec fn has_command(commands: Seq<CommandView>, parent: Seq<char>, name: Seq<char>) -> bool {
    exists|i: int| 0 <= i < commands.len() && (#[trigger] commands[i]).parent == parent && commands[i].name == name
}

impl App {
    pub fn new(description: &str, name: &str) -> (r: App)
        ensures
            r@ == (AppView { description: description@, name: name@, commands: Seq::empty() }),
    {
        let r = App { description: text::owned(description), name: text::owned(name), commands: Vec::new() };
        assert(r@.commands =~= Seq::<CommandView>::empty());
        r
    }

    /// Adds a command.
    pub fn add(&mut self, c: Command)
        ensures
            final(self)@ == old(self)@.push(c@),
    {
        let ghost before = self@;
        self.commands.push(c);
        assert(self@ =~= before.push(c@));
    }

    /// Adds a bare command at the top.
    pub fn add_subcommand(&mut self, name: &str, description: &str)
        ensures
            final(self)@ == old(self)@.push(top(name@, description@)),
    {
        self.add(Command::top(name, description));
    }

    /// Whether there is a command of that name at the top.
    pub fn has_subcommand(&self, name: &str) -> (r: bool)
        ensures
            r == has_command(self@.commands, Seq::empty(), name@),
    {
        let mut i: usize = 0;
        while i < self.commands.len()
            invariant
                i <= self.commands@.len(),
                forall|k: int|
                    0 <= k < i ==> !((#[trigger] self@.commands[k]).parent == Seq::<char>::empty()
                        && self@.commands[k].name == name@),
            decreases self.commands@.len() - i,
        {
            assert(self@.commands[i as int] == self.commands@[i as int]@);
            if self.commands[i].parent.as_str().is_empty() && text::str_eq(self.commands[i].name.as_str(), name) {
                assert(self.commands@[i as int].parent@ =~= Seq::<char>::empty());
                return true;
            }
            i = i + 1;
        }
        false
    }
}

/// What is added to a command is added behind what it had, and changes nothing
/// else; what an option is given it has, and keeps what it had.
pub proof fn a_command_keeps_what_it_was_given(c: CommandView, o: OptView, words: Seq<char>, note: Seq<char>, action: Action)
    ensures
        c.option(o).options == c.options.push(o) && c.option(o).name == c.name && c.option(o).action == c.action,
        c.alias(words).aliases == c.aliases.push(words) && c.alias(words).options == c.options,
        c.example(words, note).examples == c.examples.push((words, note)) && c.example(words, note).options == c.options,
        c.action(action).action == Some(action) && c.action(action).options == c.options && c.action(action).name
            == c.name && c.action(action).parent == c.parent,
        c.group(words).group == Some(words) && c.group(words).options == c.options,
        c.prefix_command().prefix_command && c.prefix_command().options == c.options,
        c.falls_through().fallthrough && c.falls_through().action == c.action,
        o.required().required && o.required().names == o.names && o.required().kind == o.kind,
        o.multi().multi && o.multi().names == o.names && o.multi().kind == o.kind,
        o.default_val(words).default_val == Some(words) && o.default_val(words).names == o.names && o.default_val(
            words,
        ).check == o.check,
        o.group(words).group == Some(words) && o.group(words).default_val == o.default_val,
        command(words, note, words).parent == words && command(words, note, words).name == note,
        top(words, note).parent.len() == 0 && top(words, note).name == words && top(words, note).description == note,
        flag(words, note).kind == OptKind::Flag && flag(words, note).names == words && flag(words, note).description
            == note,
{
}

} // verus!
