//! The decisions of the command surface: which work a command asks for, and
//! what is reported once that work is done. Reading and writing files and
//! turning text into documents happen outside; their results come in as
//! plain values.

use vstd::prelude::*;

verus! {

/// The kind of document a file holds.
#[derive(Debug, Clone, Copy, PartialEq, Eq, Structural)]
pub enum ParseFileType {
    ComposerJson,
    ModifyComposerJson,
}

/// The conventional file name of each kind of document.
pub open spec fn kind_name(kind: ParseFileType) -> Seq<char> {
    match kind {
        ParseFileType::ComposerJson => "composer.json"@,
        ParseFileType::ModifyComposerJson => "modify-composer.json"@,
    }
}

/// Where a message goes.
#[derive(Debug, Clone, Copy, PartialEq, Eq, Structural)]
pub enum Channel {
    Stdout,
    Stderr,
}

/// A line for the user.
#[derive(Debug, Clone)]
pub struct Message {
    pub channel: Channel,
    pub text: String,
}

/// Messages as the contracts see them.
pub open spec fn messages_view(v: Seq<Message>) -> Seq<(Channel, Seq<char>)> {
    v.map_values(|m: Message| (m.channel, m.text@))
}

/// What became of loading a document and rendering it back to text.
#[derive(Debug, Clone)]
pub enum Outcome {
    /// The text could not be read or loaded; the cause.
    Failed(String),
    /// The document loaded and rendered to this text.
    Rendered(String),
    /// The document loaded but could not be rendered; the cause.
    Unrenderable(String),
}

/// Parse a document of the given kind.
#[derive(Debug, Clone)]
pub enum ParseCommands {
    ComposerJson { file: String, print: bool },
    Modify { file: String, print: bool },
}

/// Apply a directive file to a manifest file.
#[derive(Debug, Clone)]
pub enum ModifyCommands {
    Run { composer_json: String, modify: String, print: bool, dry_run: bool },
}

/// The commands of the tool.
#[derive(Debug, Clone)]
pub enum Commands {
    Parse(ParseCommands),
    Modify(ModifyCommands),
}

/// The work a command asks for.
#[derive(Debug, Clone)]
pub enum Action {
    Parse { kind: ParseFileType, file: String, print: bool },
    Modify { composer_json: String, modify: String, print: bool, dry_run: bool },
}

/// Whether `a` is the work that the parse command `c` asks for.
pub open spec fn is_parse_action(c: ParseCommands, a: Action) -> bool {
    match (c, a) {
        (ParseCommands::ComposerJson { file, print }, Action::Parse { kind, file: f, print: p }) => {
            kind == ParseFileType::ComposerJson && f@ == file@ && p == print
        },
        (ParseCommands::Modify { file, print }, Action::Parse { kind, file: f, print: p }) => {
            kind == ParseFileType::ModifyComposerJson && f@ == file@ && p == print
        },
        _ => false,
    }
}

/// Whether `a` is the work that the modify command `c` asks for.
pub open spec fn is_modify_action(c: ModifyCommands, a: Action) -> bool {
    match (c, a) {
        (
            ModifyCommands::Run { composer_json, modify, print, dry_run },
            Action::Modify { composer_json: cj, modify: m, print: p, dry_run: d },
        ) => cj@ == composer_json@ && m@ == modify@ && p == print && d == dry_run,
        _ => false,
    }
}

/// Whether `a` is the work that the command `c` asks for.
pub open spec fn is_action(c: Commands, a: Action) -> bool {
    match c {
        Commands::Parse(p) => is_parse_action(p, a),
        Commands::Modify(m) => is_modify_action(m, a),
    }
}

/// The text `a` followed by `b`.
fn joined(a: &str, b: &str) -> (r: String)
    ensures
        r@ == a@ + b@,
{
    let mut r = String::from_str(a);
    r.append(b);
    r
}

fn message(channel: Channel, text: String) -> (r: Message)
    ensures
        r.channel == channel,
        r.text@ == text@,
{
    Message { channel, text }
}

impl ParseFileType {
    /// The conventional file name of this kind of document.
    pub fn name(&self) -> (r: &'static str)
        ensures
            r@ == kind_name(*self),
    {
        match self {
            ParseFileType::ComposerJson => "composer.json",
            ParseFileType::ModifyComposerJson => "modify-composer.json",
        }
    }

    /// What to report once a file of this kind was loaded with `outcome`:
    /// a confirmation, then the rendered document where `print` asks for it;
    /// or the cause of a failure.
    pub fn handle_parse(&self, file_name: &str, print: bool, outcome: &Outcome) -> (r: Vec<Message>)
        ensures
            messages_view(r@) == parse_report(*self, file_name@, print, *outcome),
    {
        let mut r: Vec<Message> = Vec::new();
        match outcome {
            Outcome::Failed(e) => {
                let t = joined(joined(joined("error parsing ", file_name).as_str(), ": ").as_str(), e.as_str());
                r.push(message(Channel::Stderr, t));
            },
            Outcome::Rendered(text) => {
                r.push(message(Channel::Stdout, parsed_line(*self, file_name)));
                if print {
                    r.push(message(Channel::Stdout, titled(file_name, text.as_str())));
                }
            },
            Outcome::Unrenderable(e) => {
                r.push(message(Channel::Stdout, parsed_line(*self, file_name)));
                if print {
                    r.push(message(Channel::Stderr, joined("error prettifying JSON: ", e.as_str())));
                }
            },
        }
        assert(messages_view(r@) =~= parse_report(*self, file_name@, print, *outcome));
        r
    }
}

/// The confirmation that a file was loaded.
pub open spec fn parsed_text(kind: ParseFileType, file: Seq<char>) -> Seq<char> {
    "successfully parsed "@ + kind_name(kind) + " file: "@ + file
}

/// A document's text under a heading that names its file.
pub open spec fn titled_text(file: Seq<char>, text: Seq<char>) -> Seq<char> {
    "\n"@ + file + ":\n"@ + text
}

/// The report on loading a document.
pub open spec fn parse_report(kind: ParseFileType, file: Seq<char>, print: bool, outcome: Outcome) -> Seq<
    (Channel, Seq<char>),
> {
    match outcome {
        Outcome::Failed(e) => seq![(Channel::Stderr, "error parsing "@ + file + ": "@ + e@)],
        Outcome::Rendered(text) => if print {
            seq![(Channel::Stdout, parsed_text(kind, file)), (Channel::Stdout, titled_text(file, text@))]
        } else {
            seq![(Channel::Stdout, parsed_text(kind, file))]
        },
        Outcome::Unrenderable(e) => if print {
            seq![(Channel::Stdout, parsed_text(kind, file)), (Channel::Stderr, "error prettifying JSON: "@ + e@)]
        } else {
            seq![(Channel::Stdout, parsed_text(kind, file))]
        },
    }
}

fn parsed_line(kind: ParseFileType, file: &str) -> (r: String)
    ensures
        r@ == parsed_text(kind, file@),
{
    let head = joined("successfully parsed ", kind.name());
    joined(joined(head.as_str(), " file: ").as_str(), file)
}

fn titled(file: &str, text: &str) -> (r: String)
    ensures
        r@ == titled_text(file@, text@),
{
    joined(joined(joined("\n", file).as_str(), ":\n").as_str(), text)
}

/// The work that a parse command asks for.
pub fn handle_parse_commands(cmds: &ParseCommands) -> (r: Action)
    ensures
        is_parse_action(*cmds, r),
{
    match cmds {
        ParseCommands::ComposerJson { file, print } => Action::Parse {
            kind: ParseFileType::ComposerJson,
            file: file.clone(),
            print: *print,
        },
        ParseCommands::Modify { file, print } => Action::Parse {
            kind: ParseFileType::ModifyComposerJson,
            file: file.clone(),
            print: *print,
        },
    }
}

/// The work that a command asks for.
pub fn handle(cmds: &Commands) -> (r: Action)
    ensures
        is_action(*cmds, r),
{
    match cmds {
        Commands::Parse(p) => handle_parse_commands(p),
        Commands::Modify(ModifyCommands::Run { composer_json, modify, print, dry_run }) => Action::Modify {
            composer_json: composer_json.clone(),
            modify: modify.clone(),
            print: *print,
            dry_run: *dry_run,
        },
    }
}

/// What became of loading a manifest and a directive, applying the one to
/// the other, and rendering the new manifest to text.
#[derive(Debug, Clone)]
pub enum ModifyOutcome {
    /// One of the two files could not be read or loaded: its path and the
    /// cause.
    LoadFailed { file: String, cause: String },
    /// The new manifest rendered to this text.
    Rendered(String),
    /// The new manifest could not be rendered; the cause.
    Unrenderable(String),
}

/// What to report on applying a directive, and the text to write back to
/// the manifest file, if any.
#[derive(Debug, Clone)]
pub struct ModifyReport {
    pub messages: Vec<Message>,
    pub write: Option<String>,
}

/// The line that announces a modification.
pub open spec fn banner_text(composer_json: Seq<char>, modify: Seq<char>, dry_run: bool) -> Seq<char> {
    "Modifying "@ + composer_json + " using "@ + modify + if dry_run {
        " (in dry-run mode)"@
    } else {
        ""@
    }
}

/// The report on applying a directive: the announcement, then the cause of
/// a failure, naming the file that failed to load, or the new manifest where
/// `print` asks for it.
pub open spec fn modify_messages(
    composer_json: Seq<char>,
    modify: Seq<char>,
    print: bool,
    dry_run: bool,
    outcome: ModifyOutcome,
) -> Seq<(Channel, Seq<char>)> {
    let banner = (Channel::Stdout, banner_text(composer_json, modify, dry_run));
    match outcome {
        ModifyOutcome::LoadFailed { file, cause } => seq![
            banner,
            (Channel::Stderr, "error parsing "@ + file@ + ": "@ + cause@),
        ],
        ModifyOutcome::Rendered(text) => if print {
            seq![banner, (Channel::Stdout, titled_text(composer_json, text@))]
        } else {
            seq![banner]
        },
        ModifyOutcome::Unrenderable(e) => seq![banner, (Channel::Stderr, "error prettifying JSON: "@ + e@)],
    }
}

/// The decisions around applying a directive: what to report, and that the
/// new manifest is written back only outside dry-run mode and only when it
/// was rendered.
pub fn handle_modify_commands(cmds: &ModifyCommands, outcome: &ModifyOutcome) -> (r: ModifyReport)
    ensures
        match *cmds {
            ModifyCommands::Run { composer_json, modify, print, dry_run } => {
                &&& messages_view(r.messages@) == modify_messages(
                    composer_json@,
                    modify@,
                    print,
                    dry_run,
                    *outcome,
                )
                &&& match (*outcome, r.write) {
                    (ModifyOutcome::Rendered(text), Some(w)) => !dry_run && w@ == text@,
                    (ModifyOutcome::Rendered(_), None) => dry_run,
                    (_, w) => w is None,
                }
            },
        },
{
    match cmds {
        ModifyCommands::Run { composer_json, modify, print, dry_run } => {
            let cj = composer_json.as_str();
            let head = joined(joined(joined("Modifying ", cj).as_str(), " using ").as_str(), modify.as_str());
            let banner = if *dry_run {
                joined(head.as_str(), " (in dry-run mode)")
            } else {
                joined(head.as_str(), "")
            };
            let mut messages: Vec<Message> = Vec::new();
            messages.push(message(Channel::Stdout, banner));
            let mut write: Option<String> = None;
            match outcome {
                ModifyOutcome::LoadFailed { file, cause } => {
                    let t = joined(
                        joined(joined("error parsing ", file.as_str()).as_str(), ": ").as_str(),
                        cause.as_str(),
                    );
                    messages.push(message(Channel::Stderr, t));
                },
                ModifyOutcome::Rendered(text) => {
                    if *print {
                        messages.push(message(Channel::Stdout, titled(cj, text.as_str())));
                    }
                    if !*dry_run {
                        write = Some(text.clone());
                    }
                },
                ModifyOutcome::Unrenderable(e) => {
                    messages.push(message(Channel::Stderr, joined("error prettifying JSON: ", e.as_str())));
                },
            }
            assert(messages_view(messages@) =~= modify_messages(
                composer_json@,
                modify@,
                *print,
                *dry_run,
                *outcome,
            ));
            ModifyReport { messages, write }
        },
    }
}

} // verus!
