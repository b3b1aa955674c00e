//! The editor session: the pane tree with the tables around it, and the
//! commands that work on them.
//!
//! A command runs in one step. What it needs from the host (a line from
//! the user, the text of a script, a language server) it asks for, and
//! what has to follow it waits on the session's stack of tasks. The host
//! runs the tasks from the top until none is left.

use crate::bind::{check, key_name};
use crate::buffer::file::{FileBuffer, FileView};
use crate::buffer::hex::{HexBuffer, HexView};
use crate::buffer::hl::{lemma_palette_cut, lemma_palette_put, palette, HighlightBuffer, HighlightView};
use crate::buffer::logview::LogViewBuffer;
use crate::buffer::{Base, BaseView, Buffer, BufferView};
use crate::drawer::{DrawOpView, Handle, StatusLine, StatusLineView};
use crate::event::{Event, EventView, Mods, Nav};
use crate::highlight::{Color, ColorView};
use crate::lsp::{LSPData, RequestView};
use crate::math::{clip, sat_sub, Rect, Vector};
use crate::script::{command_of, script_of, Command, CommandView, Open};
use crate::strmap::{cut, put, StrMap};
use crate::text::{push_char, same_text};
use vstd::prelude::*;
use vstd::string::StringExecFns;

verus! {

/// What `{:?}` writes for a text: the text between quotation marks, with
/// the characters escaped that cannot stand there as they are.
pub uninterp spec fn debug_str(s: Seq<char>) -> Seq<char>;

/// `format!` with `{:?}` on a text: the text as the debugger shows it, a
/// function of the text alone.
#[verifier::external_body]
fn debug_string(s: &str) -> (r: String)
    ensures
        r@ == debug_str(s@),
{
    format!("{:?}", s)
}

/// How the status line writes an optional text: `None` where there is
/// none, else `Some(` and `)` around the text as the debugger shows it.
pub open spec fn debug_text(value: Option<Seq<char>>) -> Seq<char> {
    match value {
        Some(s) => "Some("@ + debug_str(s) + ")"@,
        None => "None"@,
    }
}

/// Writes an optional text for the status line.
pub fn debug_option(value: &Option<String>) -> (r: String)
    ensures
        r@ == debug_text(
            match value {
                Some(s) => Some(s@),
                None => None,
            },
        ),
{
    match value {
        Some(s) => {
            let mut r = "Some(".to_string();
            r.append(debug_string(s.as_str()).as_str());
            r.append(")");
            r
        },
        None => "None".to_string(),
    }
}

/// `String::pop`: takes the last character off, if there is one.
#[verifier::external_body]
fn pop_char(s: &mut String) -> (r: Option<char>)
    ensures
        old(s)@.len() == 0 ==> r is None && final(s)@ == old(s)@,
        old(s)@.len() > 0 ==> r == Some(old(s)@.last()) && final(s)@ == old(s)@.drop_last(),
{
    s.pop()
}

/// What the status line has to show: the breadcrumb and the file type of
/// the focused pane, and the prompt with what was typed into it.
#[derive(Debug, PartialEq)]
pub struct Status {
    pub path: String,
    pub prompt: Option<String>,
    pub input: String,
    pub ft: String,
}

/// The status with its texts as characters.
pub struct StatusView {
    pub path: Seq<char>,
    pub prompt: Option<Seq<char>>,
    pub input: Seq<char>,
    pub ft: Seq<char>,
}

/// What waits to be done.
#[derive(Debug, PartialEq)]
pub enum Task {
    /// Run a command.
    Run(Command),
    /// Set a variable on the focused leaf.
    Assign(String, String),
}

/// A task with its texts as characters.
pub enum TaskView {
    Run(CommandView),
    Assign(Seq<char>, Seq<char>),
}

/// What a step asks of the host.
#[derive(Debug, PartialEq)]
pub enum Ask {
    /// Let the user edit a line that starts as this text, and push the
    /// command that it writes, unless the user gives up.
    Prompt(String),
    /// Read the script of this name and push its commands.
    Source(String),
    /// Start the language server with this command line.
    SpawnLsp(String),
}

/// A request to the host with its text as characters.
pub enum AskView {
    Prompt(Seq<char>),
    Source(Seq<char>),
    SpawnLsp(Seq<char>),
}

/// How a prompt goes on after an event.
#[derive(Debug, PartialEq, Eq, Clone, Copy, Structural)]
pub enum PromptStep {
    /// The user is still typing.
    Editing,
    /// The user gave up.
    Cancelled,
    /// The line is complete.
    Accepted,
}

/// An editor session.
#[derive(Debug, PartialEq)]
pub struct Data {
    pub bu: Buffer,
    pub status: Status,
    pub binds: StrMap<Command>,
    pub colors: StrMap<Color>,
    pub auto: StrMap<StrMap<String>>,
    pub lsp: LSPData,
    pub tasks: Vec<Task>,
}

/// The model of an editor session.
pub struct DataView {
    pub bu: BufferView,
    pub status: StatusView,
    pub binds: Map<Seq<char>, CommandView>,
    pub colors: Seq<(Seq<char>, ColorView)>,
    pub auto: Map<(Seq<char>, Seq<char>), Seq<char>>,
    pub lsp: Seq<RequestView>,
    pub tasks: Seq<TaskView>,
}

impl View for Status {
    type V = StatusView;

    open spec fn view(&self) -> StatusView {
        StatusView {
            path: self.path@,
            prompt: match self.prompt {
                Some(p) => Some(p@),
                None => None,
            },
            input: self.input@,
            ft: self.ft@,
        }
    }
}

impl View for Task {
    type V = TaskView;

    open spec fn view(&self) -> TaskView {
        match self {
            Task::Run(cmd) => TaskView::Run(cmd.view()),
            Task::Assign(name, value) => TaskView::Assign(name@, value@),
        }
    }
}

impl DeepView for Task {
    type V = TaskView;

    open spec fn deep_view(&self) -> TaskView {
        self@
    }
}

impl View for Ask {
    type V = AskView;

    open spec fn view(&self) -> AskView {
        match self {
            Ask::Prompt(text) => AskView::Prompt(text@),
            Ask::Source(path) => AskView::Source(path@),
            Ask::SpawnLsp(command) => AskView::SpawnLsp(command@),
        }
    }
}

/// The key bindings as a map from key name to command.
pub open spec fn binds_view(binds: StrMap<Command>) -> Map<Seq<char>, CommandView> {
    binds@.map_values(|c: Command| c.view())
}

/// The rules that run a command when a variable is set to a value, as a
/// map from variable and value to the text of the command.
pub open spec fn auto_view(auto: StrMap<StrMap<String>>) -> Map<(Seq<char>, Seq<char>), Seq<char>> {
    Map::new(
        |k: (Seq<char>, Seq<char>)| auto@.contains_key(k.0) && auto@[k.0]@.contains_key(k.1),
        |k: (Seq<char>, Seq<char>)| auto@[k.0]@[k.1]@,
    )
}

impl View for Data {
    type V = DataView;

    open spec fn view(&self) -> DataView {
        DataView {
            bu: self.bu.view(),
            status: self.status@,
            binds: binds_view(self.binds),
            colors: palette(self.colors.entries()),
            auto: auto_view(self.auto),
            lsp: self.lsp@,
            tasks: self.tasks.deep_view(),
        }
    }
}

impl StatusView {
    /// The status with no prompt and nothing to show.
    pub open spec fn blank() -> StatusView {
        StatusView { path: Seq::empty(), prompt: None, input: Seq::empty(), ft: Seq::empty() }
    }

    /// What the status line shows: at the left the prompt, a colon and the
    /// input, or the breadcrumb where nothing is asked; at the right the
    /// file type and the name of the editor.
    pub open spec fn line(self) -> StatusLineView {
        StatusLineView {
            left: match self.prompt {
                Some(p) => p + ":"@ + self.input,
                None => self.path,
            },
            center: Seq::empty(),
            right: self.ft + " | PrestoEdit"@,
        }
    }

    /// The status after an event reached the prompt, and how the prompt
    /// goes on. Without modifiers, Escape gives up and takes the prompt
    /// away, Enter accepts, Backspace takes the last character off and any
    /// other key is added. Leaving the editor accepts too.
    pub open spec fn prompt_event(self, ev: EventView) -> (StatusView, PromptStep) {
        match ev {
            EventView::Nav(mods, nav) => if mods == Mods::none() {
                match nav {
                    Nav::Escape => (StatusView { prompt: None, ..self }, PromptStep::Cancelled),
                    Nav::Enter => (self, PromptStep::Accepted),
                    Nav::BackSpace => (
                        StatusView {
                            input: if self.input.len() > 0 {
                                self.input.drop_last()
                            } else {
                                self.input
                            },
                            ..self
                        },
                        PromptStep::Editing,
                    ),
                    _ => (self, PromptStep::Editing),
                }
            } else {
                (self, PromptStep::Editing)
            },
            EventView::Key(mods, c) => if mods == Mods::none() {
                (StatusView { input: self.input.push(c), ..self }, PromptStep::Editing)
            } else {
                (self, PromptStep::Editing)
            },
            EventView::Quit => (self, PromptStep::Accepted),
            _ => (self, PromptStep::Editing),
        }
    }
}

/// The whole screen as a region.
pub open spec fn screen(size: Vector) -> Rect {
    Rect { x: 0, y: 0, w: size.x, h: size.y }
}

/// The tasks that run a script: its commands, the first on top.
pub open spec fn script_tasks(cmds: Seq<CommandView>) -> Seq<TaskView> {
    Seq::new(cmds.len(), |i: int| TaskView::Run(cmds[cmds.len() - 1 - i]))
}

impl DataView {
    /// The session with `child` in the focus slot of its tree.
    pub open spec fn show(self, child: BufferView) -> DataView {
        DataView { bu: self.bu.replace_focused(child), ..self }
    }

    /// The session after a variable was set on the focused leaf, and what
    /// the host is asked: setting `lsp` asks for a language server.
    pub open spec fn assign(self, name: Seq<char>, value: Seq<char>) -> (DataView, Option<AskView>) {
        (
            DataView { bu: self.bu.set_var(name, value), ..self },
            if name == "lsp"@ {
                Some(AskView::SpawnLsp(value))
            } else {
                None
            },
        )
    }

    /// The session after one command, and what the host is asked.
    ///
    /// - `Split` divides the focused leaf; `Open`, `Log` and `Highlight`
    ///   without a name put a new pane in the focus slot; `Close` closes
    ///   what has the focus.
    /// - `Write` sends a save through the tree, `Open` as text has the
    ///   language server told.
    /// - `Bind`, `Highlight` with a name and `Auto` change the tables.
    /// - `SetVar` with a value sets the variable on the focused leaf. Where
    ///   a rule is set for the variable and the value, the rule's command
    ///   is pushed to run first, and the assignment behind it.
    /// - An incomplete command and `Run` ask for a line, `Source` for a
    ///   script.
    pub open spec fn run(self, cmd: CommandView, size: Vector) -> (DataView, Option<AskView>) {
        match cmd {
            CommandView::Incomplete(text) => (self, Some(AskView::Prompt(text + " "@))),
            CommandView::Run => (self, Some(AskView::Prompt(Seq::empty()))),
            CommandView::Source(path) => (self, Some(AskView::Source(path))),
            CommandView::Split(kind) => (DataView { bu: self.bu.split_focused(kind), ..self }, None),
            CommandView::Open(path, Open::Text) => (
                DataView {
                    lsp: self.lsp.push(RequestView::Opened { file: path }),
                    ..self.show(BufferView::created(BaseView::File(FileView::fresh(path))))
                },
                None,
            ),
            CommandView::Open(path, Open::Hex) => (
                self.show(BufferView::created(BaseView::Hex(HexView::fresh(path)))),
                None,
            ),
            CommandView::Write(path) => {
                let (bu, asked) = self.bu.event_process(EventView::Save(path), screen(size));
                (DataView { bu, lsp: self.lsp + asked, ..self }, None)
            },
            CommandView::Close => (
                DataView { bu: self.bu.close_focused(), lsp: self.lsp + self.bu.close().2, ..self },
                None,
            ),
            CommandView::Log => (self.show(BufferView::created(BaseView::LogView)), None),
            CommandView::Highlight(None) => (
                self.show(
                    BufferView::created(BaseView::Highlight(HighlightView { colors: self.colors })),
                ),
                None,
            ),
            CommandView::Highlight(Some((name, None))) => (
                DataView { colors: cut(self.colors, name), ..self },
                None,
            ),
            CommandView::Highlight(Some((name, Some(color)))) => (
                DataView { colors: put(self.colors, name, color), ..self },
                None,
            ),
            CommandView::Bind(key, None) => (DataView { binds: self.binds.remove(key), ..self }, None),
            CommandView::Bind(key, Some(bound)) => (
                DataView { binds: self.binds.insert(key, *bound), ..self },
                None,
            ),
            CommandView::SetVar(name, Some(value)) => if self.auto.contains_key((name, value)) {
                (
                    DataView {
                        tasks: self.tasks.push(TaskView::Assign(name, value)).push(
                            TaskView::Run(command_of(self.auto[(name, value)])),
                        ),
                        ..self
                    },
                    None,
                )
            } else {
                self.assign(name, value)
            },
            CommandView::Auto(name, value, rule) => (
                DataView { auto: self.auto.insert((name, value), rule), ..self },
                None,
            ),
            _ => (self, None),
        }
    }

    /// The session after one task, and what the host is asked.
    pub open spec fn run_task(self, task: TaskView, size: Vector) -> (DataView, Option<AskView>) {
        match task {
            TaskView::Run(cmd) => self.run(cmd, size),
            TaskView::Assign(name, value) => self.assign(name, value),
        }
    }

    /// The session after an input event: a key that is bound runs its
    /// command, every other event goes through the tree.
    pub open spec fn input(self, ev: EventView, size: Vector) -> (DataView, Option<AskView>) {
        if key_name(ev) is Some && self.binds.contains_key(key_name(ev)->0) {
            self.run(self.binds[key_name(ev)->0], size)
        } else {
            let (bu, asked) = self.bu.event_process(ev, screen(size));
            (DataView { bu, lsp: self.lsp + asked, ..self }, None)
        }
    }

    /// The region of the status line on a screen of the given size: its
    /// last row.
    pub open spec fn status_region(size: Vector) -> Rect {
        Rect { x: 0, y: clip(size.y - 1) as i32, w: size.x, h: 1 }
    }

    /// The session after a frame was drawn: the tree is laid out, the
    /// panes on the way to the focus know the size of a character, and the
    /// status shows the breadcrumb and the file type of the focused pane.
    pub open spec fn rendered(self, size: Vector, char_size: Vector) -> DataView {
        let bu = self.bu.update(size).get_cursor(size, char_size).0;
        DataView {
            bu,
            status: StatusView {
                path: bu.path(),
                ft: debug_text(bu.get_var("filetype"@)),
                ..self.status
            },
            ..self
        }
    }

    /// What a frame draws: the tree, the cursor and the status line.
    pub open spec fn frame(self, size: Vector, handle: Handle) -> Seq<DrawOpView> {
        let laid_out = self.bu.update(size);
        laid_out.drawn(handle.char_size, handle.log_view(), screen(size)) + seq![
            DrawOpView::Cursor { cur: laid_out.get_cursor(size, handle.char_size).1 },
            DrawOpView::Status {
                st: self.rendered(size, handle.char_size).status.line(),
                bounds: Self::status_region(size),
            },
        ]
    }
}

/// Binding a key is `insert` on the model of the bindings.
pub proof fn lemma_binds_insert(binds: Map<Seq<char>, Command>, key: Seq<char>, cmd: Command)
    ensures
        binds.insert(key, cmd).map_values(|c: Command| c.view()) == binds.map_values(
            |c: Command| c.view(),
        ).insert(key, cmd.view()),
{
}

/// Unbinding a key is `remove` on the model of the bindings.
pub proof fn lemma_binds_remove(binds: Map<Seq<char>, Command>, key: Seq<char>)
    ensures
        binds.remove(key).map_values(|c: Command| c.view()) == binds.map_values(
            |c: Command| c.view(),
        ).remove(key),
{
}

impl Status {
    /// A status with no prompt and nothing to show.
    pub fn new() -> (s: Status)
        ensures
            s@ == StatusView::blank(),
    {
        Status { path: String::new(), prompt: None, input: String::new(), ft: String::new() }
    }

    /// Starts a prompt: `label` says what is asked, `text` is what the
    /// line starts as.
    pub fn ask(&mut self, label: String, text: String)
        ensures
            final(self)@ == (StatusView { prompt: Some(label@), input: text@, ..old(self)@ }),
    {
        self.prompt = Some(label);
        self.input = text;
    }

    /// Ends a prompt and hands out the line that was typed.
    pub fn answer(&mut self) -> (line: String)
        ensures
            line@ == old(self)@.input,
            final(self)@ == (StatusView { prompt: None, ..old(self)@ }),
    {
        self.prompt = None;
        self.input.clone()
    }

    /// Takes one event while a prompt is open.
    pub fn prompt_event(&mut self, ev: &Event) -> (step: PromptStep)
        ensures
            (final(self)@, step) == old(self)@.prompt_event(ev@),
    {
        match ev {
            Event::Nav(mods, nav) => {
                if mods.is_none() {
                    match nav {
                        Nav::Escape => {
                            self.prompt = None;
                            PromptStep::Cancelled
                        },
                        Nav::Enter => PromptStep::Accepted,
                        Nav::BackSpace => {
                            pop_char(&mut self.input);
                            PromptStep::Editing
                        },
                        _ => PromptStep::Editing,
                    }
                } else {
                    PromptStep::Editing
                }
            },
            Event::Key(mods, c) => {
                if mods.is_none() {
                    push_char(&mut self.input, *c);
                }
                PromptStep::Editing
            },
            Event::Quit => PromptStep::Accepted,
            _ => PromptStep::Editing,
        }
    }

    /// Draws the status line.
    pub fn draw(&self, handle: &mut Handle, coords: Rect)
        ensures
            old(handle).extended_by(
                final(handle),
                seq![DrawOpView::Status { st: self@.line(), bounds: coords }],
            ),
    {
        let left = match &self.prompt {
            Some(p) => {
                let mut left = p.clone();
                left.append(":");
                left.append(self.input.as_str());
                left
            },
            None => self.path.clone(),
        };
        let mut right = self.ft.clone();
        right.append(" | PrestoEdit");
        handle.render_status(StatusLine { left, center: String::new(), right }, coords);
    }
}

impl Data {
    /// A session with an empty pane, empty tables and nothing to do.
    pub fn new() -> (data: Data)
        ensures
            data@.bu == BufferView::empty(),
            data@.status == StatusView::blank(),
            data@.binds == Map::<Seq<char>, CommandView>::empty(),
            data@.colors == Seq::<(Seq<char>, ColorView)>::empty(),
            data@.auto == Map::<(Seq<char>, Seq<char>), Seq<char>>::empty(),
            data@.lsp == Seq::<RequestView>::empty(),
            data@.tasks == Seq::<TaskView>::empty(),
    {
        let data = Data {
            bu: Buffer::empty(),
            status: Status::new(),
            binds: StrMap::new(),
            colors: StrMap::new(),
            auto: StrMap::new(),
            lsp: LSPData::new(),
            tasks: Vec::new(),
        };
        data
    }

    /// The command of the rule for a variable and a value, if one is set.
    fn rule(&self, name: &String, value: &String) -> (r: Option<String>)
        ensures
            match r {
                Some(text) => self@.auto.contains_key((name@, value@)) && self@.auto[(
                    name@,
                    value@,
                )] == text@,
                None => !self@.auto.contains_key((name@, value@)),
            },
    {
        match self.auto.get(name) {
            Some(rules) => match rules.get(value) {
                Some(text) => Some(text.clone()),
                None => None,
            },
            None => None,
        }
    }

    /// Sets the rule for a variable and a value.
    fn set_rule(&mut self, name: String, value: String, rule: String)
        ensures
            final(self)@ == (DataView {
                auto: old(self)@.auto.insert((name@, value@), rule@),
                ..old(self)@
            }),
    {
        let mut rules = match self.auto.remove(&name) {
            Some(rules) => rules,
            None => StrMap::new(),
        };
        rules.insert(value, rule);
        self.auto.insert(name, rules);
        assert(auto_view(self.auto) =~= auto_view(old(self).auto).insert((name@, value@), rule@));
    }

    /// Pushes a task: it runs before those that wait.
    pub fn push_task(&mut self, task: Task)
        ensures
            final(self)@ == (DataView { tasks: old(self)@.tasks.push(task@), ..old(self)@ }),
    {
        self.tasks.push(task);
        assert(self.tasks.deep_view() =~= old(self).tasks.deep_view().push(task@));
    }

    /// Takes the task that is to run next, if any waits.
    pub fn pop_task(&mut self) -> (task: Option<Task>)
        ensures
            match task {
                Some(t) => old(self)@.tasks.len() > 0 && t@ == old(self)@.tasks.last() && final(self)@
                    == (DataView { tasks: old(self)@.tasks.drop_last(), ..old(self)@ }),
                None => old(self)@.tasks.len() == 0 && final(self)@ == old(self)@,
            },
    {
        let task = self.tasks.pop();
        assert(self.tasks.deep_view() =~= if old(self).tasks.len() > 0 {
            old(self).tasks.deep_view().drop_last()
        } else {
            old(self).tasks.deep_view()
        });
        task
    }

    /// Pushes the commands of a script, so that they run in the order of
    /// its lines.
    pub fn push_script(&mut self, text: &str)
        ensures
            final(self)@ == (DataView {
                tasks: old(self)@.tasks + script_tasks(script_of(text@)),
                ..old(self)@
            }),
    {
        let mut cmds = Command::parse_script(text);
        let ghost all = script_of(text@);
        let ghost base = self.tasks.deep_view();
        while cmds.len() > 0
            invariant
                cmds.len() <= all.len(),
                forall|i: int| 0 <= i < cmds.len() ==> (#[trigger] cmds[i]).view() == all[i],
                self.tasks.deep_view() == base + script_tasks(all).take(all.len() - cmds.len()),
                self.bu == old(self).bu,
                self.status == old(self).status,
                self.binds == old(self).binds,
                self.colors == old(self).colors,
                self.auto == old(self).auto,
                self.lsp == old(self).lsp,
            decreases cmds.len(),
        {
            let ghost k = all.len() - cmds.len();
            let ghost last = cmds[cmds.len() - 1].view();
            let cmd = cmds.pop();
            match cmd {
                Some(c) => {
                    self.tasks.push(Task::Run(c));
                    assert(base + script_tasks(all).take(k + 1) =~= (base + script_tasks(all).take(k)).push(
                        TaskView::Run(last),
                    ));
                },
                None => {},
            }
        }
        assert(script_tasks(all).take(all.len() as int) =~= script_tasks(all));
    }

    /// Puts a new pane in the focus slot of the tree.
    fn show(&mut self, base: Base)
        ensures
            final(self)@ == old(self)@.show(BufferView::created(base.view())),
    {
        self.bu.replace_focused(Buffer::new(base));
    }

    /// Sets a variable on the focused leaf.
    fn assign(&mut self, name: String, value: String) -> (ask: Option<Ask>)
        ensures
            final(self)@ == old(self)@.assign(name@, value@).0,
            opt_ask(ask) == old(self)@.assign(name@, value@).1,
    {
        let ask = if same_text(name.as_str(), "lsp") {
            Some(Ask::SpawnLsp(value.clone()))
        } else {
            None
        };
        self.bu.set_var(name, value);
        ask
    }

    /// Runs one task.
    pub fn run_task(&mut self, task: Task, size: Vector) -> (ask: Option<Ask>)
        ensures
            final(self)@ == old(self)@.run_task(task@, size).0,
            opt_ask(ask) == old(self)@.run_task(task@, size).1,
    {
        match task {
            Task::Run(cmd) => run_command(cmd, self, size),
            Task::Assign(name, value) => self.assign(name, value),
        }
    }

    /// Takes one input event: a key that is bound runs its command, every
    /// other event goes through the tree.
    pub fn input(&mut self, ev: Event, size: Vector) -> (ask: Option<Ask>)
        ensures
            final(self)@ == old(self)@.input(ev@, size).0,
            opt_ask(ask) == old(self)@.input(ev@, size).1,
    {
        match check(&self.binds, &ev) {
            Some(cmd) => run_command(cmd, self, size),
            None => {
                self.bu.event_process(ev, &mut self.lsp, Rect { x: 0, y: 0, w: size.x, h: size.y });
                None
            },
        }
    }
}

/// The view of an optional request to the host.
pub open spec fn opt_ask(ask: Option<Ask>) -> Option<AskView> {
    match ask {
        Some(a) => Some(a@),
        None => None,
    }
}

/// Runs one command on the session.
pub fn run_command(cmd: Command, data: &mut Data, size: Vector) -> (ask: Option<Ask>)
    ensures
        final(data)@ == old(data)@.run(cmd.view(), size).0,
        opt_ask(ask) == old(data)@.run(cmd.view(), size).1,
{
    match cmd {
        Command::Incomplete(text) => {
            let mut line = text;
            line.append(" ");
            Some(Ask::Prompt(line))
        },
        Command::Run => Some(Ask::Prompt(String::new())),
        Command::Source(path) => Some(Ask::Source(path)),
        Command::Split(kind) => {
            data.bu.split_focused(kind);
            None
        },
        Command::Open(path, Open::Text) => {
            data.lsp.open_file(path.clone());
            data.show(Base::File(FileBuffer::new(path)));
            None
        },
        Command::Open(path, Open::Hex) => {
            data.show(Base::Hex(HexBuffer::new(path)));
            None
        },
        Command::Write(path) => {
            data.bu.event_process(
                Event::Save(path),
                &mut data.lsp,
                Rect { x: 0, y: 0, w: size.x, h: size.y },
            );
            None
        },
        Command::Close => {
            data.bu.close_focused(&mut data.lsp);
            None
        },
        Command::Log => {
            data.show(Base::LogView(LogViewBuffer {  }));
            None
        },
        Command::Highlight(None) => {
            let pane = HighlightBuffer::new(&data.colors);
            data.show(Base::Highlight(pane));
            None
        },
        Command::Highlight(Some((name, None))) => {
            proof {
                lemma_palette_cut(data.colors.entries(), name@);
            }
            data.colors.remove(&name);
            None
        },
        Command::Highlight(Some((name, Some(color)))) => {
            proof {
                lemma_palette_put(data.colors.entries(), name@, color);
            }
            data.colors.insert(name, color);
            None
        },
        Command::Bind(key, None) => {
            proof {
                lemma_binds_remove(data.binds@, key@);
            }
            data.binds.remove(&key);
            None
        },
        Command::Bind(key, Some(bound)) => {
            proof {
                lemma_binds_insert(data.binds@, key@, *bound);
            }
            data.binds.insert(key, *bound);
            None
        },
        Command::SetVar(name, Some(value)) => {
            match data.rule(&name, &value) {
                Some(text) => {
                    data.push_task(Task::Assign(name, value));
                    data.push_task(Task::Run(Command::parse(text)));
                    None
                },
                None => data.assign(name, value),
            }
        },
        Command::Auto(name, value, rule) => {
            data.set_rule(name, value, rule);
            None
        },
        _ => None,
    }
}

/// Draws one frame: lays the tree out and draws it, places the cursor,
/// and brings the status line up to date and draws it.
pub fn render(data: &mut Data, size: Vector, handle: &mut Handle)
    ensures
        final(data)@ == old(data)@.rendered(size, old(handle).char_size),
        old(handle).extended_by(final(handle), old(data)@.frame(size, *old(handle))),
{
    data.bu.update(size);
    data.bu.draw(handle, Rect { x: 0, y: 0, w: size.x, h: size.y });
    let cur = data.bu.get_cursor(size, handle.get_char_size());
    handle.render_cursor(cur);
    data.status.path = data.bu.get_path();
    let kind = data.bu.get_var(&"filetype".to_string());
    data.status.ft = debug_option(&kind);
    data.status.draw(handle, Rect { x: 0, y: sat_sub(size.y, 1), w: size.x, h: 1 });
    assert(handle.drawn() =~= old(handle).drawn() + old(data)@.frame(size, *old(handle)));
}

} // verus!
