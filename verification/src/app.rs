//! The program's main window: its tabs, the terminal log under them, and the switch from
//! the setup screen to the main window.
use vstd::prelude::*;
use crate::build_tab::{self, build_after, build_effect, BuildModel};
use crate::command::{command_model, version_query, CommandLine};
use crate::new::{self, form_after, form_effect, FormModel};
use crate::profiles::{self, profiles_accept, profiles_after, profiles_effect, ProfileModel};
use crate::setup::{self, path_after, setup_effect, Setup};

verus! {

/// What the main window is told.
#[derive(Debug, Clone)]
pub enum AppMessage {
    TabSelected(usize),
    RunGeodeVersion,
    CommandOutput(String),
    ToggleTty,
    Profiles(profiles::Message),
    New(new::Message),
    Build(build_tab::Message),
}

/// The outside work that the main window asks for.
#[derive(Debug, Clone)]
pub enum AppEffect {
    Idle,
    /// Run the command; what it prints comes back as `AppMessage::CommandOutput`.
    Version(CommandLine),
    Profiles(profiles::Effect),
    New(new::Effect),
    Build(build_tab::Effect),
}

/// The main window as the specification sees it.
pub struct AppModel {
    pub geode_path: Seq<char>,
    pub selected_tab: usize,
    pub tty_output: Seq<char>,
    pub tty_expanded: bool,
    pub profiles: Seq<ProfileModel>,
    pub new: FormModel,
    pub build: BuildModel,
}

/// What a message adds to the terminal log: command output, a profile listing, the output
/// of `geode new` and each line of a build, each followed by a newline.
pub open spec fn logged(m: AppMessage) -> Seq<char> {
    match m {
        AppMessage::CommandOutput(o) => o@ + "\n"@,
        AppMessage::Profiles(profiles::Message::Loaded(o)) => o@ + "\n"@,
        AppMessage::New(new::Message::ProjectCreated(o)) => o@ + "\n"@,
        AppMessage::Build(build_tab::Message::BuildLine(l)) => l@ + "\n"@,
        _ => Seq::empty(),
    }
}

/// The main window after `m`, when it was `a`.
pub open spec fn app_after(a: AppModel, m: AppMessage) -> AppModel {
    match m {
        AppMessage::TabSelected(i) => AppModel { selected_tab: i, ..a },
        AppMessage::RunGeodeVersion => a,
        AppMessage::CommandOutput(_) => AppModel { tty_output: a.tty_output + logged(m), ..a },
        AppMessage::ToggleTty => AppModel { tty_expanded: !a.tty_expanded, ..a },
        AppMessage::Profiles(pm) => AppModel {
            tty_output: a.tty_output + logged(m),
            profiles: profiles_after(a.profiles, pm),
            ..a
        },
        AppMessage::New(nm) => AppModel {
            tty_output: a.tty_output + logged(m),
            new: form_after(a.new, nm),
            ..a
        },
        AppMessage::Build(bm) => AppModel {
            tty_output: a.tty_output + logged(m),
            build: build_after(a.build, bm),
            ..a
        },
    }
}

/// Whether `e` is the outside work that `m` asks of the main window `a`.
pub open spec fn app_effect(a: AppModel, m: AppMessage, e: AppEffect) -> bool {
    match m {
        AppMessage::RunGeodeVersion => e matches AppEffect::Version(c) && c@ == command_model(
            a.geode_path,
            seq!["--version"@],
        ),
        AppMessage::Profiles(pm) => e matches AppEffect::Profiles(pe) && profiles_effect(
            a.geode_path,
            pm,
            pe,
        ),
        AppMessage::New(nm) => e matches AppEffect::New(ne) && form_effect(
            a.new,
            a.geode_path,
            nm,
            ne,
        ),
        AppMessage::Build(bm) => e matches AppEffect::Build(be) && build_effect(
            a.build,
            a.geode_path,
            bm,
            be,
        ),
        _ => e is Idle,
    }
}

/// A message that the main window can take: a profile listing it is given can be read.
pub open spec fn app_accepts(m: AppMessage) -> bool {
    m matches AppMessage::Profiles(pm) ==> profiles_accept(pm)
}

/// The main window: the tool it runs, the selected tab, the terminal log and the tabs.
#[allow(non_camel_case_types)]
pub struct quartz {
    pub geode_path: String,
    pub selected_tab: usize,
    pub tty_output: String,
    pub tty_expanded: bool,
    pub profiles: profiles::Tab,
    pub new: new::Tab,
    pub build: build_tab::Tab,
}

/// The tab that the main window shows.
#[derive(Debug, Clone, Copy, PartialEq, Eq, Structural)]
pub enum Screen {
    Profiles,
    New,
    Build,
    /// A tab number that names no tab.
    Unknown,
}

/// The tab that tab number `i` names.
pub open spec fn screen_of(i: usize) -> Screen {
    if i == 0 {
        Screen::Profiles
    } else if i == 1 {
        Screen::New
    } else if i == 2 {
        Screen::Build
    } else {
        Screen::Unknown
    }
}

impl quartz {
    /// The main window as the specification sees it.
    pub open spec fn model(&self) -> AppModel {
        AppModel {
            geode_path: self.geode_path@,
            selected_tab: self.selected_tab,
            tty_output: self.tty_output@,
            tty_expanded: self.tty_expanded,
            profiles: self.profiles.model(),
            new: self.new.model(),
            build: self.build.model(),
        }
    }

    /// A fresh main window for the tool at `geode_path`: the first tab, an empty and folded
    /// terminal log, and empty tabs.
    pub fn new(geode_path: String) -> (r: Self)
        ensures
            r.geode_path@ == geode_path@,
            r.selected_tab == 0,
            r.tty_output@ == Seq::<char>::empty(),
            !r.tty_expanded,
            r.profiles.profiles@.len() == 0,
            r.new.model() == (FormModel {
                mod_name: Seq::empty(),
                version: Seq::empty(),
                developer: Seq::empty(),
                description: Seq::empty(),
                target_directory: Seq::empty(),
                strip_comments: false,
                template: None,
                creating: false,
            }),
            r.build.model() == (BuildModel {
                project_directory: Seq::empty(),
                building: false,
                latest_line: Seq::empty(),
            }),
    {
        Self {
            geode_path,
            selected_tab: 0,
            tty_output: String::new(),
            tty_expanded: false,
            profiles: profiles::Tab::default(),
            new: new::Tab::default(),
            build: build_tab::Tab::default(),
        }
    }

    /// Adds `text` and a newline to the terminal log.
    fn log(&mut self, text: &str)
        ensures
            final(self).model() == (AppModel {
                tty_output: old(self).tty_output@ + (text@ + "\n"@),
                ..old(self).model()
            }),
    {
        self.tty_output.append(text);
        self.tty_output.append("\n");
        assert(self.tty_output@ =~= old(self).tty_output@ + (text@ + "\n"@));
    }

    /// Handles one message.
    pub fn update(&mut self, message: AppMessage) -> (effect: AppEffect)
        requires
            app_accepts(message),
        ensures
            final(self).model() == app_after(old(self).model(), message),
            app_effect(old(self).model(), message, effect),
    {
        match message {
            AppMessage::TabSelected(index) => {
                self.selected_tab = index;
                AppEffect::Idle
            },
            AppMessage::RunGeodeVersion => AppEffect::Version(
                version_query(self.geode_path.as_str()),
            ),
            AppMessage::CommandOutput(output) => {
                self.log(output.as_str());
                AppEffect::Idle
            },
            AppMessage::ToggleTty => {
                self.tty_expanded = !self.tty_expanded;
                AppEffect::Idle
            },
            AppMessage::Profiles(msg) => {
                if let profiles::Message::Loaded(output) = &msg {
                    self.log(output.as_str());
                } else {
                    assert(logged(message) =~= Seq::<char>::empty());
                    assert(self.tty_output@ =~= self.tty_output@ + logged(message));
                }
                let e = self.profiles.update(self.geode_path.as_str(), msg);
                AppEffect::Profiles(e)
            },
            AppMessage::New(msg) => {
                if let new::Message::ProjectCreated(output) = &msg {
                    self.log(output.as_str());
                } else {
                    assert(logged(message) =~= Seq::<char>::empty());
                    assert(self.tty_output@ =~= self.tty_output@ + logged(message));
                }
                let e = self.new.update(self.geode_path.as_str(), msg);
                AppEffect::New(e)
            },
            AppMessage::Build(msg) => {
                if let build_tab::Message::BuildLine(line) = &msg {
                    self.log(line.as_str());
                } else {
                    assert(logged(message) =~= Seq::<char>::empty());
                    assert(self.tty_output@ =~= self.tty_output@ + logged(message));
                }
                let e = self.build.update(self.geode_path.as_str(), msg);
                AppEffect::Build(e)
            },
        }
    }

    /// The tab to show.
    pub fn screen(&self) -> (r: Screen)
        ensures
            r == screen_of(self.selected_tab),
    {
        if self.selected_tab == 0 {
            Screen::Profiles
        } else if self.selected_tab == 1 {
            Screen::New
        } else if self.selected_tab == 2 {
            Screen::Build
        } else {
            Screen::Unknown
        }
    }

    /// The arrow on the terminal's fold button: pointing down while the log is shown.
    pub fn tty_arrow(&self) -> (r: &'static str)
        ensures
            r@ == if self.tty_expanded {
                "\u{2304}"@
            } else {
                ">"@
            },
    {
        if self.tty_expanded {
            "\u{2304}"
        } else {
            ">"
        }
    }
}

/// The terminal log only grows: every message leaves what it held in front and adds what
/// `logged` says, and the tool's path never changes.
pub proof fn lemma_terminal_log_only_grows(a: AppModel, m: AppMessage)
    ensures
        app_after(a, m).tty_output == a.tty_output + logged(m),
        app_after(a, m).tty_output.subrange(0, a.tty_output.len() as int) == a.tty_output,
        app_after(a, m).geode_path == a.geode_path,
{
    match m {
        AppMessage::TabSelected(_) | AppMessage::RunGeodeVersion | AppMessage::ToggleTty => {
            assert(a.tty_output + logged(m) =~= a.tty_output);
        },
        _ => {},
    }
    assert((a.tty_output + logged(m)).subrange(0, a.tty_output.len() as int) =~= a.tty_output);
}

/// The terminal log receives, each followed by a newline: the output of a command, a
/// profile listing, the output of `geode new`, and each line of a build; every other
/// message leaves it as it was. Choosing a tab selects it, the fold button flips the log's
/// visibility, and asking for the version runs `--version` with the tool.
pub proof fn lemma_terminal_log_contents(
    a: AppModel,
    o: String,
    i: usize,
    e: AppEffect,
)
    ensures
        app_after(a, AppMessage::CommandOutput(o)).tty_output == a.tty_output + o@ + "\n"@,
        app_after(a, AppMessage::Profiles(profiles::Message::Loaded(o))).tty_output == a.tty_output
            + o@ + "\n"@,
        app_after(a, AppMessage::New(new::Message::ProjectCreated(o))).tty_output == a.tty_output
            + o@ + "\n"@,
        app_after(a, AppMessage::Build(build_tab::Message::BuildLine(o))).tty_output == a.tty_output
            + o@ + "\n"@,
        app_after(a, AppMessage::Profiles(profiles::Message::Selected(o))).tty_output
            == a.tty_output,
        app_after(a, AppMessage::New(new::Message::ModNameChanged(o))).tty_output == a.tty_output,
        app_after(a, AppMessage::Build(build_tab::Message::BuildFinished)).tty_output
            == a.tty_output,
        app_after(a, AppMessage::TabSelected(i)).selected_tab == i,
        app_after(a, AppMessage::TabSelected(i)).tty_output == a.tty_output,
        app_after(a, AppMessage::ToggleTty).tty_expanded == !a.tty_expanded,
        app_after(a, AppMessage::ToggleTty).tty_output == a.tty_output,
        app_effect(a, AppMessage::RunGeodeVersion, e) ==> (e matches AppEffect::Version(c)
            && c@.program == a.geode_path && c@.args == seq!["--version"@]),
{
    assert(a.tty_output + (o@ + "\n"@) =~= a.tty_output + o@ + "\n"@);
    assert(a.tty_output + Seq::<char>::empty() =~= a.tty_output);
}

/// What the whole program is told: a message for the setup screen or for the main window.
#[derive(Debug, Clone)]
pub enum Message {
    Setup(setup::Message),
    App(AppMessage),
}

/// The outside work that the program asks for.
#[derive(Debug, Clone)]
pub enum Effect {
    Idle,
    Setup(setup::Effect),
    App(AppEffect),
}

/// The program: the setup screen until a tool is chosen, then the main window.
pub enum State {
    Setup(Setup),
    Main(quartz),
}

/// The program as the specification sees it.
pub enum StateModel {
    Setup(Option<Seq<char>>),
    Main(AppModel),
}

/// A fresh main window for the tool at `path`, as the specification sees it.
pub open spec fn fresh_app(path: Seq<char>) -> AppModel {
    AppModel {
        geode_path: path,
        selected_tab: 0,
        tty_output: Seq::empty(),
        tty_expanded: false,
        profiles: Seq::empty(),
        new: FormModel {
            mod_name: Seq::empty(),
            version: Seq::empty(),
            developer: Seq::empty(),
            description: Seq::empty(),
            target_directory: Seq::empty(),
            strip_comments: false,
            template: None,
            creating: false,
        },
        build: BuildModel {
            project_directory: Seq::empty(),
            building: false,
            latest_line: Seq::empty(),
        },
    }
}

/// The program after `m`, when it was `s`.
///
/// `Continue` on the setup screen opens the main window once a path is chosen; other
/// messages go to the screen that is shown, and are dropped by the other one.
pub open spec fn state_after(s: StateModel, m: Message) -> StateModel {
    match (s, m) {
        (StateModel::Setup(p), Message::Setup(setup::Message::Continue)) => match p {
            Some(path) => StateModel::Main(fresh_app(path)),
            None => s,
        },
        (StateModel::Setup(p), Message::Setup(sm)) => StateModel::Setup(path_after(p, sm)),
        (StateModel::Main(a), Message::App(am)) => StateModel::Main(app_after(a, am)),
        _ => s,
    }
}

/// Whether `e` is the outside work that `m` asks of the program `s`.
pub open spec fn state_effect(s: StateModel, m: Message, e: Effect) -> bool {
    match (s, m) {
        (StateModel::Setup(_), Message::Setup(setup::Message::Continue)) => e is Idle,
        (StateModel::Setup(_), Message::Setup(sm)) => e matches Effect::Setup(se) && setup_effect(
            sm,
            se,
        ),
        (StateModel::Main(a), Message::App(am)) => e matches Effect::App(ae) && app_effect(
            a,
            am,
            ae,
        ),
        _ => e is Idle,
    }
}

/// A message that the program can take.
pub open spec fn state_accepts(m: Message) -> bool {
    m matches Message::App(am) ==> app_accepts(am)
}

impl State {
    /// The program as the specification sees it.
    pub open spec fn model(&self) -> StateModel {
        match self {
            State::Setup(s) => StateModel::Setup(s.model()),
            State::Main(a) => StateModel::Main(a.model()),
        }
    }

    /// The program at start: the main window when the settings file named a tool, the
    /// setup screen otherwise.
    pub fn from_saved_path(saved: Option<String>) -> (r: State)
        ensures
            r.model() == match saved {
                Some(p) => StateModel::Main(fresh_app(p@)),
                None => StateModel::Setup(None),
            },
    {
        match saved {
            Some(path) => {
                let app = quartz::new(path);
                assert(app.model().profiles =~= Seq::<ProfileModel>::empty());
                State::Main(app)
            },
            None => State::Setup(Setup::default()),
        }
    }

    /// Handles one message.
    pub fn update(&mut self, message: Message) -> (effect: Effect)
        requires
            state_accepts(message),
        ensures
            final(self).model() == state_after(old(self).model(), message),
            state_effect(old(self).model(), message, effect),
    {
        match message {
            Message::Setup(setup::Message::Continue) => {
                let next = match self {
                    State::Setup(s) => match &s.geode_path {
                        Some(path) => Some(quartz::new(path.clone())),
                        None => None,
                    },
                    State::Main(_) => None,
                };
                if let Some(app) = next {
                    assert(app.model().profiles =~= Seq::<ProfileModel>::empty());
                    *self = State::Main(app);
                }
                Effect::Idle
            },
            Message::Setup(msg) => match self {
                State::Setup(s) => Effect::Setup(s.update(msg)),
                State::Main(_) => Effect::Idle,
            },
            Message::App(msg) => match self {
                State::Main(app) => Effect::App(app.update(msg)),
                State::Setup(_) => Effect::Idle,
            },
        }
    }
}

/// On the setup screen, choosing the system default and continuing opens the main window
/// on `/usr/bin/geode`, whatever path was chosen before.
pub proof fn lemma_system_default_opens_main(p: Option<Seq<char>>)
    ensures
        state_after(
            state_after(StateModel::Setup(p), Message::Setup(setup::Message::UseSystemDefault)),
            Message::Setup(setup::Message::Continue),
        ) == StateModel::Main(fresh_app("/usr/bin/geode"@)),
{
}

/// Once the main window is open, the program never goes back to the setup screen.
pub proof fn lemma_main_window_stays(s: StateModel, m: Message)
    ensures
        s is Main ==> state_after(s, m) is Main,
{
}

} // verus!
