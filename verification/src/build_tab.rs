//! The screen that builds a mod project with `geode build`.
use vstd::prelude::*;

verus! {

/// What a running build reports: one line of its output, or its end.
#[derive(Debug, Clone)]
pub enum BuildEvent {
    Line(String),
    Done,
}

/// What the build screen is told.
#[derive(Debug, Clone)]
pub enum Message {
    ProjectDirChanged(String),
    BrowseProjectDir,
    ProjectDirPicked(Option<String>),
    StartBuild,
    BuildLine(String),
    BuildFinished,
}

/// A build to run: `program build`, in the folder `project_dir`.
#[derive(Debug, Clone)]
pub struct BuildRequest {
    pub program: String,
    pub project_dir: String,
}

/// The outside work that the build screen asks for.
#[derive(Debug, Clone)]
pub enum Effect {
    Idle,
    /// Ask the user for a folder; the answer comes back as `Message::ProjectDirPicked`.
    PickProjectDir,
    /// Run the build; each of its events comes back through `message_for`.
    Build(BuildRequest),
}

/// The message that an event of a running build becomes.
pub fn message_for(event: BuildEvent) -> (m: Message)
    ensures
        match event {
            BuildEvent::Line(l) => m matches Message::BuildLine(x) && x@ == l@,
            BuildEvent::Done => m is BuildFinished,
        },
{
    match event {
        BuildEvent::Line(l) => Message::BuildLine(l),
        BuildEvent::Done => Message::BuildFinished,
    }
}

/// The line reported when the build could not be started: `build failed: ` and the reason.
pub fn build_failure_line(reason: &str) -> (r: String)
    ensures
        r@ == "build failed: "@ + reason@,
{
    let mut out = String::from_str("build failed: ");
    out.append(reason);
    out
}

/// The argument that makes the tool build.
pub fn build_argument() -> (r: &'static str)
    ensures
        r@ == "build"@,
{
    "build"
}

/// The build screen: the project folder, whether a build runs, and its latest line.
pub struct Tab {
    pub project_directory: String,
    pub building: bool,
    pub latest_line: String,
}

impl Default for Tab {
    fn default() -> (r: Tab)
        ensures
            r.project_directory@ == Seq::<char>::empty(),
            !r.building,
            r.latest_line@ == Seq::<char>::empty(),
    {
        Tab { project_directory: String::new(), building: false, latest_line: String::new() }
    }
}

/// The build screen as the specification sees it.
pub struct BuildModel {
    pub project_directory: Seq<char>,
    pub building: bool,
    pub latest_line: Seq<char>,
}

/// The build screen after `m`, when it was `b`.
///
/// A build needs a project folder: without one nothing happens; with one the screen is
/// marked busy, its latest line cleared, until `BuildFinished` arrives.
pub open spec fn build_after(b: BuildModel, m: Message) -> BuildModel {
    match m {
        Message::ProjectDirChanged(v) => BuildModel { project_directory: v@, ..b },
        Message::BrowseProjectDir => b,
        Message::ProjectDirPicked(Some(p)) => BuildModel { project_directory: p@, ..b },
        Message::ProjectDirPicked(None) => b,
        Message::StartBuild => if b.project_directory.len() == 0 {
            b
        } else {
            BuildModel { building: true, latest_line: Seq::empty(), ..b }
        },
        Message::BuildLine(l) => BuildModel { latest_line: l@, ..b },
        Message::BuildFinished => BuildModel { building: false, ..b },
    }
}

/// Whether `e` is the outside work that `m` asks of the build screen `b`, for the tool at
/// `geode_path`.
pub open spec fn build_effect(b: BuildModel, geode_path: Seq<char>, m: Message, e: Effect) -> bool {
    match m {
        Message::BrowseProjectDir => e is PickProjectDir,
        Message::StartBuild => if b.project_directory.len() == 0 {
            e is Idle
        } else {
            e matches Effect::Build(r) && r.program@ == geode_path && r.project_dir@
                == b.project_directory
        },
        _ => e is Idle,
    }
}

/// A cancelled folder dialog changes nothing: the build screen stays as it was, so a
/// folder typed before is still the one that a build then runs in.
pub proof fn lemma_cancelled_pick_keeps_folder(
    b: BuildModel,
    dir: String,
    geode_path: Seq<char>,
    e: Effect,
)
    ensures
        build_after(b, Message::ProjectDirPicked(None)) == b,
        build_after(
            build_after(b, Message::ProjectDirChanged(dir)),
            Message::ProjectDirPicked(None),
        ).project_directory == dir@,
        dir@.len() > 0 && build_effect(
            build_after(
                build_after(b, Message::ProjectDirChanged(dir)),
                Message::ProjectDirPicked(None),
            ),
            geode_path,
            Message::StartBuild,
            e,
        ) ==> (e matches Effect::Build(r) && r.project_dir@ == dir@),
{
}

/// A typed or picked folder replaces the one before; a build line becomes the latest line;
/// the end of a build clears the busy mark; without a folder a build asks for nothing and
/// changes nothing; with one it runs in that folder with the tool it is given, marks the
/// screen busy and clears the latest line.
pub proof fn lemma_build_screen(b: BuildModel, v: String, geode_path: Seq<char>, e: Effect)
    ensures
        build_after(b, Message::ProjectDirChanged(v)) == (BuildModel {
            project_directory: v@,
            ..b
        }),
        build_after(b, Message::ProjectDirPicked(Some(v))) == (BuildModel {
            project_directory: v@,
            ..b
        }),
        build_after(b, Message::BuildLine(v)) == (BuildModel { latest_line: v@, ..b }),
        build_after(b, Message::BuildFinished) == (BuildModel { building: false, ..b }),
        build_after(b, Message::BrowseProjectDir) == b,
        b.project_directory.len() == 0 ==> build_after(b, Message::StartBuild) == b,
        b.project_directory.len() == 0 && build_effect(b, geode_path, Message::StartBuild, e)
            ==> e is Idle,
        b.project_directory.len() > 0 ==> build_after(b, Message::StartBuild) == (BuildModel {
            project_directory: b.project_directory,
            building: true,
            latest_line: Seq::empty(),
        }),
        b.project_directory.len() > 0 && build_effect(b, geode_path, Message::StartBuild, e) ==> (
        e matches Effect::Build(r) && r.program@ == geode_path && r.project_dir@
            == b.project_directory),
{
}

impl Tab {
    /// The screen as the specification sees it.
    pub open spec fn model(&self) -> BuildModel {
        BuildModel {
            project_directory: self.project_directory@,
            building: self.building,
            latest_line: self.latest_line@,
        }
    }

    /// Handles one message; `geode_path` is the tool to run.
    pub fn update(&mut self, geode_path: &str, message: Message) -> (effect: Effect)
        ensures
            final(self).model() == build_after(old(self).model(), message),
            build_effect(old(self).model(), geode_path@, message, effect),
    {
        match message {
            Message::ProjectDirChanged(v) => {
                self.project_directory = v;
                Effect::Idle
            },
            Message::BrowseProjectDir => Effect::PickProjectDir,
            Message::ProjectDirPicked(picked) => {
                if let Some(p) = picked {
                    self.project_directory = p;
                }
                Effect::Idle
            },
            Message::StartBuild => {
                if self.project_directory.as_str().is_empty() {
                    return Effect::Idle;
                }
                self.building = true;
                self.latest_line = String::new();
                Effect::Build(
                    BuildRequest {
                        program: String::from_str(geode_path),
                        project_dir: self.project_directory.clone(),
                    },
                )
            },
            Message::BuildLine(l) => {
                self.latest_line = l;
                Effect::Idle
            },
            Message::BuildFinished => {
                self.building = false;
                Effect::Idle
            },
        }
    }

    /// Whether the build button takes a press: a folder is given and no build runs.
    pub fn can_build(&self) -> (r: bool)
        ensures
            r == (!self.building && self.project_directory@.len() > 0),
    {
        !self.building && !self.project_directory.as_str().is_empty()
    }

    /// The text of the build button.
    pub fn build_label(&self) -> (r: &'static str)
        ensures
            r@ == if self.building {
                "Building project, please wait"@
            } else {
                "Build"@
            },
    {
        if self.building {
            "Building project, please wait"
        } else {
            "Build"
        }
    }

    /// Whether the latest line of the build is shown in its own box.
    pub fn shows_status_line(&self) -> (r: bool)
        ensures
            r == (self.latest_line@.len() > 0),
    {
        !self.latest_line.as_str().is_empty()
    }
}

} // verus!
