//! The screen that creates a new mod project with `geode new`.
use vstd::prelude::*;

verus! {

/// The project template that `geode new` offers.
#[derive(Debug, Clone, Copy, PartialEq, Eq, Structural)]
pub enum Template {
    Default,
    Minimal,
}

/// The templates in the order in which `geode new` lists them.
pub open spec fn template_order() -> Seq<Template> {
    seq![Template::Default, Template::Minimal]
}

/// How far down the list of templates `t` stands.
pub open spec fn template_position(t: Template) -> int {
    match t {
        Template::Default => 0,
        Template::Minimal => 1,
    }
}

/// The name under which a template is shown.
pub open spec fn template_label(t: Template) -> Seq<char> {
    match t {
        Template::Default => "Default"@,
        Template::Minimal => "Minimal"@,
    }
}

impl Template {
    /// Every template, in the order in which `geode new` lists them.
    pub fn all() -> (r: [Template; 2])
        ensures
            r@ == template_order(),
    {
        let r = [Template::Default, Template::Minimal];
        assert(r@ =~= template_order());
        r
    }

    /// How many times the down arrow moves the cursor from the first template to this one.
    pub fn down_presses(self) -> (r: usize)
        ensures
            r == template_position(self),
    {
        match self {
            Template::Default => 0,
            Template::Minimal => 1,
        }
    }

    /// The name under which this template is shown.
    pub fn label(self) -> (r: &'static str)
        ensures
            r@ == template_label(self),
    {
        match self {
            Template::Default => "Default",
            Template::Minimal => "Minimal",
        }
    }
}

/// Pressing the down arrow as often as `down_presses` says, from the top of the list,
/// lands on the template itself.
pub proof fn lemma_down_presses_select_template(t: Template)
    ensures
        0 <= template_position(t) < template_order().len(),
        template_order()[template_position(t)] == t,
{
}

/// Everything `geode new` is told for one project.
#[derive(Debug, Clone)]
pub struct NewProjectRequest {
    pub geode_path: String,
    pub mod_name: String,
    pub version: String,
    pub developer: String,
    pub description: String,
    pub target_directory: String,
    pub strip_comments: bool,
    pub template: Template,
}

/// What the new-project screen is told.
#[derive(Debug, Clone)]
pub enum Message {
    ModNameChanged(String),
    VersionChanged(String),
    DeveloperChanged(String),
    DescriptionChanged(String),
    TargetDirChanged(String),
    BrowseTargetDir,
    TargetDirPicked(Option<String>),
    StripCommentsToggled(bool),
    TemplateSelected(Template),
    CreateProject,
    ProjectCreated(String),
}

/// The outside work that the new-project screen asks for.
#[derive(Debug, Clone)]
pub enum Effect {
    Idle,
    /// Ask the user for a folder; the answer comes back as `Message::TargetDirPicked`.
    PickTargetDir,
    /// Run `geode new` with these answers; its output comes back as `Message::ProjectCreated`.
    CreateProject(NewProjectRequest),
}

/// The form of the new-project screen.
pub struct Tab {
    pub mod_name: String,
    pub version: String,
    pub developer: String,
    pub description: String,
    pub target_directory: String,
    pub strip_comments: bool,
    pub template: Option<Template>,
    pub creating: bool,
}

impl Default for Tab {
    fn default() -> (r: Tab)
        ensures
            r.mod_name@ == Seq::<char>::empty(),
            r.version@ == Seq::<char>::empty(),
            r.developer@ == Seq::<char>::empty(),
            r.description@ == Seq::<char>::empty(),
            r.target_directory@ == Seq::<char>::empty(),
            !r.strip_comments,
            r.template is None,
            !r.creating,
    {
        Tab {
            mod_name: String::new(),
            version: String::new(),
            developer: String::new(),
            description: String::new(),
            target_directory: String::new(),
            strip_comments: false,
            template: None,
            creating: false,
        }
    }
}

/// The form as the specification sees it.
pub struct FormModel {
    pub mod_name: Seq<char>,
    pub version: Seq<char>,
    pub developer: Seq<char>,
    pub description: Seq<char>,
    pub target_directory: Seq<char>,
    pub strip_comments: bool,
    pub template: Option<Template>,
    pub creating: bool,
}

/// The form after `m`, when it was `f`.
///
/// An edit changes its one field. Creating needs a template: without one nothing
/// happens; with one the form is marked busy until `ProjectCreated` arrives.
pub open spec fn form_after(f: FormModel, m: Message) -> FormModel {
    match m {
        Message::ModNameChanged(v) => FormModel { mod_name: v@, ..f },
        Message::VersionChanged(v) => FormModel { version: v@, ..f },
        Message::DeveloperChanged(v) => FormModel { developer: v@, ..f },
        Message::DescriptionChanged(v) => FormModel { description: v@, ..f },
        Message::TargetDirChanged(v) => FormModel { target_directory: v@, ..f },
        Message::BrowseTargetDir => f,
        Message::TargetDirPicked(Some(p)) => FormModel { target_directory: p@, ..f },
        Message::TargetDirPicked(None) => f,
        Message::StripCommentsToggled(b) => FormModel { strip_comments: b, ..f },
        Message::TemplateSelected(t) => FormModel { template: Some(t), ..f },
        Message::CreateProject => if f.template is Some {
            FormModel { creating: true, ..f }
        } else {
            f
        },
        Message::ProjectCreated(_) => FormModel { creating: false, ..f },
    }
}

/// Whether the request holds the answers of the form `f`, for the tool at `geode_path`.
pub open spec fn requests(f: FormModel, r: NewProjectRequest, geode_path: Seq<char>) -> bool {
    &&& r.geode_path@ == geode_path
    &&& r.mod_name@ == f.mod_name
    &&& r.version@ == f.version
    &&& r.developer@ == f.developer
    &&& r.description@ == f.description
    &&& r.target_directory@ == f.target_directory
    &&& r.strip_comments == f.strip_comments
    &&& Some(r.template) == f.template
}

/// Whether `e` is the outside work that `m` asks of the form `f`, for the tool at
/// `geode_path`.
pub open spec fn form_effect(f: FormModel, geode_path: Seq<char>, m: Message, e: Effect) -> bool {
    match m {
        Message::BrowseTargetDir => e is PickTargetDir,
        Message::CreateProject => if f.template is Some {
            e matches Effect::CreateProject(r) && requests(f, r, geode_path)
        } else {
            e is Idle
        },
        _ => e is Idle,
    }
}

/// The strip-comments box holds what it was last set to: setting it to `b` gives `b`
/// whatever it held, leaves the rest of the form alone, a later setting overrides an
/// earlier one, and a project created afterwards is asked to strip comments exactly when
/// `b` holds.
pub proof fn lemma_strip_choice_follows_box(
    f: FormModel,
    b: bool,
    earlier: bool,
    geode_path: Seq<char>,
    e: Effect,
)
    ensures
        form_after(f, Message::StripCommentsToggled(b)).strip_comments == b,
        form_after(f, Message::StripCommentsToggled(b)).mod_name == f.mod_name,
        form_after(f, Message::StripCommentsToggled(b)).target_directory == f.target_directory,
        form_after(f, Message::StripCommentsToggled(b)).template == f.template,
        form_after(f, Message::StripCommentsToggled(b)).creating == f.creating,
        form_after(form_after(f, Message::StripCommentsToggled(earlier)), Message::StripCommentsToggled(b))
            == form_after(f, Message::StripCommentsToggled(b)),
        f.template is Some && form_effect(
            form_after(f, Message::StripCommentsToggled(b)),
            geode_path,
            Message::CreateProject,
            e,
        ) ==> (e matches Effect::CreateProject(r) && r.strip_comments == b),
{
}

/// Each edit of a text field sets that field to the new text and leaves the other fields
/// alone; a cancelled folder dialog changes nothing; a chosen template replaces the one
/// before.
pub proof fn lemma_form_edits(f: FormModel, v: String, t: Template)
    ensures
        form_after(f, Message::ModNameChanged(v)) == (FormModel { mod_name: v@, ..f }),
        form_after(f, Message::VersionChanged(v)) == (FormModel { version: v@, ..f }),
        form_after(f, Message::DeveloperChanged(v)) == (FormModel { developer: v@, ..f }),
        form_after(f, Message::DescriptionChanged(v)) == (FormModel { description: v@, ..f }),
        form_after(f, Message::TargetDirChanged(v)) == (FormModel { target_directory: v@, ..f }),
        form_after(f, Message::TargetDirPicked(Some(v))) == (FormModel {
            target_directory: v@,
            ..f
        }),
        form_after(f, Message::TargetDirPicked(None)) == f,
        form_after(f, Message::TemplateSelected(t)) == (FormModel { template: Some(t), ..f }),
        form_after(f, Message::BrowseTargetDir) == f,
{
}

/// Creating a project after choosing template `t` marks the form busy and hands `geode new`
/// exactly the form's answers, for the tool it is given, with `t`; without a template,
/// creating changes nothing and asks for nothing; the end of the run clears the busy mark
/// and nothing else.
pub proof fn lemma_create_uses_form(
    f: FormModel,
    t: Template,
    geode_path: Seq<char>,
    e: Effect,
    out: String,
)
    ensures
        form_after(form_after(f, Message::TemplateSelected(t)), Message::CreateProject).creating,
        form_effect(form_after(f, Message::TemplateSelected(t)), geode_path, Message::CreateProject, e)
            ==> (e matches Effect::CreateProject(r) && r.geode_path@ == geode_path && r.mod_name@
            == f.mod_name && r.version@ == f.version && r.developer@ == f.developer
            && r.description@ == f.description && r.target_directory@ == f.target_directory
            && r.strip_comments == f.strip_comments && r.template == t),
        f.template is None ==> form_after(f, Message::CreateProject) == f,
        f.template is None && form_effect(f, geode_path, Message::CreateProject, e) ==> e is Idle,
        form_after(f, Message::ProjectCreated(out)) == (FormModel { creating: false, ..f }),
{
}

impl Tab {
    /// The form as the specification sees it.
    pub open spec fn model(&self) -> FormModel {
        FormModel {
            mod_name: self.mod_name@,
            version: self.version@,
            developer: self.developer@,
            description: self.description@,
            target_directory: self.target_directory@,
            strip_comments: self.strip_comments,
            template: self.template,
            creating: self.creating,
        }
    }

    /// Handles one message; `geode_path` is the tool to run.
    pub fn update(&mut self, geode_path: &str, message: Message) -> (effect: Effect)
        ensures
            final(self).model() == form_after(old(self).model(), message),
            form_effect(old(self).model(), geode_path@, message, effect),
    {
        match message {
            Message::ModNameChanged(v) => {
                self.mod_name = v;
                Effect::Idle
            },
            Message::VersionChanged(v) => {
                self.version = v;
                Effect::Idle
            },
            Message::DeveloperChanged(v) => {
                self.developer = v;
                Effect::Idle
            },
            Message::DescriptionChanged(v) => {
                self.description = v;
                Effect::Idle
            },
            Message::TargetDirChanged(v) => {
                self.target_directory = v;
                Effect::Idle
            },
            Message::BrowseTargetDir => Effect::PickTargetDir,
            Message::TargetDirPicked(picked) => {
                if let Some(p) = picked {
                    self.target_directory = p;
                }
                Effect::Idle
            },
            Message::StripCommentsToggled(b) => {
                self.strip_comments = b;
                Effect::Idle
            },
            Message::TemplateSelected(t) => {
                self.template = Some(t);
                Effect::Idle
            },
            Message::CreateProject => {
                match self.template {
                    None => Effect::Idle,
                    Some(template) => {
                        self.creating = true;
                        Effect::CreateProject(
                            NewProjectRequest {
                                geode_path: String::from_str(geode_path),
                                mod_name: self.mod_name.clone(),
                                version: self.version.clone(),
                                developer: self.developer.clone(),
                                description: self.description.clone(),
                                target_directory: self.target_directory.clone(),
                                strip_comments: self.strip_comments,
                                template,
                            },
                        )
                    },
                }
            },
            Message::ProjectCreated(_) => {
                self.creating = false;
                Effect::Idle
            },
        }
    }

    /// Whether the create button takes a press: a template is chosen and no project is
    /// being made.
    pub fn can_create(&self) -> (r: bool)
        ensures
            r == (!self.creating && self.template is Some),
    {
        !self.creating && self.template.is_some()
    }

    /// The text of the create button.
    pub fn create_label(&self) -> (r: &'static str)
        ensures
            r@ == if self.creating {
                "Creating project, please wait"@
            } else {
                "Create Project"@
            },
    {
        if self.creating {
            "Creating project, please wait"
        } else {
            "Create Project"
        }
    }
}

} // verus!
