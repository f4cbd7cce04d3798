//! The first-run screen, which finds the Geode command-line tool, and the file that
//! remembers where it is.
use vstd::prelude::*;
use crate::text::{chars_of, lemma_trim_fixed, lemma_trim_idempotent, string_of, trim, trim_range};

verus! {

/// The name of the file, next to the program, that holds the tool's path.
pub fn settings_file_name() -> (r: &'static str)
    ensures
        r@ == "geode_path.txt"@,
{
    "geode_path.txt"
}

/// The path offered when the tool is installed system-wide.
pub open spec fn system_default_path() -> Seq<char> {
    "/usr/bin/geode"@
}

/// The path that the settings file `contents` holds: the contents trimmed, if anything is
/// left.
pub open spec fn loaded_path(contents: Seq<char>) -> Option<Seq<char>> {
    if trim(contents).len() == 0 {
        None
    } else {
        Some(trim(contents))
    }
}

/// Reads the tool's path from the contents of the settings file.
pub fn parse_saved_path(contents: &str) -> (r: Option<String>)
    ensures
        match r {
            Some(p) => loaded_path(contents@) == Some(p@),
            None => loaded_path(contents@) is None,
        },
{
    let v = chars_of(contents);
    let (a, b) = trim_range(&v, 0, v.len());
    assert(v@.subrange(0, v@.len() as int) =~= v@);
    if a == b {
        None
    } else {
        Some(string_of(&v, a, b))
    }
}

/// What the settings file is given to hold the path `path`: the path trimmed.
pub fn saved_path_contents(path: &str) -> (r: String)
    ensures
        r@ == trim(path@),
{
    let v = chars_of(path);
    let (a, b) = trim_range(&v, 0, v.len());
    assert(v@.subrange(0, v@.len() as int) =~= v@);
    string_of(&v, a, b)
}

/// Reading back what was saved for a path gives the path trimmed, unless nothing but white
/// space was saved.
pub proof fn lemma_save_then_load(path: Seq<char>)
    ensures
        loaded_path(trim(path)) == if trim(path).len() == 0 {
            None
        } else {
            Some(trim(path))
        },
{
    lemma_trim_idempotent(path);
}

/// What the setup screen is told.
#[derive(Debug, Clone)]
pub enum Message {
    Browse,
    UseSystemDefault,
    PathPicked(Option<String>),
    Continue,
}

/// The outside work that the setup screen asks for.
#[derive(Debug, Clone)]
pub enum Effect {
    Idle,
    /// Ask the user for the tool's file; the answer comes back as `Message::PathPicked`.
    PickGeodePath,
    /// Write this text to the settings file; a failure to write is of no consequence.
    SavePath(String),
}

/// The setup screen: the tool's path, once one is chosen.
pub struct Setup {
    pub geode_path: Option<String>,
}

impl Default for Setup {
    fn default() -> (r: Setup)
        ensures
            r.geode_path is None,
    {
        Setup { geode_path: None }
    }
}

/// The view of an optional text.
pub open spec fn opt_view(o: Option<String>) -> Option<Seq<char>> {
    match o {
        Some(s) => Some(s@),
        None => None,
    }
}

/// The chosen path after `m`, when it was `p`.
///
/// A chosen path is kept; once a path is chosen, there always is one.
pub open spec fn path_after(p: Option<Seq<char>>, m: Message) -> Option<Seq<char>> {
    match m {
        Message::UseSystemDefault => Some(system_default_path()),
        Message::PathPicked(Some(x)) => Some(x@),
        _ => p,
    }
}

/// Whether `e` is the outside work that `m` asks of the setup screen: a chosen path is
/// saved, trimmed.
pub open spec fn setup_effect(m: Message, e: Effect) -> bool {
    match m {
        Message::Browse => e is PickGeodePath,
        Message::UseSystemDefault => e matches Effect::SavePath(c) && c@ == trim(system_default_path()),
        Message::PathPicked(Some(x)) => e matches Effect::SavePath(c) && c@ == trim(x@),
        _ => e is Idle,
    }
}

/// Choosing the system default makes `/usr/bin/geode` the chosen path, whatever was chosen
/// before, and saves that same path.
pub proof fn lemma_system_default_chosen(p: Option<Seq<char>>, e: Effect)
    ensures
        path_after(p, Message::UseSystemDefault) == Some("/usr/bin/geode"@),
        setup_effect(Message::UseSystemDefault, e) ==> (e matches Effect::SavePath(c) && Some(c@)
            == path_after(p, Message::UseSystemDefault)),
{
    reveal_strlit("/usr/bin/geode");
    let d = "/usr/bin/geode"@;
    assert(d[0] == '/');
    assert(d.last() == 'e');
    lemma_trim_fixed(d);
}

/// A picked file becomes the chosen path, whatever was chosen before, and is saved trimmed,
/// so that reading the settings back gives the trimmed path; a cancelled dialog, browsing
/// and continuing keep the chosen path and save nothing.
pub proof fn lemma_picked_path_chosen(p: Option<Seq<char>>, x: String, e: Effect)
    ensures
        path_after(p, Message::PathPicked(Some(x))) == Some(x@),
        setup_effect(Message::PathPicked(Some(x)), e) ==> (e matches Effect::SavePath(c) && c@
            == trim(x@) && loaded_path(c@) == if trim(x@).len() == 0 {
            None
        } else {
            Some(trim(x@))
        }),
        path_after(p, Message::PathPicked(None)) == p,
        path_after(p, Message::Browse) == p,
        path_after(p, Message::Continue) == p,
        setup_effect(Message::PathPicked(None), e) ==> e is Idle,
        setup_effect(Message::Continue, e) ==> e is Idle,
{
    lemma_trim_idempotent(x@);
}

impl Setup {
    /// The chosen path, as the specification sees it.
    pub open spec fn model(&self) -> Option<Seq<char>> {
        opt_view(self.geode_path)
    }

    /// Handles one message.
    pub fn update(&mut self, message: Message) -> (effect: Effect)
        ensures
            final(self).model() == path_after(old(self).model(), message),
            setup_effect(message, effect),
            old(self).geode_path is Some ==> final(self).geode_path is Some,
    {
        match message {
            Message::Browse => Effect::PickGeodePath,
            Message::UseSystemDefault => {
                let p = String::from_str("/usr/bin/geode");
                let contents = saved_path_contents(p.as_str());
                self.geode_path = Some(p);
                Effect::SavePath(contents)
            },
            Message::PathPicked(picked) => {
                match picked {
                    Some(p) => {
                        let contents = saved_path_contents(p.as_str());
                        self.geode_path = Some(p);
                        Effect::SavePath(contents)
                    },
                    None => Effect::Idle,
                }
            },
            Message::Continue => Effect::Idle,
        }
    }

    /// Whether the continue button is shown: a path is chosen.
    pub fn can_continue(&self) -> (r: bool)
        ensures
            r == self.geode_path is Some,
    {
        self.geode_path.is_some()
    }

    /// The text that shows the chosen path, or that none is chosen.
    pub fn path_label(&self) -> (r: String)
        ensures
            r@ == match self.geode_path {
                Some(p) => p@,
                None => "No path selected"@,
            },
    {
        match &self.geode_path {
            Some(p) => p.clone(),
            None => String::from_str("No path selected"),
        }
    }
}

} // verus!
