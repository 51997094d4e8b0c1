//! The application object: which actions it registers, which accelerators it
//! binds, what an activation or an action asks of the toolkit, and what the
//! about dialog shows.
use vstd::prelude::*;

use crate::config::VERSION;

verus! {

/// An action registered on the application, reachable as `app.<name>`.
#[derive(Clone, Copy, Debug, PartialEq, Eq, Structural)]
pub enum AppAction {
    Quit,
    About,
}

/// The name under which an action is registered.
pub open spec fn action_name(a: AppAction) -> Seq<char> {
    match a {
        AppAction::Quit => "quit"@,
        AppAction::About => "about"@,
    }
}

impl AppAction {
    /// The name under which this action is registered.
    pub fn name(&self) -> (r: &'static str)
        ensures
            r@ == action_name(*self),
    {
        match self {
            AppAction::Quit => "quit",
            AppAction::About => "about",
        }
    }
}

/// The actions the application registers when it is constructed, in order.
pub open spec fn registered_actions() -> Seq<AppAction> {
    seq![AppAction::Quit, AppAction::About]
}

/// The actions to register on the application when it is constructed.
pub fn setup_gactions() -> (r: Vec<AppAction>)
    ensures
        r@ == registered_actions(),
{
    let r = vec![AppAction::Quit, AppAction::About];
    assert(r@ =~= registered_actions());
    r
}

/// A keyboard accelerator binding: the detailed action name and its keys.
pub struct Accelerator {
    pub action: &'static str,
    pub keys: Vec<&'static str>,
}

/// The accelerator table, as pairs of a detailed action name and its keys.
pub open spec fn accelerator_table() -> Seq<(Seq<char>, Seq<Seq<char>>)> {
    seq![("app.quit"@, seq!["<primary>q"@]), ("window.close"@, seq!["<primary>w"@])]
}

/// What an accelerator binding stands for.
pub open spec fn accelerator_view(a: Accelerator) -> (Seq<char>, Seq<Seq<char>>) {
    (a.action@, a.keys@.map_values(|k: &'static str| k@))
}

/// The keyboard accelerators to bind when the application is constructed:
/// primary+Q quits the application, primary+W closes the window.
pub fn accelerators() -> (r: Vec<Accelerator>)
    ensures
        r@.map_values(|a: Accelerator| accelerator_view(a)) == accelerator_table(),
{
    let quit = Accelerator { action: "app.quit", keys: vec!["<primary>q"] };
    let close = Accelerator { action: "window.close", keys: vec!["<primary>w"] };
    assert(accelerator_view(quit) == accelerator_table()[0]) by {
        assert(quit.keys@.map_values(|k: &'static str| k@) =~= seq!["<primary>q"@]);
    }
    assert(accelerator_view(close) == accelerator_table()[1]) by {
        assert(close.keys@.map_values(|k: &'static str| k@) =~= seq!["<primary>w"@]);
    }
    let r = vec![quit, close];
    assert(r@.map_values(|a: Accelerator| accelerator_view(a)) =~= accelerator_table());
    r
}

/// What the toolkit is asked to do in response to an event.
#[derive(Clone, Copy, Debug, PartialEq, Eq, Structural)]
pub enum Command {
    /// Create the main window, then present it.
    CreateAndPresentWindow,
    /// Present the window that is already open.
    PresentWindow,
    /// Present the about dialog, transient for the open window.
    ShowAbout,
    /// Terminate the process.
    Terminate,
    /// Nothing to do: the application has quit.
    Nothing,
}

/// The state of the application, as a value.
pub struct AppView {
    pub application_id: Seq<char>,
    pub flags: u32,
    pub window_open: bool,
    pub running: bool,
}

impl AppView {
    /// A window is open only while the application runs.
    pub open spec fn wf(self) -> bool {
        self.running || !self.window_open
    }
}

/// The state right after construction.
pub open spec fn initial_state(application_id: Seq<char>, flags: u32) -> AppView {
    AppView { application_id, flags, window_open: false, running: true }
}

/// An activation: the open window is presented again; without one, a window
/// is created and presented. After quitting, nothing happens.
pub open spec fn activate_step(s: AppView) -> (AppView, Command) {
    if !s.running {
        (s, Command::Nothing)
    } else if s.window_open {
        (s, Command::PresentWindow)
    } else {
        (AppView { window_open: true, ..s }, Command::CreateAndPresentWindow)
    }
}

/// The user closed the main window.
pub open spec fn window_closed_step(s: AppView) -> AppView {
    AppView { window_open: false, ..s }
}

/// The `quit` action: the process terminates, and its window with it.
pub open spec fn quit_step(s: AppView) -> (AppView, Command) {
    (AppView { window_open: false, running: false, ..s }, Command::Terminate)
}

/// The `about` action: the dialog is shown over the open window.
pub open spec fn about_step(s: AppView) -> (AppView, Command) {
    if s.running {
        (s, Command::ShowAbout)
    } else {
        (s, Command::Nothing)
    }
}

/// The outcome of invoking an action.
pub open spec fn action_step(s: AppView, a: AppAction) -> (AppView, Command) {
    match a {
        AppAction::Quit => quit_step(s),
        AppAction::About => about_step(s),
    }
}

/// The number of windows that `n` activations in a row create, from `s`.
pub open spec fn windows_created(s: AppView, n: nat) -> nat
    decreases n,
{
    if n == 0 {
        0
    } else {
        let (t, c) = activate_step(s);
        (if c == Command::CreateAndPresentWindow { 1nat } else { 0nat }) + windows_created(
            t,
            (n - 1) as nat,
        )
    }
}

/// An activation after another presents the window that the first one
/// showed: two activations in a row never create two windows.
pub proof fn lemma_second_activation_presents(s: AppView)
    ensures
        ({
            let (s1, c1) = activate_step(s);
            let (s2, c2) = activate_step(s1);
            &&& !(c1 == Command::CreateAndPresentWindow && c2 == Command::CreateAndPresentWindow)
            &&& s.running ==> s1.window_open && c2 == Command::PresentWindow
            &&& s2 == s1
        }),
{
}

/// Any number of activations in a row creates at most one window, and none
/// when a window is already open.
pub proof fn lemma_activations_create_at_most_one_window(s: AppView, n: nat)
    ensures
        windows_created(s, n) <= 1,
        s.window_open ==> windows_created(s, n) == 0,
    decreases n,
{
    if n > 0 {
        let (t, c) = activate_step(s);
        lemma_activations_create_at_most_one_window(t, (n - 1) as nat);
    }
}

/// The contents of the about dialog.
pub struct AboutDialog {
    pub application_name: &'static str,
    pub application_icon: &'static str,
    pub developer_name: &'static str,
    pub comments: &'static str,
    pub version: &'static str,
    pub developers: Vec<&'static str>,
    pub copyright: &'static str,
}

/// The contents of the about dialog, as a value.
pub struct AboutView {
    pub application_name: Seq<char>,
    pub application_icon: Seq<char>,
    pub developer_name: Seq<char>,
    pub comments: Seq<char>,
    pub version: Seq<char>,
    pub developers: Seq<Seq<char>>,
    pub copyright: Seq<char>,
}

impl View for AboutDialog {
    type V = AboutView;

    open spec fn view(&self) -> AboutView {
        AboutView {
            application_name: self.application_name@,
            application_icon: self.application_icon@,
            developer_name: self.developer_name@,
            comments: self.comments@,
            version: self.version@,
            developers: self.developers@.map_values(|d: &'static str| d@),
            copyright: self.copyright@,
        }
    }
}

/// What the about dialog shows: static metadata and this build's version.
pub open spec fn about_metadata() -> AboutView {
    AboutView {
        application_name: "Vibrant"@,
        application_icon: "io.github.fkinoshita.Vibrant"@,
        developer_name: "Felipe Kinoshita"@,
        comments: "Generate CSS gradients"@,
        version: VERSION@,
        developers: seq!["Felipe Kinoshita"@],
        copyright: "\u{a9} 2023 Felipe Kinoshita"@,
    }
}

/// Builds the contents of the about dialog.
pub fn about_dialog() -> (r: AboutDialog)
    ensures
        r@ == about_metadata(),
{
    let r = AboutDialog {
        application_name: "Vibrant",
        application_icon: "io.github.fkinoshita.Vibrant",
        developer_name: "Felipe Kinoshita",
        comments: "Generate CSS gradients",
        version: VERSION,
        developers: vec!["Felipe Kinoshita"],
        copyright: "\u{a9} 2023 Felipe Kinoshita",
    };
    assert(r@.developers =~= seq!["Felipe Kinoshita"@]);
    r
}

/// The application object.
pub struct VibrantApplication {
    application_id: String,
    flags: u32,
    window_open: bool,
    running: bool,
}

impl View for VibrantApplication {
    type V = AppView;

    closed spec fn view(&self) -> AppView {
        AppView {
            application_id: self.application_id@,
            flags: self.flags,
            window_open: self.window_open,
            running: self.running,
        }
    }
}

impl VibrantApplication {
    /// An application with the given identifier and launch flags (the bits
    /// of the toolkit's application flags), running, with no window yet.
    pub fn new(application_id: &str, flags: u32) -> (r: Self)
        ensures
            r@ == initial_state(application_id@, flags),
            r@.wf(),
    {
        VibrantApplication {
            application_id: application_id.to_string(),
            flags,
            window_open: false,
            running: true,
        }
    }

    /// Handles an activation: on launch, and on each attempt to start a
    /// second instance.
    pub fn activate(&mut self) -> (r: Command)
        ensures
            (final(self)@, r) == activate_step(old(self)@),
            old(self)@.wf() ==> final(self)@.wf(),
    {
        if !self.running {
            Command::Nothing
        } else if self.window_open {
            Command::PresentWindow
        } else {
            self.window_open = true;
            Command::CreateAndPresentWindow
        }
    }

    /// Records that the user closed the main window.
    pub fn window_closed(&mut self)
        ensures
            final(self)@ == window_closed_step(old(self)@),
            old(self)@.wf() ==> final(self)@.wf(),
    {
        self.window_open = false;
    }

    /// Handles the `quit` action.
    pub fn quit(&mut self) -> (r: Command)
        ensures
            (final(self)@, r) == quit_step(old(self)@),
            r == Command::Terminate,
            !final(self)@.running,
            final(self)@.wf(),
    {
        self.window_open = false;
        self.running = false;
        Command::Terminate
    }

    /// Handles an invocation of one of the registered actions.
    pub fn activate_action(&mut self, action: AppAction) -> (r: Command)
        ensures
            (final(self)@, r) == action_step(old(self)@, action),
            old(self)@.wf() ==> final(self)@.wf(),
    {
        match action {
            AppAction::Quit => self.quit(),
            AppAction::About => if self.running {
                Command::ShowAbout
            } else {
                Command::Nothing
            },
        }
    }

    /// The about dialog to present over the open main window.
    pub fn show_about(&self) -> (r: AboutDialog)
        requires
            self@.window_open,
        ensures
            r@ == about_metadata(),
            r@.version == VERSION@,
    {
        about_dialog()
    }

    /// The application identifier.
    pub fn application_id(&self) -> (r: &str)
        ensures
            r@ == self@.application_id,
    {
        self.application_id.as_str()
    }

    /// The launch flags.
    pub fn flags(&self) -> (r: u32)
        ensures
            r == self@.flags,
    {
        self.flags
    }

    /// Whether the main window is open.
    pub fn window_open(&self) -> (r: bool)
        ensures
            r == self@.window_open,
    {
        self.window_open
    }

    /// Whether the application still runs.
    pub fn is_running(&self) -> (r: bool)
        ensures
            r == self@.running,
    {
        self.running
    }
}

} // verus!
