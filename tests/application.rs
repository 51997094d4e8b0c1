use vibrant::application::{
    about_dialog, accelerators, setup_gactions, AppAction, Command, VibrantApplication,
};
use vibrant::config::VERSION;

#[test]
fn new_application_has_no_window() {
    let app = VibrantApplication::new("io.github.fkinoshita.Vibrant", 4);
    assert_eq!(app.application_id(), "io.github.fkinoshita.Vibrant");
    assert_eq!(app.flags(), 4);
    assert!(!app.window_open());
    assert!(app.is_running());
}

#[test]
fn two_activations_present_one_window() {
    let mut app = VibrantApplication::new("io.github.fkinoshita.Vibrant", 0);
    assert_eq!(app.activate(), Command::CreateAndPresentWindow);
    assert!(app.window_open());
    assert_eq!(app.activate(), Command::PresentWindow);
    assert_eq!(app.activate(), Command::PresentWindow);
    assert!(app.window_open());
}

#[test]
fn activation_after_close_creates_a_new_window() {
    let mut app = VibrantApplication::new("io.github.fkinoshita.Vibrant", 0);
    assert_eq!(app.activate(), Command::CreateAndPresentWindow);
    app.window_closed();
    assert!(!app.window_open());
    assert_eq!(app.activate(), Command::CreateAndPresentWindow);
}

#[test]
fn quit_action_terminates() {
    let mut app = VibrantApplication::new("io.github.fkinoshita.Vibrant", 0);
    app.activate();
    assert_eq!(app.activate_action(AppAction::Quit), Command::Terminate);
    assert!(!app.is_running());
    assert!(!app.window_open());
    assert_eq!(app.activate(), Command::Nothing);
    assert_eq!(app.activate_action(AppAction::About), Command::Nothing);
}

#[test]
fn quit_method_terminates() {
    let mut app = VibrantApplication::new("io.github.fkinoshita.Vibrant", 0);
    assert_eq!(app.quit(), Command::Terminate);
    assert!(!app.is_running());
}

#[test]
fn about_action_shows_dialog_with_build_version() {
    let mut app = VibrantApplication::new("io.github.fkinoshita.Vibrant", 0);
    app.activate();
    assert_eq!(app.activate_action(AppAction::About), Command::ShowAbout);
    let dialog = app.show_about();
    assert_eq!(dialog.version, VERSION);
    assert_eq!(dialog.version, "0.1.0");
}

#[test]
fn about_dialog_metadata() {
    let dialog = about_dialog();
    assert_eq!(dialog.application_name, "Vibrant");
    assert_eq!(dialog.application_icon, "io.github.fkinoshita.Vibrant");
    assert_eq!(dialog.developer_name, "Felipe Kinoshita");
    assert_eq!(dialog.comments, "Generate CSS gradients");
    assert_eq!(dialog.version, VERSION);
    assert_eq!(dialog.developers, vec!["Felipe Kinoshita"]);
    assert_eq!(dialog.copyright, "\u{a9} 2023 Felipe Kinoshita");
}

#[test]
fn registered_actions_and_names() {
    assert_eq!(setup_gactions(), vec![AppAction::Quit, AppAction::About]);
    assert_eq!(AppAction::Quit.name(), "quit");
    assert_eq!(AppAction::About.name(), "about");
}

#[test]
fn accelerator_bindings() {
    let accels = accelerators();
    assert_eq!(accels.len(), 2);
    assert_eq!(accels[0].action, "app.quit");
    assert_eq!(accels[0].keys, vec!["<primary>q"]);
    assert_eq!(accels[1].action, "window.close");
    assert_eq!(accels[1].keys, vec!["<primary>w"]);
}
