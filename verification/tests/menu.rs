use pathing::gui::{GuiPlugin, GuiPluginGroup};
use pathing::menu::{
    button_system, toggle_system, toggles, ButtonAction, Interaction, Visibility,
};

#[test]
fn no_toggle_request_leaves_the_menu() {
    assert_eq!(toggle_system(0, Visibility::Hidden), Visibility::Hidden);
    assert_eq!(toggle_system(0, Visibility::Inherited), Visibility::Inherited);
    assert_eq!(toggle_system(0, Visibility::Visible), Visibility::Visible);
}

#[test]
fn one_toggle_request_flips_the_menu() {
    assert_eq!(toggle_system(1, Visibility::Hidden), Visibility::Inherited);
    assert_eq!(toggle_system(1, Visibility::Inherited), Visibility::Hidden);
    assert_eq!(toggle_system(1, Visibility::Visible), Visibility::Hidden);
}

#[test]
fn toggle_requests_count_by_their_parity() {
    assert_eq!(toggle_system(2, Visibility::Hidden), Visibility::Hidden);
    assert_eq!(toggle_system(3, Visibility::Hidden), Visibility::Inherited);
    assert_eq!(toggle_system(4, Visibility::Inherited), Visibility::Inherited);
    assert_eq!(toggle_system(usize::MAX, Visibility::Inherited), Visibility::Hidden);
}

#[test]
fn toggles_one_after_the_other_add_up() {
    let once = toggle_system(3, Visibility::Hidden);
    assert_eq!(toggle_system(4, once), toggle_system(7, Visibility::Hidden));
    let again = toggle_system(5, Visibility::Inherited);
    assert_eq!(toggle_system(1, again), toggle_system(6, Visibility::Inherited));
}

#[test]
fn only_an_odd_number_of_requests_toggles() {
    assert!(!toggles(0));
    assert!(toggles(1));
    assert!(!toggles(2));
    assert!(toggles(usize::MAX));
}

#[test]
fn quit_button_is_labelled() {
    assert_eq!(ButtonAction::Quit.label(), "Quit Game");
}

#[test]
fn only_a_click_triggers_a_button() {
    assert_eq!(button_system(&vec![]), None);
    assert_eq!(
        button_system(&vec![
            (Interaction::Hovered, ButtonAction::Quit),
            (Interaction::Idle, ButtonAction::Quit)
        ]),
        None
    );
    assert_eq!(
        button_system(&vec![
            (Interaction::Hovered, ButtonAction::Quit),
            (Interaction::Clicked, ButtonAction::Quit),
            (Interaction::Idle, ButtonAction::Quit)
        ]),
        Some(ButtonAction::Quit)
    );
}

#[test]
fn toolkit_parts_come_in_their_order() {
    assert_eq!(
        GuiPluginGroup.build(),
        vec![
            GuiPlugin::Focus,
            GuiPlugin::Text,
            GuiPlugin::Button,
            GuiPlugin::TextBox,
            GuiPlugin::Toast
        ]
    );
}
