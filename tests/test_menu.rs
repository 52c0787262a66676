use serenity_utils::menu::{
    close_menu, next_page, prev_page, Action, Control, ControlFunction, Event, Menu, MenuOptions,
    MenuState, MessageHandle, CLOSE_EMOJI, DEFAULT_TIMEOUT, NEXT_EMOJI, PREV_EMOJI,
};
use serenity_utils::reaction::ReactionType;
use serenity_utils::Error;

const HANDLE: MessageHandle = MessageHandle { channel_id: 7, message_id: 42 };

fn options(page: usize, timeout: u64) -> MenuOptions {
    let mut options = MenuOptions::default();
    options.page = page;
    options.timeout = timeout;
    options
}

fn marker(c: char) -> ReactionType {
    ReactionType::Unicode(c.to_string())
}

fn transport_error() -> Error {
    Error::SerenityError(serenity::Error::Other("no permission"))
}

fn expect_other(action: Action, message: &str) {
    match action {
        Action::Finish(Err(Error::Other(s))) => assert_eq!(s, message),
        other => panic!("unexpected action: {:?}", other),
    }
}

/// Runs a fresh menu up to its first wait for a reaction.
fn shown(page_count: usize, options: MenuOptions) -> Menu {
    let markers: Vec<ReactionType> = options.controls.iter().map(|c| c.emoji.clone()).collect();
    let mut menu = Menu::new(page_count, options);
    assert!(matches!(menu.start(), Action::Send { page: 0 }));
    match menu.step(Event::Sent(HANDLE)) {
        Action::Seed { message, emojis, non_blocking } => {
            assert_eq!(message, HANDLE);
            assert!(non_blocking);
            assert_eq!(emojis, markers);
        }
        other => panic!("unexpected action: {:?}", other),
    }
    assert!(matches!(menu.step(Event::Seeded), Action::Await { message: HANDLE, .. }));
    menu
}

#[test]
fn default_options() {
    let options = MenuOptions::default();
    assert_eq!(
        options.controls.iter().map(|c| c.emoji.clone()).collect::<Vec<_>>(),
        vec![marker(PREV_EMOJI), marker(CLOSE_EMOJI), marker(NEXT_EMOJI)]
    );
    assert_eq!(options.page, 0);
    assert_eq!(options.timeout, DEFAULT_TIMEOUT);
    assert_eq!(options.timeout, 30000);
    assert_eq!(options.message, None);
    assert!(options.non_blocking);
    let functions: Vec<ControlFunction> = options.controls.iter().map(|c| c.function).collect();
    assert_eq!(
        functions,
        vec![ControlFunction::PrevPage, ControlFunction::CloseMenu, ControlFunction::NextPage]
    );
    assert_eq!(options.controls[0].emoji, marker('\u{25c0}'));
    assert_eq!(options.controls[1].emoji, marker('\u{274c}'));
    assert_eq!(options.controls[2].emoji, marker('\u{25b6}'));
}

#[test]
fn next_twice_then_close() {
    let mut menu = shown(3, options(0, 5000));
    assert_eq!(menu.state, MenuState::Awaiting);

    assert!(matches!(menu.step(Event::Added(marker(NEXT_EMOJI))), Action::DeleteReaction));
    assert_eq!(menu.options.page, 1);
    assert!(matches!(menu.step(Event::Handled), Action::Edit { message: HANDLE, page: 1 }));
    assert!(matches!(
        menu.step(Event::Edited),
        Action::Await { message: HANDLE, timeout: 5000 }
    ));

    assert!(matches!(menu.step(Event::Added(marker(NEXT_EMOJI))), Action::DeleteReaction));
    assert!(matches!(menu.step(Event::Handled), Action::Edit { message: HANDLE, page: 2 }));
    assert!(matches!(menu.step(Event::Edited), Action::Await { .. }));

    assert!(matches!(
        menu.step(Event::Added(marker(CLOSE_EMOJI))),
        Action::DeleteMessage { message: HANDLE }
    ));
    assert_eq!(menu.options.message, None);
    assert!(matches!(menu.step(Event::Handled), Action::Finish(Ok(None))));
    assert_eq!(menu.state, MenuState::Finished);
}

#[test]
fn single_page_times_out() {
    let mut menu = shown(1, options(0, 5000));
    assert!(matches!(menu.step(Event::TimedOut), Action::Clean { message: HANDLE }));
    assert!(matches!(menu.step(Event::Cleaned), Action::Finish(Ok(Some(HANDLE)))));
    assert_eq!(menu.state, MenuState::Finished);
}

#[test]
fn empty_pages_fail_at_once() {
    let mut menu = Menu::new(0, MenuOptions::default());
    expect_other(menu.start(), "`pages` is empty.");
    assert_eq!(menu.state, MenuState::Finished);
}

#[test]
fn page_out_of_bounds_fails_at_once() {
    let mut menu = Menu::new(2, options(2, 5000));
    expect_other(menu.start(), "`page` is out of bounds.");
    assert_eq!(menu.state, MenuState::Finished);
}

#[test]
fn valid_start_page_is_shown() {
    let mut menu = Menu::new(4, options(3, 5000));
    assert!(matches!(menu.start(), Action::Send { page: 3 }));
    assert_eq!(menu.state, MenuState::Sending);
}

#[test]
fn given_message_is_edited() {
    let mut options = options(1, 5000);
    options.message = Some(HANDLE);
    let mut menu = Menu::new(2, options);
    assert!(matches!(menu.start(), Action::Edit { message: HANDLE, page: 1 }));
    assert!(matches!(menu.step(Event::Edited), Action::Await { message: HANDLE, .. }));
}

#[test]
fn prev_wraps_to_last_page() {
    let mut menu = shown(3, options(0, 5000));
    assert!(matches!(menu.step(Event::Added(marker(PREV_EMOJI))), Action::DeleteReaction));
    assert_eq!(menu.options.page, 2);
    assert!(matches!(menu.step(Event::Handled), Action::Edit { page: 2, .. }));
}

#[test]
fn page_handlers_wrap_and_step() {
    let mut menu = Menu::new(3, options(2, 5000));
    next_page(&mut menu);
    assert_eq!(menu.options.page, 0);
    next_page(&mut menu);
    assert_eq!(menu.options.page, 1);
    prev_page(&mut menu);
    assert_eq!(menu.options.page, 0);
    prev_page(&mut menu);
    assert_eq!(menu.options.page, 2);
    prev_page(&mut menu);
    assert_eq!(menu.options.page, 1);
}

#[test]
fn close_twice_is_safe() {
    let mut options = options(0, 5000);
    options.message = Some(HANDLE);
    let mut menu = Menu::new(1, options);
    assert_eq!(close_menu(&mut menu), Some(HANDLE));
    assert_eq!(menu.options.message, None);
    assert_eq!(close_menu(&mut menu), None);
    assert_eq!(menu.options.message, None);
}

#[test]
fn unknown_reaction_ends_after_cleanup() {
    let mut menu = shown(2, options(0, 5000));
    assert!(matches!(
        menu.step(Event::Added(marker('x'))),
        Action::Clean { message: HANDLE }
    ));
    assert!(matches!(menu.step(Event::Cleaned), Action::Finish(Ok(Some(HANDLE)))));
}

#[test]
fn failed_cleanup_is_reported() {
    let mut menu = shown(2, options(0, 5000));
    assert!(matches!(menu.step(Event::Added(marker('x'))), Action::Clean { .. }));
    assert!(matches!(
        menu.step(Event::Failed(transport_error())),
        Action::Finish(Err(Error::SerenityError(_)))
    ));
}

#[test]
fn removals_are_ignored() {
    let mut menu = shown(2, options(0, 5000));
    assert!(matches!(menu.step(Event::Removed), Action::Wait));
    assert_eq!(menu.state, MenuState::Awaiting);
    assert!(matches!(menu.step(Event::Added(marker(NEXT_EMOJI))), Action::DeleteReaction));
    assert_eq!(menu.options.page, 1);
}

#[test]
fn send_failure_is_returned() {
    let mut menu = Menu::new(2, MenuOptions::default());
    assert!(matches!(menu.start(), Action::Send { .. }));
    assert!(matches!(
        menu.step(Event::Failed(transport_error())),
        Action::Finish(Err(Error::SerenityError(_)))
    ));
}

#[test]
fn edit_failure_is_returned_after_cleanup() {
    let mut menu = shown(2, options(0, 5000));
    assert!(matches!(menu.step(Event::Added(marker(NEXT_EMOJI))), Action::DeleteReaction));
    assert!(matches!(menu.step(Event::Handled), Action::Edit { .. }));
    assert!(matches!(
        menu.step(Event::Failed(transport_error())),
        Action::Clean { message: HANDLE }
    ));
    assert!(matches!(
        menu.step(Event::Cleaned),
        Action::Finish(Err(Error::SerenityError(_)))
    ));
}

#[test]
fn custom_control_is_handed_out() {
    let mut options = MenuOptions::default();
    options.controls.push(Control::new(marker('\u{23ea}'), ControlFunction::Custom(9)));
    let mut menu = shown(3, options);
    assert!(matches!(
        menu.step(Event::Added(marker('\u{23ea}'))),
        Action::Invoke { control: 3, id: 9 }
    ));
    assert_eq!(menu.state, MenuState::Handling);
    menu.options.page = 2;
    assert!(matches!(menu.step(Event::Handled), Action::Edit { page: 2, .. }));
}

#[test]
fn custom_handler_out_of_bounds_fails() {
    let mut options = MenuOptions::default();
    options.controls.push(Control::new(marker('\u{23e9}'), ControlFunction::Custom(1)));
    let mut menu = shown(3, options);
    assert!(matches!(menu.step(Event::Added(marker('\u{23e9}'))), Action::Invoke { .. }));
    menu.options.page = 3;
    expect_other(menu.step(Event::Handled), "`page` is out of bounds.");
}

#[test]
fn unexpected_event_ends_menu() {
    let mut menu = shown(2, options(0, 5000));
    expect_other(menu.step(Event::Cleaned), "the menu got an event it was not waiting for");
    assert_eq!(menu.state, MenuState::Finished);
    let mut menu = Menu::new(2, MenuOptions::default());
    assert!(matches!(menu.start(), Action::Send { .. }));
    expect_other(menu.start(), "the menu got an event it was not waiting for");
}

#[test]
fn blocking_seed_is_asked_for() {
    let mut options = options(0, 5000);
    options.non_blocking = false;
    let mut menu = Menu::new(1, options);
    assert!(matches!(menu.start(), Action::Send { page: 0 }));
    assert!(matches!(
        menu.step(Event::Sent(HANDLE)),
        Action::Seed { non_blocking: false, .. }
    ));
}

#[test]
fn consistency_check() {
    let menu = Menu::new(1, MenuOptions::default());
    assert!(menu.is_consistent());
    let menu = shown(1, options(0, 5000));
    assert!(menu.is_consistent());
}
