use serenity_utils::prompt::{
    yes_or_no_answer, PromptAction, PromptEvent, PromptState, ReactionPrompt, NO_EMOJI, YES_EMOJI,
};
use serenity_utils::reaction::ReactionType;
use serenity_utils::Error;

fn marker(c: char) -> ReactionType {
    ReactionType::Unicode(c.to_string())
}

fn started(emojis: Vec<ReactionType>) -> ReactionPrompt {
    let mut prompt = ReactionPrompt::new(emojis.clone(), 5000);
    match prompt.start() {
        PromptAction::Seed { emojis: seeded } => assert_eq!(seeded, emojis),
        other => panic!("unexpected action: {:?}", other),
    }
    assert!(matches!(prompt.step(PromptEvent::Seeded), PromptAction::Await { timeout: 5000 }));
    prompt
}

#[test]
fn second_marker_picked_first() {
    let (a, b) = (marker('\u{1f436}'), marker('\u{1f431}'));
    let mut prompt = started(vec![a, b.clone()]);
    match prompt.step(PromptEvent::Added(b.clone())) {
        PromptAction::Finish(Ok((index, emoji))) => {
            assert_eq!(index, 1);
            assert_eq!(emoji, b);
        }
        other => panic!("unexpected action: {:?}", other),
    }
    assert_eq!(prompt.state, PromptState::Finished);
}

#[test]
fn unlisted_marker_is_ignored() {
    let (a, b) = (marker('\u{1f436}'), marker('\u{1f431}'));
    let mut prompt = started(vec![a.clone(), b]);
    assert!(matches!(prompt.step(PromptEvent::Added(marker('x'))), PromptAction::Wait));
    assert!(matches!(prompt.step(PromptEvent::Removed), PromptAction::Wait));
    assert_eq!(prompt.state, PromptState::Awaiting);
    assert!(matches!(
        prompt.step(PromptEvent::Added(a)),
        PromptAction::Finish(Ok((0, _)))
    ));
}

#[test]
fn no_reaction_times_out() {
    let mut prompt = started(vec![marker('a'), marker('b')]);
    assert!(matches!(
        prompt.step(PromptEvent::TimedOut),
        PromptAction::Finish(Err(Error::TimeoutError))
    ));
}

#[test]
fn seed_failure_is_returned() {
    let mut prompt = ReactionPrompt::new(vec![marker('a')], 5000);
    assert!(matches!(prompt.start(), PromptAction::Seed { .. }));
    assert!(matches!(
        prompt.step(PromptEvent::Failed(Error::SerenityError(serenity::Error::Other("x")))),
        PromptAction::Finish(Err(Error::SerenityError(_)))
    ));
}

#[test]
fn unexpected_prompt_event() {
    let mut prompt = ReactionPrompt::new(vec![marker('a')], 5000);
    match prompt.step(PromptEvent::Seeded) {
        PromptAction::Finish(Err(Error::Other(s))) => {
            assert_eq!(s, "the prompt got an event it was not waiting for")
        }
        other => panic!("unexpected action: {:?}", other),
    }
}

#[test]
fn yes_and_no() {
    let prompt = ReactionPrompt::yes_or_no(1000);
    assert_eq!(prompt.emojis, vec![marker('\u{2705}'), marker('\u{274c}')]);
    assert_eq!(prompt.timeout, 1000);

    let mut prompt = ReactionPrompt::yes_or_no(1000);
    prompt.start();
    prompt.step(PromptEvent::Seeded);
    match prompt.step(PromptEvent::Added(marker(YES_EMOJI))) {
        PromptAction::Finish(r) => assert!(matches!(yes_or_no_answer(r), Ok(true))),
        other => panic!("unexpected action: {:?}", other),
    }

    let mut prompt = ReactionPrompt::yes_or_no(1000);
    prompt.start();
    prompt.step(PromptEvent::Seeded);
    match prompt.step(PromptEvent::Added(marker(NO_EMOJI))) {
        PromptAction::Finish(r) => assert!(matches!(yes_or_no_answer(r), Ok(false))),
        other => panic!("unexpected action: {:?}", other),
    }

    assert!(matches!(yes_or_no_answer(Err(Error::TimeoutError)), Err(Error::TimeoutError)));
}

#[test]
fn markers_compare_by_parts() {
    let custom = |name: Option<&str>| ReactionType::Custom {
        animated: false,
        id: 5,
        name: name.map(String::from),
    };
    assert!(custom(Some("a")).same_as(&custom(Some("a"))));
    assert!(!custom(Some("a")).same_as(&custom(Some("b"))));
    assert!(!custom(None).same_as(&custom(Some("a"))));
    assert!(!custom(None).same_as(&marker('a')));
    assert_eq!(ReactionType::from_char('\u{2705}'), marker('\u{2705}'));
    assert_ne!(ReactionType::from_char('a'), marker('b'));
    assert_eq!(custom(None).duplicate(), custom(None));
}
