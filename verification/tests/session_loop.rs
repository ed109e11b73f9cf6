use fumo::pagination::{build_pages, initial_page, navigation_state, next_index, page_count};
use fumo::pagination::{NavigationState, PageTarget, PaginationButtons};
use fumo::prompt::{ensure_valid_opponent, resolve};
use fumo::prompt::{ConfirmationButtons, ConfirmationMessageHandle, ConfirmationOutcome};
use fumo::prompt::{ConfirmationPromptOptions, ConfirmationResult, OpponentError};
use fumo::prompt::OpponentValidationMessages;
use fumo::session::{Audience, CollectorLoop, DeadlinePolicy, LoopAction, LoopState};
use fumo::session::{OutcomeClass, SessionKind};
use rand::rngs::StdRng;
use rand::SeedableRng;

#[test]
fn silent_session_ends_once_with_one_final_render() {
    let mut session = CollectorLoop::start(DeadlinePolicy::Ceiling, 180, 1_000);
    assert_eq!(session.state, LoopState::Waiting);
    assert_eq!(session.next_wait(), LoopAction::Wait { until: 1_180 });
    assert_eq!(session.on_deadline(), LoopAction::AbandonAndRender);
    assert!(session.is_terminal());
    assert!(session.abandoned);
    assert_eq!(session.final_renders, 1);
    let ended = session;
    assert_eq!(session.on_deadline(), LoopAction::Nothing);
    assert_eq!(session.on_event(), LoopAction::Nothing);
    assert_eq!(session.on_outcome(OutcomeClass::Progress, 2_000), LoopAction::Nothing);
    assert_eq!(session.on_outcome(OutcomeClass::Settlement, 2_000), LoopAction::Nothing);
    assert_eq!(session.on_rendered(), LoopAction::Nothing);
    assert_eq!(session.next_wait(), LoopAction::Nothing);
    assert_eq!(session, ended);
    assert_eq!(session.final_renders, 1);
}

#[test]
fn progress_renders_and_waits_again() {
    let mut session = CollectorLoop::start(DeadlinePolicy::Sliding, 90, 0);
    assert_eq!(session.on_event(), LoopAction::Dispatch);
    assert_eq!(session.state, LoopState::Dispatching);
    assert_eq!(session.on_outcome(OutcomeClass::Progress, 40), LoopAction::Render);
    assert_eq!(session.state, LoopState::Rendering);
    assert_eq!(session.on_rendered(), LoopAction::Wait { until: 130 });
    assert_eq!(session.state, LoopState::Waiting);
    assert_eq!(session.final_renders, 0);
    assert!(!session.abandoned);
}

#[test]
fn ceiling_is_never_moved() {
    let mut session = CollectorLoop::start(DeadlinePolicy::Ceiling, 180, 10);
    for now in [20, 100, 189] {
        session.on_event();
        session.on_outcome(OutcomeClass::Progress, now);
        assert_eq!(session.on_rendered(), LoopAction::Wait { until: 190 });
    }
}

#[test]
fn rejected_move_notifies_without_render_or_new_deadline() {
    let mut session = CollectorLoop::start(DeadlinePolicy::Sliding, 90, 0);
    session.on_event();
    assert_eq!(session.on_outcome(OutcomeClass::Rejected, 60), LoopAction::Notify);
    assert_eq!(session.state, LoopState::Waiting);
    assert_eq!(session.deadline, 90);
    assert_eq!(session.next_wait(), LoopAction::Wait { until: 90 });
    assert_eq!(session.on_rendered(), LoopAction::Nothing);
}

#[test]
fn settlement_asks_the_ledger_then_renders_for_the_last_time() {
    let mut session = CollectorLoop::start(DeadlinePolicy::Ceiling, 180, 0);
    session.on_event();
    assert_eq!(session.on_outcome(OutcomeClass::Settlement, 5), LoopAction::SettleAndRender);
    assert_eq!(session.final_renders, 1);
    assert!(!session.is_terminal());
    assert_eq!(session.on_deadline(), LoopAction::Nothing);
    assert_eq!(session.on_event(), LoopAction::Nothing);
    assert_eq!(session.on_rendered(), LoopAction::Stop);
    assert!(session.is_terminal());
    assert!(!session.abandoned);
    assert_eq!(session.final_renders, 1);
    assert_eq!(session.on_deadline(), LoopAction::Nothing);
    assert_eq!(session.final_renders, 1);
}

#[test]
fn events_out_of_turn_are_ignored() {
    let mut session = CollectorLoop::start(DeadlinePolicy::Ceiling, 180, 0);
    assert_eq!(session.on_outcome(OutcomeClass::Progress, 1), LoopAction::Nothing);
    assert_eq!(session.on_rendered(), LoopAction::Nothing);
    session.on_event();
    assert_eq!(session.on_event(), LoopAction::Nothing);
    assert_eq!(session.on_deadline(), LoopAction::Nothing);
    assert_eq!(session.state, LoopState::Dispatching);
    session.on_outcome(OutcomeClass::Progress, 1);
    assert_eq!(session.on_event(), LoopAction::Nothing);
    assert_eq!(session.on_deadline(), LoopAction::Nothing);
    assert_eq!(session.state, LoopState::Rendering);
}

#[test]
fn deadline_saturates_at_the_end_of_time() {
    let session = CollectorLoop::start(DeadlinePolicy::Sliding, 100, u64::MAX - 5);
    assert_eq!(session.deadline, u64::MAX);
    let mut other = CollectorLoop::start(DeadlinePolicy::Sliding, u64::MAX, 0);
    assert_eq!(other.deadline, u64::MAX);
    other.on_event();
    other.on_outcome(OutcomeClass::Progress, 1);
    assert_eq!(other.deadline, u64::MAX);
}

#[test]
fn sessions_have_their_windows() {
    let windows = [
        (SessionKind::Mines, 180, DeadlinePolicy::Ceiling),
        (SessionKind::Memory, 300, DeadlinePolicy::Ceiling),
        (SessionKind::Race, 120, DeadlinePolicy::Ceiling),
        (SessionKind::JoKenPoSolo, 30, DeadlinePolicy::Ceiling),
        (SessionKind::JoKenPoVersus, 60, DeadlinePolicy::Ceiling),
        (SessionKind::Confirmation, 45, DeadlinePolicy::Ceiling),
        (SessionKind::Lobby, 120, DeadlinePolicy::Sliding),
        (SessionKind::Rewards, 90, DeadlinePolicy::Sliding),
        (SessionKind::Pagination, 180, DeadlinePolicy::Sliding),
    ];
    for (kind, window, policy) in windows {
        assert_eq!(kind.window_secs(), window);
        assert_eq!(kind.policy(), policy);
        let session = CollectorLoop::start_for(kind, 1_000);
        assert_eq!(session.deadline, 1_000 + window);
        assert_eq!(session.policy, policy);
    }
}

#[test]
fn audience_filters_events() {
    assert!(Audience::Owner(7).admits(7));
    assert!(!Audience::Owner(7).admits(8));
    assert!(Audience::Everyone.admits(7));
    assert!(Audience::Everyone.admits(0));
}

fn handle() -> ConfirmationMessageHandle {
    ConfirmationMessageHandle { channel_id: 3, message_id: 4 }
}

#[test]
fn prompt_options_default_to_forty_five_seconds() {
    let options = ConfirmationPromptOptions::new(String::from("Aceita?"));
    assert_eq!(options.content, "Aceita?");
    assert_eq!(options.timeout_secs, 45);
    assert!(!options.keep_message_on_accept);
}

#[test]
fn prompt_buttons_carry_the_nonce() {
    let buttons = ConfirmationButtons::with_nonce(77);
    assert_eq!(buttons.accept_id, "confirm_77_ok");
    assert_eq!(buttons.deny_id, "confirm_77_no");
    let mut rng = StdRng::seed_from_u64(6);
    let drawn = ConfirmationButtons::new(&mut rng);
    assert!(drawn.accept_id.starts_with("confirm_") && drawn.accept_id.ends_with("_ok"));
    assert_eq!(
        drawn.accept_id.trim_end_matches("_ok"),
        drawn.deny_id.trim_end_matches("_no")
    );
    let another = ConfirmationButtons::new(&mut rng);
    assert_ne!(another.accept_id, drawn.accept_id);
}

#[test]
fn prompt_is_resolved_by_the_click() {
    let buttons = ConfirmationButtons::with_nonce(1);
    let mut options = ConfirmationPromptOptions::new(String::from("?"));
    assert_eq!(
        resolve(Some("confirm_1_ok"), &buttons, &options, handle()),
        ConfirmationResult { outcome: ConfirmationOutcome::Accepted, message: None }
    );
    options.keep_message_on_accept = true;
    assert_eq!(
        resolve(Some("confirm_1_ok"), &buttons, &options, handle()),
        ConfirmationResult { outcome: ConfirmationOutcome::Accepted, message: Some(handle()) }
    );
    for clicked in ["confirm_1_no", "confirm_2_ok", "", "anything"] {
        assert_eq!(
            resolve(Some(clicked), &buttons, &options, handle()),
            ConfirmationResult { outcome: ConfirmationOutcome::Declined, message: None }
        );
    }
    assert_eq!(
        resolve(None, &buttons, &options, handle()),
        ConfirmationResult { outcome: ConfirmationOutcome::Timeout, message: None }
    );
}

#[test]
fn opponents_must_be_other_humans() {
    assert_eq!(ensure_valid_opponent(1, 1, false), Err(OpponentError::IsSelf));
    assert_eq!(ensure_valid_opponent(1, 1, true), Err(OpponentError::IsSelf));
    assert_eq!(ensure_valid_opponent(1, 2, true), Err(OpponentError::IsBot));
    assert_eq!(ensure_valid_opponent(1, 2, false), Ok(()));
    let messages = OpponentValidationMessages::new("not yourself", "not a bot");
    assert_eq!(messages.self_error, "not yourself");
    assert_eq!(messages.message_for(OpponentError::IsSelf), "not yourself");
    assert_eq!(messages.message_for(OpponentError::IsBot), "not a bot");
}

#[test]
fn pagination_buttons_carry_the_invocation() {
    let buttons = PaginationButtons::new(123);
    assert_eq!(buttons.first, "123_pg_first");
    assert_eq!(buttons.prev, "123_pg_prev");
    assert_eq!(buttons.home, "123_pg_home");
    assert_eq!(buttons.next, "123_pg_next");
    assert_eq!(buttons.last, "123_pg_last");
    assert_eq!(buttons.target("123_pg_first"), Some(PageTarget::First));
    assert_eq!(buttons.target("123_pg_prev"), Some(PageTarget::Prev));
    assert_eq!(buttons.target("123_pg_home"), Some(PageTarget::Home));
    assert_eq!(buttons.target("123_pg_next"), Some(PageTarget::Next));
    assert_eq!(buttons.target("123_pg_last"), Some(PageTarget::Last));
    assert_eq!(buttons.target("124_pg_last"), None);
    assert_eq!(buttons.target("_pg_last"), None);
    assert_eq!(PaginationButtons::new(u64::MAX).home, "18446744073709551615_pg_home");
    assert_eq!(PaginationButtons::new(0).home, "0_pg_home");
}

#[test]
fn buttons_lead_to_pages() {
    assert_eq!(next_index(PageTarget::First, 3, 5), 0);
    assert_eq!(next_index(PageTarget::Home, 3, 5), 0);
    assert_eq!(next_index(PageTarget::Prev, 3, 5), 2);
    assert_eq!(next_index(PageTarget::Prev, 0, 5), 0);
    assert_eq!(next_index(PageTarget::Next, 3, 5), 4);
    assert_eq!(next_index(PageTarget::Next, 4, 5), 4);
    assert_eq!(next_index(PageTarget::Last, 0, 5), 4);
    assert_eq!(next_index(PageTarget::Next, 0, 1), 0);
    assert_eq!(next_index(PageTarget::Last, 0, 1), 0);
    assert_eq!(next_index(PageTarget::Next, usize::MAX, 5), 4);
}

#[test]
fn navigation_is_disabled_at_the_ends() {
    assert_eq!(
        navigation_state(0, 1),
        NavigationState { disable_back: true, disable_home: true, disable_forward: true }
    );
    assert_eq!(
        navigation_state(0, 3),
        NavigationState { disable_back: true, disable_home: true, disable_forward: false }
    );
    assert_eq!(
        navigation_state(1, 3),
        NavigationState { disable_back: false, disable_home: false, disable_forward: false }
    );
    assert_eq!(
        navigation_state(2, 3),
        NavigationState { disable_back: false, disable_home: false, disable_forward: true }
    );
    assert_eq!(
        navigation_state(0, 0),
        NavigationState { disable_back: true, disable_home: true, disable_forward: true }
    );
}

#[test]
fn listing_opens_on_the_page_asked_for() {
    assert_eq!(initial_page(None, 5), 0);
    assert_eq!(initial_page(Some(0), 5), 0);
    assert_eq!(initial_page(Some(1), 5), 0);
    assert_eq!(initial_page(Some(3), 5), 2);
    assert_eq!(initial_page(Some(5), 5), 4);
    assert_eq!(initial_page(Some(6), 5), 4);
    assert_eq!(initial_page(Some(u32::MAX), 5), 4);
    assert_eq!(initial_page(Some(9), 1), 0);
}

#[test]
fn lines_are_laid_out_on_pages() {
    let lines: Vec<String> = (1..=7).map(|i| format!("l{}", i)).collect();
    assert_eq!(page_count(0, 3), 0);
    assert_eq!(page_count(1, 3), 1);
    assert_eq!(page_count(3, 3), 1);
    assert_eq!(page_count(4, 3), 2);
    assert_eq!(page_count(usize::MAX, 1), usize::MAX);
    assert_eq!(build_pages(&lines, 3, ", "), vec!["l1, l2, l3", "l4, l5, l6", "l7"]);
    assert_eq!(build_pages(&lines, 7, "|"), vec!["l1|l2|l3|l4|l5|l6|l7"]);
    assert_eq!(build_pages(&lines, 100, ""), vec!["l1l2l3l4l5l6l7"]);
    assert_eq!(build_pages(&lines[..2].to_vec(), 1, "x"), vec!["l1", "l2"]);
    assert!(build_pages(&vec![], 3, ", ").is_empty());
}

#[test]
fn last_renders_disable_the_controls() {
    assert_eq!(LoopAction::Render.controls_enabled(), Some(true));
    assert_eq!(LoopAction::SettleAndRender.controls_enabled(), Some(false));
    assert_eq!(LoopAction::AbandonAndRender.controls_enabled(), Some(false));
    assert_eq!(LoopAction::Notify.controls_enabled(), None);
    assert_eq!(LoopAction::Stop.controls_enabled(), None);
    assert_eq!(LoopAction::Wait { until: 3 }.controls_enabled(), None);
    let mut session = CollectorLoop::start_for(SessionKind::Mines, 0);
    assert_eq!(session.on_deadline().controls_enabled(), Some(false));
}
