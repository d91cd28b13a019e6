use usage_monitor::model::{Provider, ProviderType};
use usage_monitor::scheduler::{advance, classify_failure, health, PollEvent, PollFailure, PollOutcome, PollStage, ProviderHealth, Tick};

fn provider(kind: ProviderType, enabled: bool) -> Provider {
    let mut p = Provider::builtin(kind, 0);
    p.enabled = enabled;
    p
}

#[test]
fn a_failing_provider_does_not_stop_the_tick() {
    let providers = vec![
        provider(ProviderType::OpenAI, true),
        provider(ProviderType::Anthropic, false),
        provider(ProviderType::OpenRouter, true),
    ];
    let mut tick = Tick::start(&providers);
    assert_eq!(tick.queue, vec![0, 2]);
    assert_eq!(tick.current(), Some(0));
    tick.record(PollOutcome::Failed(PollFailure::Transient));
    assert_eq!(tick.current(), Some(2));
    assert!(!tick.is_done());
    tick.record(PollOutcome::Succeeded);
    assert_eq!(tick.current(), None);
    assert!(tick.is_done());
    assert_eq!(tick.outcomes, vec![PollOutcome::Failed(PollFailure::Transient), PollOutcome::Succeeded]);
}

#[test]
fn a_poll_runs_its_stages_in_turn() {
    let mut s = PollStage::Credential;
    s = advance(s, PollEvent::Succeeded);
    assert_eq!(s, PollStage::Snapshot);
    s = advance(s, PollEvent::Succeeded);
    assert_eq!(s, PollStage::Usage);
    s = advance(s, PollEvent::Fetched(2));
    assert_eq!(s, PollStage::Storing { stored: 0, total: 2 });
    s = advance(s, PollEvent::Succeeded);
    assert_eq!(s, PollStage::Storing { stored: 1, total: 2 });
    s = advance(s, PollEvent::Succeeded);
    assert_eq!(s, PollStage::Finished(PollOutcome::Succeeded));
    assert_eq!(advance(s, PollEvent::Failed(PollFailure::Store)), s);
    assert_eq!(advance(PollStage::Usage, PollEvent::Fetched(0)), PollStage::Finished(PollOutcome::Succeeded));
}

#[test]
fn a_failure_ends_the_poll_with_its_kind() {
    let s = advance(PollStage::Credential, PollEvent::Failed(PollFailure::CredentialMissing));
    assert_eq!(s, PollStage::Finished(PollOutcome::Failed(PollFailure::CredentialMissing)));
    let s = advance(PollStage::Storing { stored: 0, total: 3 }, PollEvent::Failed(PollFailure::Store));
    assert_eq!(s, PollStage::Finished(PollOutcome::Failed(PollFailure::Store)));
}

#[test]
fn failures_are_classified_and_shown() {
    assert_eq!(classify_failure(None), PollFailure::Transient);
    assert_eq!(classify_failure(Some(503)), PollFailure::Transient);
    assert_eq!(classify_failure(Some(401)), PollFailure::Permanent);
    assert_eq!(classify_failure(Some(422)), PollFailure::Permanent);
    assert_eq!(health(PollOutcome::Succeeded), ProviderHealth::Healthy);
    assert_eq!(health(PollOutcome::Failed(PollFailure::CredentialMissing)), ProviderHealth::NeedsAttention);
    assert_eq!(health(PollOutcome::Failed(PollFailure::Permanent)), ProviderHealth::NeedsAttention);
    assert_eq!(health(PollOutcome::Failed(PollFailure::Transient)), ProviderHealth::Retrying);
}
