use hellvents::melee_mania::{
    is_lowered_weapon_melee, is_weapon_melee, Action, GameEvent, MeleeMania, MeleeManiaConfig,
    PenaltyContext, PenaltyKind, Phase, Player, Signal,
};
use hellvents::messages::{end_message, info_message, running_message, start_message};
use hellvents::span::Span;

fn player(name: &str, id: &str) -> Player {
    Player { name: name.to_string(), id: id.to_string() }
}

fn kill(killer: &Player, victim: &Player, weapon: &str) -> Signal {
    Signal::Incoming(GameEvent::Kill {
        killer: killer.clone(),
        victim: victim.clone(),
        weapon: weapon.to_string(),
    })
}

fn at(secs: u64) -> Span {
    Span::from_secs(secs)
}

fn enforcing_game() -> MeleeMania {
    let mut game = MeleeMania::new(MeleeManiaConfig::default(), at(1000));
    game.announce();
    game.step(Signal::DelayElapsed, at(1130));
    assert_eq!(game.phase(), Phase::Enforcing);
    game
}

#[test]
fn weapon_classification_ignores_case() {
    assert!(is_weapon_melee("KNIFE"));
    assert!(is_weapon_melee("M3 Knife"));
    assert!(is_weapon_melee("Feldspaten"));
    assert!(is_weapon_melee("Fairbairn-Sykes"));
    assert!(is_weapon_melee("Shovel"));
    assert!(!is_weapon_melee("M1 Garand"));
    assert!(!is_weapon_melee("Unknown"));
    assert!(!is_lowered_weapon_melee("KNIFE"));
    assert!(is_lowered_weapon_melee("spade"));
}

#[test]
fn default_config_timing() {
    let c = MeleeManiaConfig::default();
    assert_eq!(c.delay, at(130));
    assert_eq!(c.duration, at(300));
}

#[test]
fn lifecycle_announce_start_end() {
    let mut game = MeleeMania::new(MeleeManiaConfig::default(), at(1000));
    assert_eq!(game.phase(), Phase::Announced);
    assert_eq!(game.end(), at(1430));
    let acts = game.announce();
    assert_eq!(acts, vec![Action::Broadcast(info_message(&at(130), &at(300)))]);
    assert_eq!(game.phase(), Phase::Delayed);
    let acts = game.step(Signal::DelayElapsed, at(1130));
    assert_eq!(acts, vec![Action::Broadcast(start_message(&at(300))), Action::Drain]);
    let acts = game.step(Signal::DeadlineReached, at(1430));
    assert_eq!(acts, vec![Action::Broadcast(end_message())]);
    assert_eq!(game.phase(), Phase::Ended);
}

#[test]
fn rifle_kills_escalate_punish_punish_kick() {
    let mut game = enforcing_game();
    let p = player("Pat", "p-1");
    let v = player("Vic", "v-1");
    let mut kinds = Vec::new();
    for _ in 0..3 {
        let acts = game.step(kill(&p, &v, "M1 Garand"), at(1200));
        assert_eq!(acts.len(), 2);
        match &acts[0] {
            Action::Punish { player, reason } => {
                assert_eq!(player, "Pat");
                assert_eq!(reason, "\"Your kill with M1 Garand violated the melee only rule. You may only use your melee weapon during this event.\"");
                kinds.push("punish");
            }
            Action::Kick { player, reason } => {
                assert_eq!(player, "Pat");
                assert_eq!(reason, "\"Your kill with M1 Garand violated the melee only rule. Due to previous infractions you have been kicked.\"");
                kinds.push("kick");
            }
            other => panic!("unexpected action {:?}", other),
        }
        match &acts[1] {
            Action::Message { player, text } => {
                assert_eq!(player, "v-1");
                assert!(text.starts_with("Your killer Pat has been"));
                assert!(text.ends_with("for killing you with M1 Garand."));
            }
            other => panic!("unexpected action {:?}", other),
        }
    }
    assert_eq!(kinds, vec!["punish", "punish", "kick"]);
    assert_eq!(game.violations_of(&"p-1".to_string()), 3);
}

#[test]
fn violations_accrue_per_player() {
    let mut game = enforcing_game();
    let a = player("A", "a");
    let b = player("B", "b");
    let v = player("V", "v");
    game.step(kill(&a, &v, "Kar98k"), at(1200));
    game.step(kill(&a, &v, "Kar98k"), at(1201));
    let acts = game.step(kill(&b, &v, "Kar98k"), at(1202));
    assert!(matches!(acts[0], Action::Punish { .. }));
    let acts = game.step(kill(&a, &v, "Kar98k"), at(1203));
    assert!(matches!(acts[0], Action::Kick { .. }));
    let acts = game.step(kill(&a, &v, "Kar98k"), at(1204));
    assert!(matches!(acts[0], Action::Kick { .. }));
    assert_eq!(game.violations_of(&"a".to_string()), 4);
    assert_eq!(game.violations_of(&"b".to_string()), 1);
    assert_eq!(game.violations_of(&"v".to_string()), 0);
}

#[test]
fn melee_kills_are_free() {
    let mut game = enforcing_game();
    let p = player("P", "p");
    let acts = game.step(kill(&p, &p, "M3 KNIFE"), at(1200));
    assert!(acts.is_empty());
    assert_eq!(game.violations_of(&"p".to_string()), 0);
}

#[test]
fn connecting_player_learns_remaining_time() {
    let mut game = enforcing_game();
    let p = player("New", "n-1");
    let acts = game.step(Signal::Incoming(GameEvent::Connect { player: p }), at(1400));
    assert_eq!(
        acts,
        vec![Action::Message { player: "n-1".to_string(), text: running_message(&at(30)) }]
    );
    let acts = game.step(Signal::Incoming(GameEvent::Other), at(1401));
    assert!(acts.is_empty());
}

#[test]
fn cancel_while_delayed_ends_without_broadcast() {
    let mut game = MeleeMania::new(MeleeManiaConfig::default(), at(0));
    game.announce();
    let acts = game.step(Signal::Cancelled, at(10));
    assert!(acts.is_empty());
    assert_eq!(game.phase(), Phase::Ended);
    let acts = game.step(Signal::DelayElapsed, at(130));
    assert!(acts.is_empty());
    assert_eq!(game.phase(), Phase::Ended);
}

#[test]
fn early_deadline_signal_is_ignored() {
    let mut game = enforcing_game();
    let acts = game.step(Signal::DeadlineReached, at(1429));
    assert!(acts.is_empty());
    assert_eq!(game.phase(), Phase::Enforcing);
    let acts = game.step(Signal::DeadlineReached, at(1430));
    assert_eq!(acts, vec![Action::Broadcast(end_message())]);
    assert_eq!(game.phase(), Phase::Ended);
}

#[test]
fn cancel_while_enforcing_announces_end() {
    let mut game = enforcing_game();
    let acts = game.step(Signal::Cancelled, at(1200));
    assert_eq!(acts, vec![Action::Broadcast(end_message())]);
}

#[test]
fn ended_game_ignores_events() {
    let mut game = enforcing_game();
    let p = player("P", "p");
    game.step(kill(&p, &p, "MP40"), at(1200));
    game.step(Signal::DeadlineReached, at(1430));
    for _ in 0..3 {
        let acts = game.step(kill(&p, &p, "MP40"), at(1500));
        assert!(acts.is_empty());
    }
    assert_eq!(game.violations_of(&"p".to_string()), 1);
    assert_eq!(game.phase(), Phase::Ended);
}

#[test]
fn penalty_actions_name_killer_and_victim() {
    let ctx = PenaltyContext::new(player("K", "k"), player("V", "v"), "STG44".to_string());
    let acts = PenaltyKind::Kick.execute(&ctx);
    assert_eq!(
        acts,
        vec![
            Action::Kick {
                player: "K".to_string(),
                reason: "\"Your kill with STG44 violated the melee only rule. Due to previous infractions you have been kicked.\"".to_string()
            },
            Action::Message {
                player: "v".to_string(),
                text: "Your killer K has been kicked for killing you with STG44.".to_string()
            },
        ]
    );
    let acts = PenaltyKind::Punish.execute(&ctx);
    assert_eq!(
        acts[1],
        Action::Message {
            player: "v".to_string(),
            text: "Your killer K has been redeployed for killing you with STG44.".to_string()
        }
    );
}
