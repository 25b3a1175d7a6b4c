use hellvents::melee_mania::Player;
use hellvents::sky_eye::select_random_players;

fn entry(name: &str, team: &str) -> (Player, String) {
    (Player { name: name.to_string(), id: format!("id-{}", name) }, team.to_string())
}

#[test]
fn picks_at_most_amount_per_team_and_skips_teamless() {
    let players = vec![
        entry("a1", "Allies"),
        entry("a2", "Allies"),
        entry("a3", "Allies"),
        entry("x1", "Axis"),
        entry("s1", "None"),
    ];
    let picked = select_random_players(2, players.clone());
    assert_eq!(picked.len(), 3);
    assert_eq!(picked.iter().filter(|p| p.1 == "Allies").count(), 2);
    assert_eq!(picked.iter().filter(|p| p.1 == "Axis").count(), 1);
    assert!(picked.iter().all(|p| p.1 != "None" && players.contains(p)));
    let mut names: Vec<&str> = picked.iter().map(|p| p.0.name.as_str()).collect();
    names.sort();
    names.dedup();
    assert_eq!(names.len(), 3);
}

#[test]
fn nothing_to_pick_from_empty_input() {
    assert!(select_random_players(5, Vec::new()).is_empty());
    assert!(select_random_players(0, vec![entry("a", "Allies")]).is_empty());
}
