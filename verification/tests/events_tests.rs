use hacksquad::events::{AutocompleteRoute, CommandRoute, ComponentRoute, Handler};

#[test]
fn commands_route_by_name() {
    assert_eq!(Handler::route_command("team"), CommandRoute::Team);
    assert_eq!(Handler::route_command("leaderboard"), CommandRoute::Leaderboard);
    assert_eq!(Handler::route_command("hero"), CommandRoute::Hero);
    assert_eq!(Handler::route_command("randomhero"), CommandRoute::RandomHero);
    assert_eq!(Handler::route_command("info"), CommandRoute::Info);
    assert_eq!(Handler::route_command("teams"), CommandRoute::Unknown);
}

#[test]
fn components_and_autocomplete() {
    assert_eq!(Handler::route_component(Some("leaderboard")), ComponentRoute::Leaderboard);
    assert_eq!(Handler::route_component(Some("team")), ComponentRoute::Unknown);
    assert_eq!(Handler::route_component(None), ComponentRoute::NoInteraction);
    assert_eq!(Handler::route_autocomplete("team"), AutocompleteRoute::Team);
    assert_eq!(Handler::route_autocomplete("hero"), AutocompleteRoute::Unknown);
}
