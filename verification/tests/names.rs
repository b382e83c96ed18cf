use common_game::components::forge::Forge;
use one_million_crabs::messages::{
    BasicResourceType, ComplexResourceType, ExplorerToPlanet, OrchestratorToPlanet, ToString2,
};
use one_million_crabs::planet::{combination_rules, generation_rules};

#[test]
fn basic_kinds_have_lower_case_names() {
    assert_eq!(BasicResourceType::Carbon.to_string_2(), "carbon");
    assert_eq!(BasicResourceType::Hydrogen.to_string_2(), "hydrogen");
    assert_eq!(BasicResourceType::Oxygen.to_string_2(), "oxygen");
    assert_eq!(BasicResourceType::Silicon.to_string_2(), "silicon");
}

#[test]
fn complex_kinds_are_named_as_written() {
    assert_eq!(ComplexResourceType::AIPartner.to_string_2(), "AIPartner");
    assert_eq!(ComplexResourceType::Diamond.to_string_2(), "Diamond");
    assert_eq!(ComplexResourceType::Life.to_string_2(), "Life");
    assert_eq!(ComplexResourceType::Robot.to_string_2(), "Robot");
    assert_eq!(ComplexResourceType::Water.to_string_2(), "Water");
    assert_eq!(ComplexResourceType::Dolphin.to_string_2(), "Dolphin");
}

#[test]
fn orchestrator_messages_are_named_by_their_kind() {
    let forge = Forge::new().expect("the forge");
    assert_eq!(OrchestratorToPlanet::Sunray(forge.generate_sunray()).to_string_2(), "Sunray");
    assert_eq!(OrchestratorToPlanet::InternalStateRequest.to_string_2(), "InternalStateRequest");
    assert_eq!(OrchestratorToPlanet::Asteroid.to_string_2(), "Asteroid");
    assert_eq!(OrchestratorToPlanet::StartPlanetAI.to_string_2(), "StartPlanetAI");
    assert_eq!(OrchestratorToPlanet::StopPlanetAI.to_string_2(), "StopPlanetAI");
    assert_eq!(OrchestratorToPlanet::KillPlanet.to_string_2(), "KillPlanet");
    assert_eq!(
        OrchestratorToPlanet::IncomingExplorerRequest { explorer_id: 1 }.to_string_2(),
        "IncomingExplorerRequest"
    );
    assert_eq!(
        OrchestratorToPlanet::OutgoingExplorerRequest { explorer_id: 1 }.to_string_2(),
        "OutgoingExplorerRequest"
    );
}

#[test]
fn explorer_messages_are_named_by_their_kind() {
    assert_eq!(
        ExplorerToPlanet::SupportedResourceRequest { explorer_id: 1 }.to_string_2(),
        "SupportedResourceRequest"
    );
    assert_eq!(
        ExplorerToPlanet::SupportedCombinationRequest { explorer_id: 1 }.to_string_2(),
        "SupportedCombinationRequest"
    );
    assert_eq!(
        ExplorerToPlanet::GenerateResourceRequest {
            explorer_id: 1,
            resource: BasicResourceType::Oxygen
        }
        .to_string_2(),
        "GenerateResourceRequest"
    );
    assert_eq!(
        ExplorerToPlanet::AvailableEnergyCellRequest { explorer_id: 1 }.to_string_2(),
        "AvailableEnergyCellRequest"
    );
}

#[test]
fn the_planet_makes_every_basic_kind_and_combines_nothing() {
    assert_eq!(
        generation_rules(),
        vec![
            BasicResourceType::Carbon,
            BasicResourceType::Hydrogen,
            BasicResourceType::Oxygen,
            BasicResourceType::Silicon
        ]
    );
    assert!(combination_rules().is_empty());
}
