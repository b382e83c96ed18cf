use std::sync::OnceLock;

use common_game::components::forge::Forge;
use common_game::components::planet::{DummyPlanetState, Planet, PlanetAI, PlanetState, PlanetType};
use common_game::components::resource::{
    BasicResource, BasicResourceType as OutsideBasic, Combinator, ComplexResourceRequest,
    Generator, GenericResource,
};
use common_game::components::rocket::Rocket;
use common_game::components::sunray::Sunray;
use common_game::protocols::orchestrator_planet::{
    OrchestratorToPlanet as OutsideOrchestratorToPlanet,
    PlanetToOrchestrator as OutsidePlanetToOrchestrator,
};
use common_game::protocols::planet_explorer::{
    ExplorerToPlanet as OutsideExplorerToPlanet, PlanetToExplorer as OutsidePlanetToExplorer,
};
use crossbeam_channel::unbounded;
use one_million_crabs::messages::{
    BasicResourceType, ExplorerToPlanet, OrchestratorToPlanet, PlanetToExplorer,
    PlanetToOrchestrator,
};
use one_million_crabs::my_planet::MyPlanet;

static FORGE: OnceLock<Forge> = OnceLock::new();

fn sunray() -> Sunray {
    FORGE.get_or_init(|| Forge::new().expect("the forge")).generate_sunray()
}

type Body = Box<dyn FnOnce(&mut PlanetState, &Generator, &Combinator, Vec<Sunray>) + Send>;

/// Keeps the sunrays that arrive, and runs the body of a test when asked for
/// the internal state: that is where the planet's state can be had.
struct Probe {
    sunrays: Vec<Sunray>,
    body: Option<Body>,
}

impl PlanetAI for Probe {
    fn handle_sunray(&mut self, _: &mut PlanetState, _: &Generator, _: &Combinator, ray: Sunray) {
        self.sunrays.push(ray);
    }

    fn handle_asteroid(
        &mut self,
        _: &mut PlanetState,
        _: &Generator,
        _: &Combinator,
    ) -> Option<Rocket> {
        None
    }

    fn handle_internal_state_req(
        &mut self,
        state: &mut PlanetState,
        generator: &Generator,
        combinator: &Combinator,
    ) -> DummyPlanetState {
        if let Some(body) = self.body.take() {
            body(state, generator, combinator, std::mem::take(&mut self.sunrays));
        }
        state.to_dummy()
    }

    fn handle_explorer_msg(
        &mut self,
        _: &mut PlanetState,
        _: &Generator,
        _: &Combinator,
        _: OutsideExplorerToPlanet,
    ) -> Option<OutsidePlanetToExplorer> {
        None
    }
}

/// Runs `body` on the state of a new planet of the given type, with the given
/// recipes and that many sunrays at hand.
fn on_planet(
    planet_type: PlanetType,
    recipes: Vec<OutsideBasic>,
    sunrays: usize,
    body: impl FnOnce(&mut PlanetState, &Generator, &Combinator, Vec<Sunray>) + Send + 'static,
) {
    let (to_planet, from_orchestrator) = unbounded::<OutsideOrchestratorToPlanet>();
    let (to_orchestrator, from_planet) = unbounded::<OutsidePlanetToOrchestrator>();
    let (_to_planet_too, from_explorers) = unbounded::<OutsideExplorerToPlanet>();
    let probe = Probe { sunrays: Vec::new(), body: Some(Box::new(body)) };
    let mut planet = Planet::new(
        7,
        planet_type,
        Box::new(probe),
        recipes,
        vec![],
        (from_orchestrator, to_orchestrator),
        from_explorers,
    )
    .expect("the planet");
    to_planet.send(OutsideOrchestratorToPlanet::StartPlanetAI).unwrap();
    for _ in 0..sunrays {
        to_planet.send(OutsideOrchestratorToPlanet::Sunray(sunray())).unwrap();
    }
    to_planet.send(OutsideOrchestratorToPlanet::InternalStateRequest).unwrap();
    to_planet.send(OutsideOrchestratorToPlanet::KillPlanet).unwrap();
    planet.run().expect("the planet runs until it is killed");
    let answered = from_planet
        .try_iter()
        .filter(|reply| matches!(reply, OutsidePlanetToOrchestrator::InternalStateResponse { .. }))
        .count();
    assert_eq!(answered, 1);
}

fn all_recipes() -> Vec<OutsideBasic> {
    vec![OutsideBasic::Carbon, OutsideBasic::Hydrogen, OutsideBasic::Oxygen, OutsideBasic::Silicon]
}

/// Hands one sunray to the planet's behaviour and gives back the cell named
/// in the acknowledgement.
fn shine(
    state: &mut PlanetState,
    generator: &Generator,
    combinator: &Combinator,
    ray: Sunray,
) -> Option<u32> {
    let msg = OrchestratorToPlanet::Sunray(ray);
    match MyPlanet.handle_orchestrator_msg(state, generator, combinator, msg) {
        Some(PlanetToOrchestrator::SunrayAck { planet_id, charged_cell }) => {
            assert_eq!(planet_id, state.id());
            charged_cell
        }
        other => panic!("no acknowledgement: {:?}", other),
    }
}

/// Asks the planet's behaviour for a basic resource.
fn generate(
    state: &mut PlanetState,
    generator: &Generator,
    combinator: &Combinator,
    resource: BasicResourceType,
) -> Option<BasicResource> {
    let request = ExplorerToPlanet::GenerateResourceRequest { explorer_id: 3, resource };
    match MyPlanet.handle_explorer_msg(state, generator, combinator, request) {
        Some(PlanetToExplorer::GenerateResourceResponse { resource }) => resource,
        other => panic!("no answer to the request: {:?}", other),
    }
}

fn count(state: &mut PlanetState, generator: &Generator, combinator: &Combinator) -> u32 {
    let request = ExplorerToPlanet::AvailableEnergyCellRequest { explorer_id: 3 };
    match MyPlanet.handle_explorer_msg(state, generator, combinator, request) {
        Some(PlanetToExplorer::AvailableEnergyCellResponse { available_cells }) => available_cells,
        other => panic!("no count: {:?}", other),
    }
}

fn charges(state: &PlanetState) -> Vec<bool> {
    state.cells_iter().map(|cell| cell.is_charged()).collect()
}

#[test]
fn a_sunray_charges_the_first_cell_without_charge() {
    on_planet(PlanetType::D, all_recipes(), 3, |state, generator, combinator, mut rays| {
        assert_eq!(state.cells_count(), 5);
        assert_eq!(count(state, generator, combinator), 0);
        assert_eq!(shine(state, generator, combinator, rays.pop().unwrap()), Some(0));
        assert_eq!(charges(state), vec![true, false, false, false, false]);
        assert_eq!(count(state, generator, combinator), 1);
        assert_eq!(shine(state, generator, combinator, rays.pop().unwrap()), Some(1));
        assert_eq!(charges(state), vec![true, true, false, false, false]);
        assert_eq!(count(state, generator, combinator), 2);
        // The first charged cell is spent, and is the first to be charged again.
        assert!(generate(state, generator, combinator, BasicResourceType::Carbon).is_some());
        assert_eq!(charges(state), vec![false, true, false, false, false]);
        assert_eq!(count(state, generator, combinator), 1);
        assert_eq!(shine(state, generator, combinator, rays.pop().unwrap()), Some(0));
        assert_eq!(charges(state), vec![true, true, false, false, false]);
    });
}

#[test]
fn a_sunray_on_a_fully_charged_planet_is_acknowledged_as_lost() {
    on_planet(PlanetType::D, all_recipes(), 6, |state, generator, combinator, mut rays| {
        for expected in 0..5 {
            assert_eq!(shine(state, generator, combinator, rays.pop().unwrap()), Some(expected));
        }
        assert_eq!(shine(state, generator, combinator, rays.pop().unwrap()), None);
        assert_eq!(charges(state), vec![true; 5]);
        assert_eq!(count(state, generator, combinator), 5);
    });
}

#[test]
fn scanning_generation_makes_the_kind_that_was_asked_for() {
    on_planet(PlanetType::D, all_recipes(), 4, |state, generator, combinator, mut rays| {
        assert!(generate(state, generator, combinator, BasicResourceType::Oxygen).is_none());
        assert_eq!(charges(state), vec![false; 5]);
        for _ in 0..4 {
            shine(state, generator, combinator, rays.pop().unwrap());
        }
        let made = generate(state, generator, combinator, BasicResourceType::Oxygen);
        assert!(matches!(made, Some(BasicResource::Oxygen(_))));
        let made = generate(state, generator, combinator, BasicResourceType::Hydrogen);
        assert!(matches!(made, Some(BasicResource::Hydrogen(_))));
        let made = generate(state, generator, combinator, BasicResourceType::Carbon);
        assert!(matches!(made, Some(BasicResource::Carbon(_))));
        assert_eq!(charges(state), vec![false, false, false, true, false]);
        let made = generate(state, generator, combinator, BasicResourceType::Silicon);
        assert!(matches!(made, Some(BasicResource::Silicon(_))));
        assert_eq!(charges(state), vec![false; 5]);
    });
}

#[test]
fn scanning_generation_of_an_unsupported_kind_spends_nothing() {
    on_planet(PlanetType::A, vec![OutsideBasic::Hydrogen], 1, |state, generator, combinator, mut rays| {
        shine(state, generator, combinator, rays.pop().unwrap());
        assert!(generate(state, generator, combinator, BasicResourceType::Silicon).is_none());
        assert_eq!(charges(state), vec![true, false, false, false, false]);
        let made = generate(state, generator, combinator, BasicResourceType::Hydrogen);
        assert!(matches!(made, Some(BasicResource::Hydrogen(_))));
        assert_eq!(charges(state), vec![false; 5]);
    });
}

#[test]
fn scanning_combination_gives_both_resources_back_when_it_fails() {
    on_planet(PlanetType::D, all_recipes(), 3, |state, generator, combinator, mut rays| {
        shine(state, generator, combinator, rays.pop().unwrap());
        shine(state, generator, combinator, rays.pop().unwrap());
        let silicon = generate(state, generator, combinator, BasicResourceType::Silicon)
            .unwrap()
            .to_silicon()
            .unwrap();
        let carbon = generate(state, generator, combinator, BasicResourceType::Carbon)
            .unwrap()
            .to_carbon()
            .unwrap();
        let carbon_too = {
            shine(state, generator, combinator, rays.pop().unwrap());
            generate(state, generator, combinator, BasicResourceType::Carbon)
                .unwrap()
                .to_carbon()
                .unwrap()
        };
        assert_eq!(charges(state), vec![false; 5]);
        let request = ExplorerToPlanet::CombineResourceRequest {
            explorer_id: 3,
            msg: ComplexResourceRequest::Diamond(carbon, carbon_too),
        };
        let (carbon, carbon_too) =
            match MyPlanet.handle_explorer_msg(state, generator, combinator, request) {
                Some(PlanetToExplorer::CombineResourceResponse {
                    complex_response: Err((reason, lhs, rhs)),
                }) => {
                    assert_eq!(reason, "no available cell");
                    (lhs.to_carbon().unwrap(), rhs.to_carbon().unwrap())
                }
                other => panic!("the combination did not fail: {:?}", other),
            };
        assert_eq!(charges(state), vec![false; 5]);
        drop((silicon, carbon, carbon_too));
    });
}

#[test]
fn scanning_combination_without_a_recipe_keeps_the_charge() {
    on_planet(PlanetType::D, all_recipes(), 3, |state, generator, combinator, mut rays| {
        for _ in 0..3 {
            shine(state, generator, combinator, rays.pop().unwrap());
        }
        let hydrogen = generate(state, generator, combinator, BasicResourceType::Hydrogen)
            .unwrap()
            .to_hydrogen()
            .unwrap();
        let oxygen = generate(state, generator, combinator, BasicResourceType::Oxygen)
            .unwrap()
            .to_oxygen()
            .unwrap();
        assert_eq!(charges(state), vec![false, false, true, false, false]);
        let request = ExplorerToPlanet::CombineResourceRequest {
            explorer_id: 3,
            msg: ComplexResourceRequest::Water(hydrogen, oxygen),
        };
        match MyPlanet.handle_explorer_msg(state, generator, combinator, request) {
            Some(PlanetToExplorer::CombineResourceResponse {
                complex_response: Err((reason, lhs, rhs)),
            }) => {
                assert_ne!(reason, "no available cell");
                assert!(matches!(lhs, GenericResource::BasicResources(BasicResource::Hydrogen(_))));
                assert!(matches!(rhs, GenericResource::BasicResources(BasicResource::Oxygen(_))));
            }
            other => panic!("the combination did not fail: {:?}", other),
        }
        assert_eq!(charges(state), vec![false, false, true, false, false]);
    });
}

#[test]
fn scanning_planet_lists_its_recipes_and_its_state() {
    on_planet(PlanetType::A, vec![OutsideBasic::Carbon], 1, |state, generator, combinator, mut rays| {
        shine(state, generator, combinator, rays.pop().unwrap());
        let request = ExplorerToPlanet::SupportedResourceRequest { explorer_id: 3 };
        match MyPlanet.handle_explorer_msg(state, generator, combinator, request) {
            Some(PlanetToExplorer::SupportedResourceResponse { resource_list }) => {
                assert_eq!(resource_list, vec![BasicResourceType::Carbon])
            }
            other => panic!("no list: {:?}", other),
        }
        let request = ExplorerToPlanet::SupportedCombinationRequest { explorer_id: 3 };
        match MyPlanet.handle_explorer_msg(state, generator, combinator, request) {
            Some(PlanetToExplorer::SupportedCombinationResponse { combination_list }) => {
                assert!(combination_list.is_empty())
            }
            other => panic!("no list: {:?}", other),
        }
        let request = OrchestratorToPlanet::InternalStateRequest;
        match MyPlanet.handle_orchestrator_msg(state, generator, combinator, request) {
            Some(PlanetToOrchestrator::InternalStateResponse { planet_id, planet_state }) => {
                assert_eq!(planet_id, 7);
                assert_eq!(planet_state.energy_cells, vec![true, false, false, false, false]);
                assert_eq!(planet_state.charged_cells_count, 1);
                assert!(!planet_state.has_rocket);
            }
            other => panic!("no overview: {:?}", other),
        }
        let request = OrchestratorToPlanet::KillPlanet;
        assert!(MyPlanet.handle_orchestrator_msg(state, generator, combinator, request).is_none());
        assert_eq!(charges(state), vec![true, false, false, false, false]);
    });
}

#[test]
fn scanning_planet_meets_an_asteroid_with_a_rocket_if_it_may() {
    on_planet(PlanetType::D, all_recipes(), 2, |state, generator, combinator, mut rays| {
        shine(state, generator, combinator, rays.pop().unwrap());
        shine(state, generator, combinator, rays.pop().unwrap());
        assert!(MyPlanet.handle_asteroid(state, generator, combinator).is_none());
        assert_eq!(charges(state), vec![true, true, false, false, false]);
    });
    on_planet(PlanetType::A, vec![OutsideBasic::Oxygen], 2, |state, generator, combinator, mut rays| {
        assert!(MyPlanet.handle_asteroid(state, generator, combinator).is_none());
        shine(state, generator, combinator, rays.pop().unwrap());
        shine(state, generator, combinator, rays.pop().unwrap());
        state.build_rocket(1).unwrap();
        assert_eq!(charges(state), vec![true, false, false, false, false]);
        // The standing rocket goes first, and no charge is spent.
        assert!(MyPlanet.handle_asteroid(state, generator, combinator).is_some());
        assert!(!state.has_rocket());
        assert_eq!(charges(state), vec![true, false, false, false, false]);
        // Then one is built from the first charged cell.
        assert!(MyPlanet.handle_asteroid(state, generator, combinator).is_some());
        assert!(!state.has_rocket());
        assert_eq!(charges(state), vec![false; 5]);
        assert!(MyPlanet.handle_asteroid(state, generator, combinator).is_none());
    });
}
