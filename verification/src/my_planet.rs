//! The planet that keeps no books: it finds a cell by looking through the
//! planet's cells from the first one on.

use vstd::prelude::*;
use common_game::components::planet::PlanetState;
use common_game::components::resource::{Combinator, Generator};
use common_game::components::rocket::Rocket;
use crate::cells::{count_charged_cells, first_cell, generate_resource, lemma_count_bound};
use crate::game::{
    basic_recipes, basic_resource_type, cell_charges, combinator_recipes, complex_recipes,
    complex_resource_type, count_charged, generator_recipes, model, no_cell_reason, overview,
    request_inputs, requested_type, take_inputs, PlanetModel,
};
use crate::messages::{
    BasicResourceType, ComplexResourceType, ExplorerToPlanet, OrchestratorToPlanet,
    PlanetToExplorer, PlanetToOrchestrator,
};
use crate::N_CELLS;

verus! {

impl PlanetModel {
    /// The first cell without a charge.
    pub open spec fn first_empty(self) -> Option<int> {
        self.cells.index_of_first(false)
    }

    /// The first cell with a charge.
    pub open spec fn first_charged(self) -> Option<int> {
        self.cells.index_of_first(true)
    }

    /// After a sunray: the first cell without a charge has one. Where every
    /// cell is charged nothing changes.
    pub open spec fn absorb(self) -> PlanetModel {
        match self.first_empty() {
            Some(index) => PlanetModel { cells: self.cells.update(index, true), ..self },
            None => self,
        }
    }

    /// After the energy of the first charged cell was spent.
    pub open spec fn spend(self) -> PlanetModel {
        match self.first_charged() {
            Some(index) => PlanetModel { cells: self.cells.update(index, false), ..self },
            None => self,
        }
    }

    /// Whether an asteroid is met with a rocket: the planet's type must allow
    /// one, and either one stands ready or a charged cell is there to build
    /// one from.
    pub open spec fn defended(self) -> bool {
        self.rocket_allowed && (self.rocket || self.first_charged() is Some)
    }

    /// After an asteroid: a standing rocket is used up; else the energy of
    /// the first charged cell is spent on one.
    pub open spec fn defend(self) -> PlanetModel {
        if !self.rocket_allowed {
            self
        } else if self.rocket {
            PlanetModel { rocket: false, ..self }
        } else {
            self.spend()
        }
    }
}

/// The planet's behaviour. It has no state of its own.
pub struct MyPlanet;

impl MyPlanet {
    /// Handles a message of the orchestrator.
    ///
    /// A sunray charges the first cell without a charge; the reply names that
    /// cell, or says that there was none. A request for the internal state is
    /// answered with an overview of the planet. Any other message changes
    /// nothing and gets no reply.
    pub fn handle_orchestrator_msg(
        &mut self,
        state: &mut PlanetState,
        _generator: &Generator,
        _combinator: &Combinator,
        msg: OrchestratorToPlanet,
    ) -> (reply: Option<PlanetToOrchestrator>)
        requires
            cell_charges(*old(state)).len() == N_CELLS,
        ensures
            ({
                let before = model(*old(state));
                let after = model(*final(state));
                match msg {
                    OrchestratorToPlanet::Sunray(_) => {
                        &&& after == before.absorb()
                        &&& reply matches Some(
                            PlanetToOrchestrator::SunrayAck { planet_id, charged_cell },
                        )
                        &&& planet_id == before.id
                        &&& match charged_cell {
                            Some(index) => before.first_empty() == Some(index as int),
                            None => before.first_empty() is None,
                        }
                    },
                    OrchestratorToPlanet::InternalStateRequest => {
                        &&& after == before
                        &&& reply matches Some(
                            PlanetToOrchestrator::InternalStateResponse { planet_id, planet_state },
                        )
                        &&& planet_id == before.id
                        &&& planet_state.energy_cells@ == before.cells
                        &&& planet_state.charged_cells_count == count_charged(before.cells)
                        &&& planet_state.has_rocket == before.rocket
                    },
                    _ => after == before && reply is None,
                }
            }),
    {
        match msg {
            OrchestratorToPlanet::InternalStateRequest => {
                Some(
                    PlanetToOrchestrator::InternalStateResponse {
                        planet_id: state.id(),
                        planet_state: overview(state),
                    },
                )
            },
            OrchestratorToPlanet::Sunray(sunray) => {
                let mut charged_cell: Option<u32> = None;
                if let Some(index) = first_cell(state, false) {
                    state.cell_mut(index).charge(sunray);
                    charged_cell = Some(index as u32);
                }
                Some(PlanetToOrchestrator::SunrayAck { planet_id: state.id(), charged_cell })
            },
            _ => None,
        }
    }

    /// Handles a message of an explorer. Every message is answered.
    ///
    /// The questions for the charged cells and for the recipes only read. A
    /// request to generate or to combine takes the first charged cell. It
    /// succeeds exactly when there is such a cell and the recipe is there; the
    /// cell's energy is then spent. When it fails, the planet is as before,
    /// and a request to combine gets its two resources back, with the
    /// planet's own reason if there was no cell to take.
    pub fn handle_explorer_msg(
        &mut self,
        state: &mut PlanetState,
        generator: &Generator,
        combinator: &Combinator,
        msg: ExplorerToPlanet,
    ) -> (reply: Option<PlanetToExplorer>)
        requires
            cell_charges(*old(state)).len() == N_CELLS,
        ensures
            ({
                let before = model(*old(state));
                let after = model(*final(state));
                match msg {
                    ExplorerToPlanet::AvailableEnergyCellRequest { .. } => {
                        &&& after == before
                        &&& reply matches Some(
                            PlanetToExplorer::AvailableEnergyCellResponse { available_cells },
                        )
                        &&& available_cells == count_charged(before.cells)
                    },
                    ExplorerToPlanet::SupportedResourceRequest { .. } => {
                        &&& after == before
                        &&& reply matches Some(
                            PlanetToExplorer::SupportedResourceResponse { resource_list },
                        )
                        &&& resource_list@.no_duplicates()
                        &&& forall|kind: BasicResourceType|
                            resource_list@.contains(kind) <==> generator_recipes(
                                *generator,
                            ).contains(kind)
                    },
                    ExplorerToPlanet::SupportedCombinationRequest { .. } => {
                        &&& after == before
                        &&& reply matches Some(
                            PlanetToExplorer::SupportedCombinationResponse { combination_list },
                        )
                        &&& combination_list@.no_duplicates()
                        &&& forall|kind: ComplexResourceType|
                            combination_list@.contains(kind) <==> combinator_recipes(
                                *combinator,
                            ).contains(kind)
                    },
                    ExplorerToPlanet::GenerateResourceRequest { resource: kind, .. } => {
                        let succeeds = before.first_charged() is Some && generator_recipes(
                            *generator,
                        ).contains(kind);
                        &&& after == if succeeds {
                            before.spend()
                        } else {
                            before
                        }
                        &&& reply matches Some(
                            PlanetToExplorer::GenerateResourceResponse { resource },
                        )
                        &&& resource is Some <==> succeeds
                        &&& resource matches Some(basic) ==> basic_resource_type(basic) == kind
                    },
                    ExplorerToPlanet::CombineResourceRequest { msg: request, .. } => {
                        let succeeds = before.first_charged() is Some && combinator_recipes(
                            *combinator,
                        ).contains(requested_type(request));
                        &&& after == if succeeds {
                            before.spend()
                        } else {
                            before
                        }
                        &&& reply matches Some(
                            PlanetToExplorer::CombineResourceResponse { complex_response },
                        )
                        &&& complex_response is Ok <==> succeeds
                        &&& complex_response matches Ok(complex) ==> complex_resource_type(complex)
                            == requested_type(request)
                        &&& complex_response matches Err(failure) ==> {
                            &&& (failure.1, failure.2) == request_inputs(request)
                            &&& failure.0@ == no_cell_reason() <==> before.first_charged() is None
                        }
                    },
                }
            }),
    {
        proof {
            lemma_count_bound(cell_charges(*state));
            cell_charges(*state).index_of_first_ensures(true);
        }
        match msg {
            ExplorerToPlanet::AvailableEnergyCellRequest { explorer_id: _ } => {
                Some(
                    PlanetToExplorer::AvailableEnergyCellResponse {
                        available_cells: count_charged_cells(state),
                    },
                )
            },
            ExplorerToPlanet::SupportedResourceRequest { explorer_id: _ } => {
                Some(
                    PlanetToExplorer::SupportedResourceResponse {
                        resource_list: basic_recipes(generator),
                    },
                )
            },
            ExplorerToPlanet::SupportedCombinationRequest { explorer_id: _ } => {
                Some(
                    PlanetToExplorer::SupportedCombinationResponse {
                        combination_list: complex_recipes(combinator),
                    },
                )
            },
            ExplorerToPlanet::GenerateResourceRequest { explorer_id: _, resource } => {
                let mut produced = None;
                if let Some(index) = first_cell(state, true) {
                    let cell = state.cell_mut(index);
                    if let Ok(basic) = generate_resource(generator, resource, cell) {
                        produced = Some(basic);
                    }
                }
                Some(PlanetToExplorer::GenerateResourceResponse { resource: produced })
            },
            ExplorerToPlanet::CombineResourceRequest { explorer_id: _, msg: request } => {
                if let Some(index) = first_cell(state, true) {
                    let cell = state.cell_mut(index);
                    let complex_response = combinator.try_make(request, cell);
                    Some(PlanetToExplorer::CombineResourceResponse { complex_response })
                } else {
                    let inputs = take_inputs(request);
                    Some(
                        PlanetToExplorer::CombineResourceResponse {
                            complex_response: Err(
                                ("no available cell".to_owned(), inputs.0, inputs.1),
                            ),
                        },
                    )
                }
            },
        }
    }

    /// Handles an asteroid: answers whether the planet has a rocket to meet
    /// it with, and hands the rocket out.
    ///
    /// A planet whose type allows no rocket has none. Else a rocket that
    /// stands ready is taken. Else one is built from the first charged cell,
    /// if there is one, and taken.
    pub fn handle_asteroid(
        &mut self,
        state: &mut PlanetState,
        _generator: &Generator,
        _combinator: &Combinator,
    ) -> (rocket: Option<Rocket>)
        requires
            cell_charges(*old(state)).len() == N_CELLS,
        ensures
            rocket is Some <==> model(*old(state)).defended(),
            model(*final(state)) == model(*old(state)).defend(),
    {
        proof {
            cell_charges(*state).index_of_first_ensures(true);
        }
        if !state.can_have_rocket() {
            None
        } else if state.has_rocket() {
            state.take_rocket()
        } else if let Some(index) = first_cell(state, true) {
            match state.build_rocket(index) {
                Ok(_) => state.take_rocket(),
                Err(_) => None,
            }
        } else {
            None
        }
    }
}

} // verus!
